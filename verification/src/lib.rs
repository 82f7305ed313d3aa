pub mod base64;
pub mod diagnostics;
pub mod process;
pub mod server;
pub mod projection;
pub mod terminal;
pub mod wire;
pub mod wire_laws;
