//! Lenient base64 decoding of client input.
use vstd::prelude::*;
use vstd::string::StringSliceAdditionalSpecFns;

verus! {

/// Value of one base64 alphabet byte (`A-Z`, `a-z`, `0-9`, `+`, `/`), or 255
/// for a byte outside the alphabet.
pub open spec fn sextet(byte: u8) -> u8 {
    if 65 <= byte <= 90 {
        (byte - 65) as u8
    } else if 97 <= byte <= 122 {
        (byte - 97 + 26) as u8
    } else if 48 <= byte <= 57 {
        (byte - 48 + 52) as u8
    } else if byte == 43 {
        62
    } else if byte == 47 {
        63
    } else {
        255
    }
}

/// Decoder state after `bytes`: the bit accumulator, the number of bits not
/// yet emitted, and the bytes emitted, one `decode_step` per byte.
pub open spec fn decode_fold(bytes: Seq<u8>) -> (u32, u32, Seq<u8>)
    decreases bytes.len(),
{
    if bytes.len() == 0 {
        (0, 0, Seq::empty())
    } else {
        decode_step(decode_fold(bytes.drop_last()), bytes.last())
    }
}

/// One decoding step: a byte outside the alphabet is skipped; an alphabet
/// byte appends its six bits, and once eight bits are waiting the oldest
/// eight are emitted as a byte.
pub open spec fn decode_step(state: (u32, u32, Seq<u8>), byte: u8) -> (u32, u32, Seq<u8>) {
    let (accumulator, bits, out) = state;
    let value = sextet(byte);
    if value == 255 {
        (accumulator, bits, out)
    } else {
        let next = (accumulator << 6u32) | (value as u32);
        if bits + 6 >= 8 {
            let left = (bits + 6 - 8) as u32;
            (next, left, out.push((next >> left) as u8))
        } else {
            (next, (bits + 6) as u32, out)
        }
    }
}

/// The bytes that base64 decoding of `bytes` yields.
pub open spec fn decoded(bytes: Seq<u8>) -> Seq<u8> {
    decode_fold(bytes).2
}

/// Number of alphabet bytes in `bytes`.
pub open spec fn alphabet_count(bytes: Seq<u8>) -> int
    decreases bytes.len(),
{
    if bytes.len() == 0 {
        0
    } else {
        alphabet_count(bytes.drop_last()) + if sextet(bytes.last()) == 255 {
            0int
        } else {
            1int
        }
    }
}

proof fn lemma_fold_bits(bytes: Seq<u8>)
    ensures
        decode_fold(bytes).1 < 8,
        decode_fold(bytes).1 == (6 * alphabet_count(bytes)) % 8,
        decode_fold(bytes).2.len() == (6 * alphabet_count(bytes)) / 8,
    decreases bytes.len(),
{
    if bytes.len() > 0 {
        lemma_fold_bits(bytes.drop_last());
        let c = alphabet_count(bytes.drop_last());
        assert(c >= 0) by {
            lemma_count_nonneg(bytes.drop_last());
        }
        assert((6 * (c + 1)) % 8 == if (6 * c) % 8 + 6 >= 8 {
            (6 * c) % 8 - 2
        } else {
            (6 * c) % 8 + 6
        }) by (nonlinear_arith)
            requires
                c >= 0,
        ;
        assert((6 * (c + 1)) / 8 == if (6 * c) % 8 + 6 >= 8 {
            (6 * c) / 8 + 1
        } else {
            (6 * c) / 8
        }) by (nonlinear_arith)
            requires
                c >= 0,
        ;
    }
}

proof fn lemma_count_nonneg(bytes: Seq<u8>)
    ensures
        alphabet_count(bytes) >= 0,
    decreases bytes.len(),
{
    if bytes.len() > 0 {
        lemma_count_nonneg(bytes.drop_last());
    }
}

/// Every four alphabet bytes decode to three bytes; leftover bits that do not
/// make a whole byte are dropped.
pub proof fn decoded_length(bytes: Seq<u8>)
    ensures
        decoded(bytes).len() == (6 * alphabet_count(bytes)) / 8,
{
    lemma_fold_bits(bytes);
}

/// Bytes outside the alphabet (padding, whitespace, garbage) change nothing:
/// appending one leaves the decoder exactly where it was.
pub proof fn non_alphabet_bytes_are_ignored(bytes: Seq<u8>, byte: u8)
    requires
        sextet(byte) == 255,
    ensures
        decode_fold(bytes.push(byte)) == decode_fold(bytes),
        decoded(bytes.push(byte)) == decoded(bytes),
{
    assert(bytes.push(byte).drop_last() =~= bytes);
}

/// Decoding is a left fold: the output for a longer input extends the output
/// for its prefix.
pub proof fn decoding_extends_prefix(bytes: Seq<u8>, byte: u8)
    ensures
        decoded(bytes).is_prefix_of(decoded(bytes.push(byte))),
{
    assert(bytes.push(byte).drop_last() =~= bytes);
    let out = decoded(bytes);
    assert(out.is_prefix_of(out));
    if sextet(byte) != 255 {
        let (a, b, o) = decode_fold(bytes);
        let next = (a << 6u32) | (sextet(byte) as u32);
        if b + 6 >= 8 {
            let pushed = o.push((next >> ((b + 6 - 8) as u32)) as u8);
            assert(pushed.subrange(0, o.len() as int) =~= o);
        }
    }
}

proof fn lemma_fold_push(bytes: Seq<u8>, byte: u8)
    ensures
        decode_fold(bytes.push(byte)) == decode_step(decode_fold(bytes), byte),
{
    assert(bytes.push(byte).drop_last() =~= bytes);
}

/// The standard alphabet byte for a six-bit value.
pub open spec fn alphabet(value: u8) -> u8 {
    if value < 26 {
        (65 + value) as u8
    } else if value < 52 {
        (97 + value - 26) as u8
    } else if value < 62 {
        (48 + value - 52) as u8
    } else if value == 62 {
        43
    } else {
        47
    }
}

/// The padding byte `=`.
pub open spec fn pad() -> u8 {
    61
}

/// Four alphabet bytes for three input bytes.
pub open spec fn quad(b0: u8, b1: u8, b2: u8) -> Seq<u8> {
    seq![
        alphabet(b0 >> 2u8),
        alphabet(((b0 & 3u8) << 4u8) | (b1 >> 4u8)),
        alphabet(((b1 & 15u8) << 2u8) | (b2 >> 6u8)),
        alphabet(b2 & 63u8),
    ]
}

/// Standard base64 of whole three-byte groups.
pub open spec fn encode_groups(bytes: Seq<u8>) -> Seq<u8>
    decreases bytes.len(),
{
    if bytes.len() < 3 {
        Seq::empty()
    } else {
        let n = bytes.len() as int;
        encode_groups(bytes.subrange(0, n - 3)) + quad(bytes[n - 3], bytes[n - 2], bytes[n - 1])
    }
}

/// Standard base64 (RFC 4648) with `=` padding: whole groups, then one or two
/// leftover bytes as two or three alphabet bytes padded to four.
pub open spec fn standard_base64(bytes: Seq<u8>) -> Seq<u8> {
    let whole = (bytes.len() / 3 * 3) as int;
    let rest = bytes.subrange(whole, bytes.len() as int);
    encode_groups(bytes.subrange(0, whole)) + if rest.len() == 0 {
        Seq::empty()
    } else if rest.len() == 1 {
        seq![alphabet(rest[0] >> 2u8), alphabet((rest[0] & 3u8) << 4u8), pad(), pad()]
    } else {
        seq![
            alphabet(rest[0] >> 2u8),
            alphabet(((rest[0] & 3u8) << 4u8) | (rest[1] >> 4u8)),
            alphabet((rest[1] & 15u8) << 2u8),
            pad(),
        ]
    }
}

proof fn lemma_alphabet(value: u8)
    requires
        value < 64,
    ensures
        sextet(alphabet(value)) == value,
{
}

proof fn lemma_group_bits(accumulator: u32, b0: u8, b1: u8, b2: u8)
    ensures
        ({
            let v1 = (b0 >> 2u8) as u32;
            let v2 = (((b0 & 3u8) << 4u8) | (b1 >> 4u8)) as u32;
            let v3 = (((b1 & 15u8) << 2u8) | (b2 >> 6u8)) as u32;
            let v4 = (b2 & 63u8) as u32;
            let n1 = (accumulator << 6u32) | v1;
            let n2 = (n1 << 6u32) | v2;
            let n3 = (n2 << 6u32) | v3;
            let n4 = (n3 << 6u32) | v4;
            &&& (n2 >> 4u32) as u8 == b0
            &&& (n3 >> 2u32) as u8 == b1
            &&& (n4 >> 0u32) as u8 == b2
        }),
{
    assert({
        let v1 = (b0 >> 2u8) as u32;
        let v2 = (((b0 & 3u8) << 4u8) | (b1 >> 4u8)) as u32;
        let v3 = (((b1 & 15u8) << 2u8) | (b2 >> 6u8)) as u32;
        let v4 = (b2 & 63u8) as u32;
        let n1 = (accumulator << 6u32) | v1;
        let n2 = (n1 << 6u32) | v2;
        let n3 = (n2 << 6u32) | v3;
        let n4 = (n3 << 6u32) | v4;
        &&& (n2 >> 4u32) as u8 == b0
        &&& (n3 >> 2u32) as u8 == b1
        &&& (n4 >> 0u32) as u8 == b2
    }) by (bit_vector);
}

proof fn lemma_sextets(b0: u8, b1: u8, b2: u8)
    ensures
        b0 >> 2u8 < 64,
        ((b0 & 3u8) << 4u8) | (b1 >> 4u8) < 64,
        ((b1 & 15u8) << 2u8) | (b2 >> 6u8) < 64,
        b2 & 63u8 < 64,
        (b0 & 3u8) << 4u8 < 64,
        (b1 & 15u8) << 2u8 < 64,
{
    assert(b0 >> 2u8 < 64) by (bit_vector);
    assert(((b0 & 3u8) << 4u8) | (b1 >> 4u8) < 64) by (bit_vector);
    assert(((b1 & 15u8) << 2u8) | (b2 >> 6u8) < 64) by (bit_vector);
    assert(b2 & 63u8 < 64) by (bit_vector);
    assert((b0 & 3u8) << 4u8 < 64) by (bit_vector);
    assert((b1 & 15u8) << 2u8 < 64) by (bit_vector);
}

/// Decoding four more bytes after `prefix`.
proof fn lemma_fold_four(prefix: Seq<u8>, c: Seq<u8>)
    requires
        c.len() == 4,
    ensures
        decode_fold(prefix + c) == decode_step(
            decode_step(decode_step(decode_step(decode_fold(prefix), c[0]), c[1]), c[2]),
            c[3],
        ),
{
    let s1 = prefix.push(c[0]);
    let s2 = s1.push(c[1]);
    let s3 = s2.push(c[2]);
    let s4 = s3.push(c[3]);
    assert(s4 =~= prefix + c);
    lemma_fold_push(prefix, c[0]);
    lemma_fold_push(s1, c[1]);
    lemma_fold_push(s2, c[2]);
    lemma_fold_push(s3, c[3]);
}

/// Whole groups decode back exactly, leaving no bits behind.
proof fn lemma_groups_round_trip(bytes: Seq<u8>)
    requires
        bytes.len() % 3 == 0,
    ensures
        decode_fold(encode_groups(bytes)).1 == 0,
        decode_fold(encode_groups(bytes)).2 == bytes,
    decreases bytes.len(),
{
    if bytes.len() < 3 {
        assert(bytes =~= Seq::<u8>::empty());
    } else {
        let n = bytes.len() as int;
        let front = bytes.subrange(0, n - 3);
        lemma_groups_round_trip(front);
        let (b0, b1, b2) = (bytes[n - 3], bytes[n - 2], bytes[n - 1]);
        let q = quad(b0, b1, b2);
        lemma_sextets(b0, b1, b2);
        lemma_alphabet(b0 >> 2u8);
        lemma_alphabet(((b0 & 3u8) << 4u8) | (b1 >> 4u8));
        lemma_alphabet(((b1 & 15u8) << 2u8) | (b2 >> 6u8));
        lemma_alphabet(b2 & 63u8);
        lemma_fold_four(encode_groups(front), q);
        let (a, bits, out) = decode_fold(encode_groups(front));
        lemma_group_bits(a, b0, b1, b2);
        assert(out.push(b0).push(b1).push(b2) =~= bytes);
    }
}

/// Decoding the standard base64 of any bytes gives those bytes back.
pub proof fn standard_base64_round_trips(bytes: Seq<u8>)
    ensures
        decoded(standard_base64(bytes)) == bytes,
{
    let whole = (bytes.len() / 3 * 3) as int;
    let front = bytes.subrange(0, whole);
    let rest = bytes.subrange(whole, bytes.len() as int);
    lemma_groups_round_trip(front);
    let groups = encode_groups(front);
    let (a, bits, out) = decode_fold(groups);
    if rest.len() == 0 {
        assert(groups + Seq::<u8>::empty() =~= groups);
        assert(out =~= bytes);
    } else {
        let b0 = rest[0];
        let b1: u8 = if rest.len() == 2 { rest[1] } else { 0u8 };
        lemma_sextets(b0, b1, 0u8);
        lemma_alphabet(b0 >> 2u8);
        lemma_alphabet((b0 & 3u8) << 4u8);
        lemma_alphabet(((b0 & 3u8) << 4u8) | (b1 >> 4u8));
        lemma_alphabet((b1 & 15u8) << 2u8);
        assert(sextet(pad()) == 255);
        let tail = standard_base64(bytes).subrange(groups.len() as int, groups.len() as int + 4);
        assert(standard_base64(bytes) =~= groups + tail);
        lemma_fold_four(groups, tail);
        lemma_group_bits(a, b0, b1, 0u8);
        assert((((b0 & 3u8) << 4u8) | (0u8 >> 4u8)) == ((b0 & 3u8) << 4u8)) by (bit_vector);
        assert((((b1 & 15u8) << 2u8) | (0u8 >> 6u8)) == ((b1 & 15u8) << 2u8)) by (bit_vector);
        if rest.len() == 1 {
            assert(out.push(b0) =~= bytes);
        } else {
            assert(out.push(b0).push(b1) =~= bytes);
        }
    }
}

/// Only alphabet bytes matter: decoding gives the same bytes as decoding the
/// input with every byte outside the alphabet removed.
pub proof fn only_alphabet_bytes_matter(bytes: Seq<u8>)
    ensures
        decoded(bytes) == decoded(bytes.filter(|byte: u8| sextet(byte) != 255)),
        decode_fold(bytes) == decode_fold(bytes.filter(|byte: u8| sextet(byte) != 255)),
    decreases bytes.len(),
{
    reveal(Seq::filter);
    if bytes.len() > 0 {
        only_alphabet_bytes_matter(bytes.drop_last());
        let kept = bytes.drop_last().filter(|byte: u8| sextet(byte) != 255);
        if sextet(bytes.last()) != 255 {
            lemma_fold_push(kept, bytes.last());
        }
    }
}

/// Value of one base64 alphabet byte, or 255 outside the alphabet.
fn sextet_of(byte: u8) -> (value: u8)
    ensures
        value == sextet(byte),
{
    if 65 <= byte && byte <= 90 {
        byte - 65
    } else if 97 <= byte && byte <= 122 {
        byte - 97 + 26
    } else if 48 <= byte && byte <= 57 {
        byte - 48 + 52
    } else if byte == 43 {
        62
    } else if byte == 47 {
        63
    } else {
        255
    }
}

/// Decode base64 input. Invalid input yields no bytes rather than an error,
/// because a malformed frame should not take the session down.
pub fn base64(input: &str) -> (out: Vec<u8>)
    ensures
        out@ == decoded(input.spec_bytes()),
{
    let bytes = input.as_bytes();
    let mut out: Vec<u8> = Vec::new();
    let mut accumulator: u32 = 0;
    let mut bits: u32 = 0;
    let mut index: usize = 0;
    while index < bytes.len()
        invariant
            index <= bytes@.len(),
            bytes@ == input.spec_bytes(),
            (accumulator, bits, out@) == decode_fold(bytes@.take(index as int)),
        decreases bytes@.len() - index,
    {
        proof {
            assert(bytes@.take(index + 1).drop_last() =~= bytes@.take(index as int));
            lemma_fold_bits(bytes@.take(index as int));
        }
        let value = sextet_of(bytes[index]);
        if value != 255 {
            accumulator = (accumulator << 6) | (value as u32);
            bits = bits + 6;
            if bits >= 8 {
                bits = bits - 8;
                out.push((accumulator >> bits) as u8);
            }
        }
        index += 1;
    }
    assert(bytes@.take(bytes@.len() as int) =~= bytes@);
    out
}

} // verus!
