//! Base64 and Base64url over sequences: what encoding and decoding produce, and the laws
//! that relate them.
//!
//! Bytes are taken in groups of three and packed into a 24-bit block, which is cut into four
//! 6-bit values, each written as one symbol. A final group of one or two bytes is completed
//! with zero bits, and the symbols that carry no input bits are replaced by the padding
//! symbol. Decoding reads groups of four symbols back into such a block.

use vstd::prelude::*;
use crate::alphabet::{lemma_value_of_symbol, symbol_spec, value_spec, Alphabet, PAD, PAD_VALUE};

verus! {

/// The 24-bit block of a group of one to three bytes: byte 1 in bits 16-23, byte 2 in bits
/// 8-15, byte 3 in bits 0-7; an absent byte counts as zero.
pub open spec fn byte_block(g: Seq<u8>) -> u32 {
    let b0 = g[0] as u32;
    let b1 = if g.len() > 1 { g[1] as u32 } else { 0u32 };
    let b2 = if g.len() > 2 { g[2] as u32 } else { 0u32 };
    (b0 << 16u32) | (b1 << 8u32) | b2
}

/// The four symbols of a group of one to three bytes.
pub open spec fn encode_group(url_safe: bool, g: Seq<u8>) -> Seq<u8> {
    let block = byte_block(g);
    seq![
        symbol_spec(url_safe, block >> 18u32),
        symbol_spec(url_safe, (block >> 12u32) & 0x3fu32),
        if g.len() < 2 { PAD } else { symbol_spec(url_safe, (block >> 6u32) & 0x3fu32) },
        if g.len() < 3 { PAD } else { symbol_spec(url_safe, block & 0x3fu32) },
    ]
}

/// The length of the next group of bytes to encode: three, or what is left.
pub open spec fn group_len(n: nat) -> nat {
    if n < 3 { n } else { 3 }
}

/// The encoding of `data`: the groups of `data`, in order, each as four symbols.
pub open spec fn encode_spec(url_safe: bool, data: Seq<u8>) -> Seq<u8>
    decreases data.len(),
{
    if data.len() == 0 {
        seq![]
    } else {
        let k = group_len(data.len()) as int;
        encode_group(url_safe, data.take(k)) + encode_spec(url_safe, data.skip(k))
    }
}

/// The 24-bit block of four symbol values: value 1 in bits 18-23, value 2 in bits 12-17,
/// value 3 in bits 6-11 and value 4 in bits 0-5, where a padding value contributes nothing.
pub open spec fn value_block(v0: u32, v1: u32, v2: u32, v3: u32) -> u32 {
    let w2 = if v2 == PAD_VALUE { 0u32 } else { v2 << 6u32 };
    let w3 = if v3 == PAD_VALUE { 0u32 } else { v3 };
    (v0 << 18u32) | (v1 << 12u32) | w2 | w3
}

/// The bytes of four symbol values: the first byte of the block always, the second unless
/// value 3 is padding, the third unless value 4 is padding.
pub open spec fn decode_values(v0: u32, v1: u32, v2: u32, v3: u32) -> Seq<u8> {
    let block = value_block(v0, v1, v2, v3);
    seq![(block >> 16u32) as u8]
        + (if v2 == PAD_VALUE { seq![] } else { seq![(block >> 8u32) as u8] })
        + (if v3 == PAD_VALUE { seq![] } else { seq![block as u8] })
}

/// The value of a byte known to be in the alphabet.
pub open spec fn symbol_value(url_safe: bool, c: u8) -> u32 {
    value_spec(url_safe, c)->0
}

/// The bytes of a group of four symbols.
pub open spec fn decode_group(url_safe: bool, g: Seq<u8>) -> Seq<u8> {
    decode_values(
        symbol_value(url_safe, g[0]),
        symbol_value(url_safe, g[1]),
        symbol_value(url_safe, g[2]),
        symbol_value(url_safe, g[3]),
    )
}

/// The decoding of `text` whose length is a multiple of four and whose bytes are all in the
/// alphabet: the groups of four symbols, in order, each as its bytes.
pub open spec fn decode_spec(url_safe: bool, text: Seq<u8>) -> Seq<u8>
    decreases text.len(),
{
    if text.len() < 4 {
        seq![]
    } else {
        decode_group(url_safe, text.take(4)) + decode_spec(url_safe, text.skip(4))
    }
}

/// Every byte of `text` is a symbol of the alphabet or the padding symbol.
pub open spec fn symbols_valid(url_safe: bool, text: Seq<u8>) -> bool {
    forall|i: int| 0 <= i < text.len() ==> (#[trigger] value_spec(url_safe, text[i])) is Some
}

/// The message of the error for a text whose length is not a multiple of four.
pub open spec fn length_error_message() -> Seq<char> {
    "Number of bytes for Base64 is not a multiple of 4!"@
}

/// The message of the error for a text with a byte outside the alphabet.
pub open spec fn symbol_error_message() -> Seq<char> {
    "Non base64-alphabet character encountered!"@
}

/// The outcome of decoding `text`: a length error, else a symbol error, else the bytes.
pub open spec fn decode_result(url_safe: bool, text: Seq<u8>) -> Result<Seq<u8>, Seq<char>> {
    if text.len() % 4 != 0 {
        Err(length_error_message())
    } else if !symbols_valid(url_safe, text) {
        Err(symbol_error_message())
    } else {
        Ok(decode_spec(url_safe, text))
    }
}

/// The four values of a group of symbols, or `None` when one of them is not in the alphabet.
fn group_values(alphabet: &Alphabet, g0: u8, g1: u8, g2: u8, g3: u8) -> (r: Option<
    (u32, u32, u32, u32),
>)
    ensures
        r matches Some(vs) ==> {
            &&& value_spec(alphabet.is_url_safe(), g0) == Some(vs.0)
            &&& value_spec(alphabet.is_url_safe(), g1) == Some(vs.1)
            &&& value_spec(alphabet.is_url_safe(), g2) == Some(vs.2)
            &&& value_spec(alphabet.is_url_safe(), g3) == Some(vs.3)
        },
        r is None ==> {
            ||| value_spec(alphabet.is_url_safe(), g0) is None
            ||| value_spec(alphabet.is_url_safe(), g1) is None
            ||| value_spec(alphabet.is_url_safe(), g2) is None
            ||| value_spec(alphabet.is_url_safe(), g3) is None
        },
{
    match (alphabet.value(g0), alphabet.value(g1), alphabet.value(g2), alphabet.value(g3)) {
        (Some(v0), Some(v1), Some(v2), Some(v3)) => Some((v0, v1, v2, v3)),
        _ => None,
    }
}


/// Encodes `data` with the standard (`url_safe == false`) or URL-safe alphabet.
pub fn encode(url_safe: bool, data: &Vec<u8>) -> (r: Vec<u8>)
    ensures
        r@ == encode_spec(url_safe, data@),
{
    let alphabet = Alphabet::base64(url_safe);
    let n: usize = data.len();
    let mut encoded: Vec<u8> = Vec::new();
    let mut i: usize = 0;
    proof {
        assert(data@.skip(0) =~= data@);
        assert(encoded@ + encode_spec(url_safe, data@) =~= encode_spec(url_safe, data@));
    }
    while i < n
        invariant
            n == data@.len(),
            i <= n,
            alphabet.is_url_safe() == url_safe,
            encode_spec(url_safe, data@) == encoded@ + encode_spec(url_safe, data@.skip(i as int)),
        decreases n - i,
    {
        let k: usize = if n - i < 3 { n - i } else { 3 };
        let b0: u32 = data[i] as u32;
        let b1: u32 = if k > 1 { data[i + 1] as u32 } else { 0 };
        let b2: u32 = if k > 2 { data[i + 2] as u32 } else { 0 };
        let block: u32 = (b0 << 16) | (b1 << 8) | b2;
        proof {
            lemma_block_bits(b0, b1, b2);
            assert(((block >> 12) & 0x3f) < 64 && ((block >> 6) & 0x3f) < 64 && (block & 0x3f)
                < 64) by (bit_vector);
        }
        let ghost before = encoded@;
        encoded.push(alphabet.symbol(block >> 18));
        encoded.push(alphabet.symbol((block >> 12) & 0x3f));
        if k < 2 {
            encoded.push(PAD);
        } else {
            encoded.push(alphabet.symbol((block >> 6) & 0x3f));
        }
        if k < 3 {
            encoded.push(PAD);
        } else {
            encoded.push(alphabet.symbol(block & 0x3f));
        }
        proof {
            let rest = data@.skip(i as int);
            let g = rest.take(k as int);
            assert(group_len(rest.len()) == k);
            assert(g =~= data@.subrange(i as int, i + k));
            assert(rest.skip(k as int) =~= data@.skip(i + k));
            assert(byte_block(g) == block);
            assert(encoded@ =~= before + encode_group(url_safe, g));
        }
        i = i + k;
    }
    proof {
        assert(data@.skip(i as int) =~= Seq::<u8>::empty());
        assert(encoded@ =~= encoded@ + Seq::<u8>::empty());
    }
    encoded
}

/// Decodes `text` with the standard (`url_safe == false`) or URL-safe alphabet. Fails when
/// the length of `text` is not a multiple of four, or else when a byte of it is neither a
/// symbol of the alphabet nor the padding symbol.
pub fn decode(url_safe: bool, text: &Vec<u8>) -> (r: Result<Vec<u8>, String>)
    ensures
        match decode_result(url_safe, text@) {
            Ok(d) => r matches Ok(v) && v@ == d,
            Err(m) => r matches Err(e) && e@ == m,
        },
{
    let alphabet = Alphabet::base64(url_safe);
    if text.len() % 4 != 0 {
        return Err(String::from_str("Number of bytes for Base64 is not a multiple of 4!"));
    }
    let mut decoded: Vec<u8> = Vec::new();
    let mut i: usize = 0;
    proof {
        assert(text@.skip(0) =~= text@);
        assert(decoded@ + decode_spec(url_safe, text@) =~= decode_spec(url_safe, text@));
    }
    while i < text.len()
        invariant
            text@.len() % 4 == 0,
            i % 4 == 0,
            i <= text@.len(),
            alphabet.is_url_safe() == url_safe,
            forall|k: int| 0 <= k < i ==> (#[trigger] value_spec(url_safe, text@[k])) is Some,
            decode_spec(url_safe, text@) == decoded@ + decode_spec(url_safe, text@.skip(i as int)),
        decreases text.len() - i,
    {
        let (v0, v1, v2, v3) = match group_values(
            &alphabet,
            text[i],
            text[i + 1],
            text[i + 2],
            text[i + 3],
        ) {
            Some(vs) => vs,
            None => {
                proof {
                    assert(!symbols_valid(url_safe, text@)) by {
                        if value_spec(url_safe, text@[i + 1]) is None {
                        } else if value_spec(url_safe, text@[i + 2]) is None {
                        } else if value_spec(url_safe, text@[i + 3]) is None {
                        } else {
                            assert(value_spec(url_safe, text@[i as int]) is None);
                        }
                    }
                }
                return Err(String::from_str("Non base64-alphabet character encountered!"));
            },
        };
        let w2: u32 = if v2 == PAD_VALUE { 0 } else { v2 << 6 };
        let w3: u32 = if v3 == PAD_VALUE { 0 } else { v3 };
        let block: u32 = (v0 << 18) | (v1 << 12) | w2 | w3;
        let ghost before = decoded@;
        decoded.push(#[verifier::truncate] ((block >> 16) as u8));
        if v2 != PAD_VALUE {
            decoded.push(#[verifier::truncate] ((block >> 8) as u8));
        }
        if v3 != PAD_VALUE {
            decoded.push(#[verifier::truncate] (block as u8));
        }
        proof {
            let rest = text@.skip(i as int);
            assert(rest.take(4) =~= text@.subrange(i as int, i + 4));
            assert(rest.skip(4) =~= text@.skip(i + 4));
            assert(block == value_block(v0, v1, v2, v3));
            assert(decoded@ =~= before + decode_group(url_safe, rest.take(4)));
            assert forall|k: int| 0 <= k < i + 4 implies (#[trigger] value_spec(
                url_safe,
                text@[k],
            )) is Some by {
                if k >= i {
                    assert(text@[k] == text@[i + (k - i)]);
                }
            }
        }
        i = i + 4;
    }
    proof {
        assert(text@.skip(i as int) =~= Seq::<u8>::empty());
        assert(decoded@ =~= decoded@ + Seq::<u8>::empty());
    }
    Ok(decoded)
}

/// The standard symbol `+` becomes `-` and `/` becomes `_`; every other byte stays.
pub open spec fn to_url_safe(c: u8) -> u8 {
    if c == 0x2b {
        0x2d
    } else if c == 0x2f {
        0x5f
    } else {
        c
    }
}

/// Cutting a block of three bytes into four 6-bit values and packing those values again
/// gives back the bytes, also when the last one or two values are padding.
pub proof fn lemma_block_bits(b0: u32, b1: u32, b2: u32)
    by (bit_vector)
    requires
        b0 < 256,
        b1 < 256,
        b2 < 256,
    ensures
        ((b0 << 16u32) | (b1 << 8u32) | b2) >> 18u32 < 64,
        ((((b0 << 16u32) | (b1 << 8u32) | b2) >> 18u32) << 18u32
            | (((((b0 << 16u32) | (b1 << 8u32) | b2) >> 12u32) & 0x3fu32) << 12u32)
            | (((((b0 << 16u32) | (b1 << 8u32) | b2) >> 6u32) & 0x3fu32) << 6u32)
            | (((b0 << 16u32) | (b1 << 8u32) | b2) & 0x3fu32))
            == (b0 << 16u32) | (b1 << 8u32) | b2,
        (((b0 << 16u32) | (b1 << 8u32) | b2) >> 16u32) as u8 == b0,
        (((b0 << 16u32) | (b1 << 8u32) | b2) >> 8u32) as u8 == b1,
        ((b0 << 16u32) | (b1 << 8u32) | b2) as u8 == b2,
        b2 == 0 ==> ((((b0 << 16u32) | (b1 << 8u32) | b2) >> 18u32) << 18u32
            | (((((b0 << 16u32) | (b1 << 8u32) | b2) >> 12u32) & 0x3fu32) << 12u32)
            | (((((b0 << 16u32) | (b1 << 8u32) | b2) >> 6u32) & 0x3fu32) << 6u32))
            == (b0 << 16u32) | (b1 << 8u32) | b2,
        b1 == 0 && b2 == 0 ==> ((((b0 << 16u32) | (b1 << 8u32) | b2) >> 18u32) << 18u32
            | (((((b0 << 16u32) | (b1 << 8u32) | b2) >> 12u32) & 0x3fu32) << 12u32))
            == (b0 << 16u32) | (b1 << 8u32) | b2,
{
}

/// A group of one to three bytes decodes back from its four symbols.
pub proof fn lemma_group_round_trip(url_safe: bool, g: Seq<u8>)
    requires
        1 <= g.len() <= 3,
    ensures
        encode_group(url_safe, g).len() == 4,
        symbols_valid(url_safe, encode_group(url_safe, g)),
        decode_group(url_safe, encode_group(url_safe, g)) == g,
{
    let b0 = g[0] as u32;
    let b1 = if g.len() > 1 { g[1] as u32 } else { 0u32 };
    let b2 = if g.len() > 2 { g[2] as u32 } else { 0u32 };
    let block = byte_block(g);
    lemma_block_bits(b0, b1, b2);
    let v0 = block >> 18u32;
    let v1 = (block >> 12u32) & 0x3fu32;
    let v2 = (block >> 6u32) & 0x3fu32;
    let v3 = block & 0x3fu32;
    assert(v1 < 64 && v2 < 64 && v3 < 64) by (bit_vector)
        requires
            v1 == (block >> 12u32) & 0x3fu32,
            v2 == (block >> 6u32) & 0x3fu32,
            v3 == block & 0x3fu32,
    ;
    lemma_value_of_symbol(url_safe, v0);
    lemma_value_of_symbol(url_safe, v1);
    lemma_value_of_symbol(url_safe, v2);
    lemma_value_of_symbol(url_safe, v3);
    let e = encode_group(url_safe, g);
    assert(value_spec(url_safe, PAD) == Some(PAD_VALUE));
    assert(symbols_valid(url_safe, e));
    assert(forall|x: u32| #[trigger] (x | 0u32) == x) by (bit_vector);
    if g.len() == 1 {
        assert(b1 == 0 && b2 == 0);
        assert(symbol_value(url_safe, e[2]) == PAD_VALUE);
        assert(symbol_value(url_safe, e[3]) == PAD_VALUE);
        assert(value_block(v0, v1, PAD_VALUE, PAD_VALUE) == block);
        assert(decode_group(url_safe, e) =~= g);
    } else if g.len() == 2 {
        assert(b2 == 0);
        assert(symbol_value(url_safe, e[2]) == v2);
        assert(symbol_value(url_safe, e[3]) == PAD_VALUE);
        assert(value_block(v0, v1, v2, PAD_VALUE) == block);
        assert(decode_group(url_safe, e) =~= g);
    } else {
        assert(symbol_value(url_safe, e[2]) == v2);
        assert(symbol_value(url_safe, e[3]) == v3);
        assert(value_block(v0, v1, v2, v3) == block);
        assert(decode_group(url_safe, e) =~= g);
    }
}

/// An encoding is made of whole groups of four symbols, all in the alphabet.
pub proof fn lemma_encode_shape(url_safe: bool, data: Seq<u8>)
    ensures
        encode_spec(url_safe, data).len() % 4 == 0,
        symbols_valid(url_safe, encode_spec(url_safe, data)),
    decreases data.len(),
{
    if data.len() > 0 {
        let k = group_len(data.len()) as int;
        lemma_group_round_trip(url_safe, data.take(k));
        lemma_encode_shape(url_safe, data.skip(k));
        let g = encode_group(url_safe, data.take(k));
        let rest = encode_spec(url_safe, data.skip(k));
        assert forall|i: int| 0 <= i < (g + rest).len() implies
            (#[trigger] value_spec(url_safe, (g + rest)[i])) is Some by {
            if i >= 4 {
                assert((g + rest)[i] == rest[i - 4]);
            }
        }
    }
}

/// Decoding the encoding of any bytes gives back those bytes, in either alphabet.
pub proof fn lemma_round_trip(url_safe: bool, data: Seq<u8>)
    ensures
        decode_result(url_safe, encode_spec(url_safe, data)) == Ok::<Seq<u8>, Seq<char>>(data),
{
    lemma_encode_shape(url_safe, data);
    lemma_decode_inverts(url_safe, data);
}

/// Decoding inverts encoding, group by group.
proof fn lemma_decode_inverts(url_safe: bool, data: Seq<u8>)
    ensures
        decode_spec(url_safe, encode_spec(url_safe, data)) == data,
    decreases data.len(),
{
    if data.len() == 0 {
        assert(data =~= seq![]);
    } else {
        let k = group_len(data.len()) as int;
        lemma_group_round_trip(url_safe, data.take(k));
        lemma_decode_inverts(url_safe, data.skip(k));
        let g = encode_group(url_safe, data.take(k));
        let rest = encode_spec(url_safe, data.skip(k));
        assert((g + rest).take(4) =~= g);
        assert((g + rest).skip(4) =~= rest);
        assert(data.take(k) + data.skip(k) =~= data);
    }
}

/// The URL-safe encoding of any bytes is their standard encoding with `+` written as `-`
/// and `/` written as `_`; every other symbol, and the grouping, is the same.
pub proof fn lemma_url_safe_substitution(data: Seq<u8>)
    ensures
        encode_spec(true, data) == encode_spec(false, data).map_values(|c: u8| to_url_safe(c)),
    decreases data.len(),
{
    if data.len() == 0 {
        assert(encode_spec(false, data).map_values(|c: u8| to_url_safe(c)) =~= seq![]);
    } else {
        let k = group_len(data.len()) as int;
        lemma_url_safe_substitution(data.skip(k));
        let g = data.take(k);
        let block = byte_block(g);
        let v1 = (block >> 12u32) & 0x3fu32;
        let v2 = (block >> 6u32) & 0x3fu32;
        let v3 = block & 0x3fu32;
        assert(v1 < 64 && v2 < 64 && v3 < 64) by (bit_vector)
            requires
                v1 == (block >> 12u32) & 0x3fu32,
                v2 == (block >> 6u32) & 0x3fu32,
                v3 == block & 0x3fu32,
        ;
        let s = encode_group(false, g);
        let r = encode_spec(false, data.skip(k));
        assert(encode_group(true, g) =~= s.map_values(|c: u8| to_url_safe(c)));
        assert((s + r).map_values(|c: u8| to_url_safe(c)) =~= s.map_values(
            |c: u8| to_url_safe(c),
        ) + r.map_values(|c: u8| to_url_safe(c)));
    }
}

} // verus!
