//! The two 64-symbol alphabets of Base64 and Base64url, with the padding symbol.
//!
//! An [`Alphabet`] holds a forward table (value to symbol) and a reverse table (symbol to
//! value), both built once from the symbol rules below.

use vstd::prelude::*;

verus! {

/// The padding symbol `=`.
pub const PAD: u8 = 0x3d;

/// The value the reverse lookup gives the padding symbol.
pub const PAD_VALUE: u32 = 64;

/// Reverse-table entry of a byte that is not a symbol of the alphabet.
const NO_VALUE: u8 = 0xff;

/// The symbol at position 62: `+`, or `-` in the URL-safe alphabet.
pub open spec fn symbol_62(url_safe: bool) -> u8 {
    if url_safe { 0x2d } else { 0x2b }
}

/// The symbol at position 63: `/`, or `_` in the URL-safe alphabet.
pub open spec fn symbol_63(url_safe: bool) -> u8 {
    if url_safe { 0x5f } else { 0x2f }
}

/// The symbol that stands for the 6-bit value `v` (`v < 64`).
pub open spec fn symbol_spec(url_safe: bool, v: u32) -> u8 {
    if v < 26 {
        (0x41 + v) as u8
    } else if v < 52 {
        (0x61 + (v - 26)) as u8
    } else if v < 62 {
        (0x30 + (v - 52)) as u8
    } else if v == 62 {
        symbol_62(url_safe)
    } else {
        symbol_63(url_safe)
    }
}

/// The value of byte `c` in the alphabet: `0..64` for a symbol, `PAD_VALUE` for `=`, and
/// `None` for any other byte.
pub open spec fn value_spec(url_safe: bool, c: u8) -> Option<u32> {
    if 0x41 <= c <= 0x5a {
        Some((c - 0x41) as u32)
    } else if 0x61 <= c <= 0x7a {
        Some((c - 0x61 + 26) as u32)
    } else if 0x30 <= c <= 0x39 {
        Some((c - 0x30 + 52) as u32)
    } else if c == symbol_62(url_safe) {
        Some(62)
    } else if c == symbol_63(url_safe) {
        Some(63)
    } else if c == PAD {
        Some(PAD_VALUE)
    } else {
        None
    }
}

/// Looking up a symbol gives back the value it stands for.
pub proof fn lemma_value_of_symbol(url_safe: bool, v: u32)
    requires
        v < 64,
    ensures
        value_spec(url_safe, symbol_spec(url_safe, v)) == Some(v),
        symbol_spec(url_safe, v) != PAD,
{
}

/// A byte with a value below 64 is the symbol of that value; one with the padding value is
/// the padding symbol. So the 64 symbols and the padding symbol are pairwise distinct.
pub proof fn lemma_symbol_of_value(url_safe: bool, c: u8)
    ensures
        value_spec(url_safe, c) matches Some(v) ==> v <= PAD_VALUE,
        value_spec(url_safe, c) matches Some(v) ==> (v < 64 ==> symbol_spec(url_safe, v) == c),
        value_spec(url_safe, c) == Some(PAD_VALUE) ==> c == PAD,
{
}

/// The symbol of value `v`, computed from the ranges of the alphabet.
fn symbol_for(url_safe: bool, v: u32) -> (c: u8)
    requires
        v < 64,
    ensures
        c == symbol_spec(url_safe, v),
{
    if v < 26 {
        (0x41 + v) as u8
    } else if v < 52 {
        (0x61 + (v - 26)) as u8
    } else if v < 62 {
        (0x30 + (v - 52)) as u8
    } else if v == 62 {
        if url_safe { 0x2d } else { 0x2b }
    } else {
        if url_safe { 0x5f } else { 0x2f }
    }
}

/// Reverse-table entry of byte `c` once the symbols of the values below `filled` are entered.
spec fn partial_entry(url_safe: bool, c: u8, filled: u32) -> u8 {
    match value_spec(url_safe, c) {
        Some(v) => if v < filled { v as u8 } else { NO_VALUE },
        None => NO_VALUE,
    }
}

/// Reverse-table entry of byte `c` in the finished table.
spec fn table_entry(url_safe: bool, c: u8) -> u8 {
    match value_spec(url_safe, c) {
        Some(v) => v as u8,
        None => NO_VALUE,
    }
}

/// A Base64 alphabet as a pair of lookup tables.
pub struct Alphabet {
    url_safe: bool,
    symbols: Vec<u8>,
    values: Vec<u8>,
}

impl Alphabet {
    #[verifier::type_invariant]
    spec fn tables_match(&self) -> bool {
        &&& self.symbols@.len() == 64
        &&& self.values@.len() == 256
        &&& forall|v: int|
            0 <= v < 64 ==> #[trigger] self.symbols@[v] == symbol_spec(self.url_safe, v as u32)
        &&& forall|c: int|
            0 <= c < 256 ==> #[trigger] self.values@[c] == table_entry(self.url_safe, c as u8)
    }

    /// Whether this is the URL-safe alphabet.
    pub closed spec fn is_url_safe(&self) -> bool {
        self.url_safe
    }

    /// Builds the standard (`url_safe == false`) or URL-safe alphabet.
    pub fn base64(url_safe: bool) -> (r: Alphabet)
        ensures
            r.is_url_safe() == url_safe,
    {
        let mut symbols: Vec<u8> = Vec::new();
        let mut v: u32 = 0;
        while v < 64
            invariant
                v <= 64,
                symbols@.len() == v,
                forall|k: int| 0 <= k < v ==> #[trigger] symbols@[k] == symbol_spec(url_safe, k as u32),
            decreases 64 - v,
        {
            symbols.push(symbol_for(url_safe, v));
            v = v + 1;
        }
        let mut values: Vec<u8> = Vec::new();
        let mut c: usize = 0;
        while c < 256
            invariant
                c <= 256,
                values@.len() == c,
                forall|k: int| 0 <= k < c ==> #[trigger] values@[k] == NO_VALUE,
            decreases 256 - c,
        {
            values.push(NO_VALUE);
            c = c + 1;
        }
        let mut v: u32 = 0;
        while v < 64
            invariant
                v <= 64,
                symbols@.len() == 64,
                values@.len() == 256,
                forall|k: int| 0 <= k < 64 ==> #[trigger] symbols@[k] == symbol_spec(url_safe, k as u32),
                forall|k: int| 0 <= k < 256 ==> #[trigger] values@[k] == partial_entry(url_safe, k as u8, v),
            decreases 64 - v,
        {
            let s = symbols[v as usize];
            proof {
                lemma_value_of_symbol(url_safe, v);
                assert forall|k: int| 0 <= k < 256 && k != s as int implies
                    #[trigger] partial_entry(url_safe, k as u8, v) == partial_entry(url_safe, k as u8, (v + 1) as u32) by {
                    lemma_symbol_of_value(url_safe, k as u8);
                }
            }
            values.set(s as usize, v as u8);
            v = v + 1;
        }
        proof {
            assert forall|k: int| 0 <= k < 256 && k != PAD as int implies
                #[trigger] partial_entry(url_safe, k as u8, 64) == table_entry(url_safe, k as u8) by {
                lemma_symbol_of_value(url_safe, k as u8);
            }
        }
        values.set(PAD as usize, PAD_VALUE as u8);
        Alphabet { url_safe, symbols, values }
    }

    /// The symbol that stands for the 6-bit value `v`.
    pub fn symbol(&self, v: u32) -> (c: u8)
        requires
            v < 64,
        ensures
            c == symbol_spec(self.is_url_safe(), v),
    {
        proof {
            use_type_invariant(self);
        }
        self.symbols[v as usize]
    }

    /// The value of byte `c`: a symbol's value, `PAD_VALUE` for the padding symbol, or `None`.
    pub fn value(&self, c: u8) -> (r: Option<u32>)
        ensures
            r == value_spec(self.is_url_safe(), c),
    {
        proof {
            use_type_invariant(self);
            lemma_symbol_of_value(self.url_safe, c);
        }
        let e = self.values[c as usize];
        if e == NO_VALUE {
            None
        } else {
            Some(e as u32)
        }
    }
}

} // verus!
