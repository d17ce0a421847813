//! Configuration of a translation unit: the alphabet variant and the direction.

use vstd::prelude::*;

verus! {

/// The Base encodings a configuration can name.
///
/// Only `Base64` and `Base64url` have a codec; translating with any other variant fails with
/// a not-implemented error.
#[derive(Clone, Copy, Debug, PartialEq, Eq, Structural)]
pub enum Base {
    /// RFC 4648 Base64: `A`-`Z`, `a`-`z`, `0`-`9`, `+`, `/`, padded with `=`.
    Base64,
    /// RFC 4648 Base64url: the `Base64` alphabet with `-` and `_` in place of `+` and `/`.
    Base64url,
    /// RFC 4648 Base32 (no codec yet).
    Base32,
    /// RFC 4648 Base32 with the extended hex alphabet (no codec yet).
    Base32hex,
    /// RFC 4648 Base16 (no codec yet).
    Base16,
    /// Detect the encoding from the input (no codec yet).
    Guess,
}

/// The direction of a translation.
#[derive(Clone, Copy, Debug, PartialEq, Eq, Structural)]
pub enum EncodeMode {
    /// Translate encoded symbols into the bytes they stand for.
    Decode,
    /// Translate arbitrary bytes into encoded symbols.
    Encode,
}

/// Describes how a translation unit handles its input.
#[derive(Clone, Copy, Debug, PartialEq, Eq, Structural)]
pub struct Settings {
    base: Base,
    encode_mode: EncodeMode,
}

impl Settings {
    /// The alphabet variant of this configuration.
    pub closed spec fn spec_base(&self) -> Base {
        self.base
    }

    /// The direction of this configuration.
    pub closed spec fn spec_encode_mode(&self) -> EncodeMode {
        self.encode_mode
    }

    /// Creates the default configuration: `Guess` and `Encode`.
    pub fn new() -> (r: Settings)
        ensures
            r.base() == Base::Guess,
            r.encode_mode() == EncodeMode::Encode,
    {
        Settings { base: Base::Guess, encode_mode: EncodeMode::Encode }
    }

    /// Returns the alphabet variant of this configuration.
    #[verifier::when_used_as_spec(spec_base)]
    pub fn base(&self) -> (r: Base)
        ensures
            r == self.base(),
    {
        self.base
    }

    /// Returns the direction of this configuration.
    #[verifier::when_used_as_spec(spec_encode_mode)]
    pub fn encode_mode(&self) -> (r: EncodeMode)
        ensures
            r == self.encode_mode(),
    {
        self.encode_mode
    }

    /// Sets the alphabet variant, keeping the direction.
    pub fn set_base(&mut self, base: Base)
        ensures
            final(self).base() == base,
            final(self).encode_mode() == old(self).encode_mode(),
    {
        self.base = base;
    }

    /// Sets the direction, keeping the alphabet variant.
    pub fn set_encode_mode(&mut self, mode: EncodeMode)
        ensures
            final(self).base() == old(self).base(),
            final(self).encode_mode() == mode,
    {
        self.encode_mode = mode;
    }
}

} // verus!
