//! The translation unit: one buffer, one configuration, and the translation between the
//! buffer and its opposite representation.

use vstd::prelude::*;
use crate::base64::{decode, decode_result, encode, encode_spec, lemma_round_trip};
use crate::settings::{Base, EncodeMode, Settings};

verus! {

/// What a translation unit holds: the raw bytes, the encoded symbols, and the configuration.
pub struct TranslationView {
    pub decoded: Option<Seq<u8>>,
    pub encoded: Option<Seq<u8>>,
    pub config: Settings,
}

/// The message of the error for an alphabet variant without a codec in the given direction.
pub open spec fn unsupported_message(base: Base, mode: EncodeMode) -> Seq<char> {
    match (base, mode) {
        (Base::Base32, EncodeMode::Decode) => "Base32 decoding is not yet implemented!"@,
        (Base::Base32, EncodeMode::Encode) => "Base32 encoding is not yet implemented!"@,
        (Base::Base32hex, EncodeMode::Decode) => "Base32hex decoding is not yet implemented!"@,
        (Base::Base32hex, EncodeMode::Encode) => "Base32hex encoding is not yet implemented!"@,
        (Base::Base16, EncodeMode::Decode) => "Base16 decoding is not yet implemented!"@,
        (Base::Base16, EncodeMode::Encode) => "Base16 encoding is not yet implemented!"@,
        (_, EncodeMode::Decode) => "Guess Base decoding is not yet implemented!"@,
        (_, EncodeMode::Encode) => "Guess Base encoding is not yet implemented!"@,
    }
}

/// The encoding of `data` under alphabet variant `base`, or the error it fails with.
pub open spec fn encoding_of(base: Base, data: Seq<u8>) -> Result<Seq<u8>, Seq<char>> {
    match base {
        Base::Base64 => Ok(encode_spec(false, data)),
        Base::Base64url => Ok(encode_spec(true, data)),
        _ => Err(unsupported_message(base, EncodeMode::Encode)),
    }
}

/// The decoding of `text` under alphabet variant `base`, or the error it fails with.
pub open spec fn decoding_of(base: Base, text: Seq<u8>) -> Result<Seq<u8>, Seq<char>> {
    match base {
        Base::Base64 => decode_result(false, text),
        Base::Base64url => decode_result(true, text),
        _ => Err(unsupported_message(base, EncodeMode::Decode)),
    }
}

/// What one call of `translate` makes of a unit: the unit with the missing buffer filled in,
/// the unit unchanged when that buffer is already there, or the error message.
pub open spec fn translation(v: TranslationView) -> Result<TranslationView, Seq<char>> {
    match v.config.encode_mode() {
        EncodeMode::Encode => match v.encoded {
            Some(_) => Ok(v),
            None => match encoding_of(v.config.base(), v.decoded->0) {
                Ok(e) => Ok(TranslationView { encoded: Some(e), ..v }),
                Err(m) => Err(m),
            },
        },
        EncodeMode::Decode => match v.decoded {
            Some(_) => Ok(v),
            None => match decoding_of(v.config.base(), v.encoded->0) {
                Ok(d) => Ok(TranslationView { decoded: Some(d), ..v }),
                Err(m) => Err(m),
            },
        },
    }
}

/// Translating a unit that has been translated changes nothing and succeeds again.
pub proof fn lemma_translate_idempotent(v: TranslationView)
    ensures
        translation(v) matches Ok(w) ==> translation(w) == Ok::<TranslationView, Seq<char>>(w),
{
}

/// Under either Base64 alphabet, encoding succeeds, and decoding what it produced succeeds
/// with the original bytes.
pub proof fn lemma_encode_then_decode(base: Base, data: Seq<u8>)
    ensures
        base == Base::Base64 || base == Base::Base64url ==> encoding_of(base, data) is Ok,
        encoding_of(base, data) matches Ok(e) ==> decoding_of(base, e) == Ok::<
            Seq<u8>,
            Seq<char>,
        >(data),
{
    lemma_round_trip(false, data);
    lemma_round_trip(true, data);
}

/// A unit for en- or decoding a byte vector.
pub struct TranslationUnit {
    decoded_data: Option<Vec<u8>>,
    encoded_data: Option<Vec<u8>>,
    config: Settings,
}

/// The sequence a buffer holds, if it is populated.
pub open spec fn buffer_view(b: Option<Vec<u8>>) -> Option<Seq<u8>> {
    match b {
        Some(v) => Some(v@),
        None => None,
    }
}

impl View for TranslationUnit {
    type V = TranslationView;

    closed spec fn view(&self) -> TranslationView {
        TranslationView {
            decoded: buffer_view(self.decoded_data),
            encoded: buffer_view(self.encoded_data),
            config: self.config,
        }
    }
}

impl TranslationUnit {
    #[verifier::type_invariant]
    spec fn holds_input(&self) -> bool {
        match self.config.encode_mode() {
            EncodeMode::Encode => self.decoded_data is Some,
            EncodeMode::Decode => self.encoded_data is Some,
        }
    }

    /// Returns the alphabet variant the unit uses.
    pub fn base(&self) -> (r: Base)
        ensures
            r == self@.config.base(),
    {
        self.config.base()
    }

    /// Returns the direction of the unit.
    pub fn encode_mode(&self) -> (r: EncodeMode)
        ensures
            r == self@.config.encode_mode(),
    {
        self.config.encode_mode()
    }

    /// Returns the raw bytes, if they are populated.
    pub fn get_decoded_data(&self) -> (r: &Option<Vec<u8>>)
        ensures
            buffer_view(*r) == self@.decoded,
    {
        &self.decoded_data
    }

    /// Returns the encoded symbols, if they are populated. Each byte is a symbol of the
    /// alphabet of the unit's configuration.
    pub fn get_encoded_data(&self) -> (r: &Option<Vec<u8>>)
        ensures
            buffer_view(*r) == self@.encoded,
    {
        &self.encoded_data
    }

    /// Creates a unit. For encoding, `data` is the raw bytes; for decoding, it is the encoded
    /// symbols. The other buffer stays empty until `translate` fills it.
    pub fn new(data: Vec<u8>, config: Settings) -> (r: TranslationUnit)
        ensures
            r@.config == config,
            config.encode_mode() == EncodeMode::Encode ==> r@.decoded == Some(data@)
                && r@.encoded is None,
            config.encode_mode() == EncodeMode::Decode ==> r@.encoded == Some(data@)
                && r@.decoded is None,
    {
        match config.encode_mode() {
            EncodeMode::Decode => TranslationUnit {
                decoded_data: None,
                encoded_data: Some(data),
                config,
            },
            EncodeMode::Encode => TranslationUnit {
                decoded_data: Some(data),
                encoded_data: None,
                config,
            },
        }
    }

    /// Translates the unit's data on the first call; later calls change nothing.
    pub fn translate(&mut self) -> (r: Result<(), String>)
        ensures
            match translation(old(self)@) {
                Ok(w) => r is Ok && final(self)@ == w,
                Err(m) => r matches Err(e) && e@ == m && final(self)@ == old(self)@,
            },
    {
        proof {
            use_type_invariant(&*self);
        }
        match self.config.encode_mode() {
            EncodeMode::Decode => {
                if self.decoded_data.is_none() {
                    self.decode_dispatch()
                } else {
                    Ok(())
                }
            },
            EncodeMode::Encode => {
                if self.encoded_data.is_none() {
                    self.encode_dispatch()
                } else {
                    Ok(())
                }
            },
        }
    }

    /// Decodes with the codec of the configured alphabet variant.
    fn decode_dispatch(&mut self) -> (r: Result<(), String>)
        requires
            old(self)@.config.encode_mode() == EncodeMode::Decode,
        ensures
            match decoding_of(old(self)@.config.base(), old(self)@.encoded->0) {
                Ok(d) => r is Ok && final(self)@ == TranslationView {
                    decoded: Some(d),
                    ..old(self)@
                },
                Err(m) => r matches Err(e) && e@ == m && final(self)@ == old(self)@,
            },
    {
        match self.config.base() {
            Base::Base64 | Base::Base64url => self.from_base64(),
            Base::Base32 => Err(String::from_str("Base32 decoding is not yet implemented!")),
            Base::Base32hex => Err(String::from_str("Base32hex decoding is not yet implemented!")),
            Base::Base16 => Err(String::from_str("Base16 decoding is not yet implemented!")),
            Base::Guess => Err(String::from_str("Guess Base decoding is not yet implemented!")),
        }
    }

    /// Encodes with the codec of the configured alphabet variant.
    fn encode_dispatch(&mut self) -> (r: Result<(), String>)
        requires
            old(self)@.config.encode_mode() == EncodeMode::Encode,
        ensures
            match encoding_of(old(self)@.config.base(), old(self)@.decoded->0) {
                Ok(e) => r is Ok && final(self)@ == TranslationView {
                    encoded: Some(e),
                    ..old(self)@
                },
                Err(m) => r matches Err(e) && e@ == m && final(self)@ == old(self)@,
            },
    {
        match self.config.base() {
            Base::Base64 | Base::Base64url => {
                self.to_base64();
                Ok(())
            },
            Base::Base32 => Err(String::from_str("Base32 encoding is not yet implemented!")),
            Base::Base32hex => Err(String::from_str("Base32hex encoding is not yet implemented!")),
            Base::Base16 => Err(String::from_str("Base16 encoding is not yet implemented!")),
            Base::Guess => Err(String::from_str("Guess Base encoding is not yet implemented!")),
        }
    }
    /// Decodes the encoded symbols with the Base64 or Base64url alphabet.
    fn from_base64(&mut self) -> (r: Result<(), String>)
        requires
            old(self)@.config.encode_mode() == EncodeMode::Decode,
            old(self)@.config.base() == Base::Base64 || old(self)@.config.base() == Base::Base64url,
        ensures
            match decoding_of(old(self)@.config.base(), old(self)@.encoded->0) {
                Ok(d) => r is Ok && final(self)@ == TranslationView {
                    decoded: Some(d),
                    ..old(self)@
                },
                Err(m) => r matches Err(e) && e@ == m && final(self)@ == old(self)@,
            },
    {
        proof {
            use_type_invariant(&*self);
        }
        let url_safe = self.config.base() == Base::Base64url;
        match decode(url_safe, self.encoded_data.as_ref().unwrap()) {
            Ok(decoded) => {
                self.decoded_data = Some(decoded);
                Ok(())
            },
            Err(e) => Err(e),
        }
    }

    /// Encodes the raw bytes with the Base64 or Base64url alphabet.
    fn to_base64(&mut self)
        requires
            old(self)@.config.encode_mode() == EncodeMode::Encode,
            old(self)@.config.base() == Base::Base64 || old(self)@.config.base() == Base::Base64url,
        ensures
            encoding_of(old(self)@.config.base(), old(self)@.decoded->0) matches Ok(e)
                && final(self)@ == (TranslationView { encoded: Some(e), ..old(self)@ }),
    {
        proof {
            use_type_invariant(&*self);
        }
        let url_safe = self.config.base() == Base::Base64url;
        let encoded = encode(url_safe, self.decoded_data.as_ref().unwrap());
        self.encoded_data = Some(encoded);
    }
}

} // verus!
