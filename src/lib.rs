//! En-/decoder for the Base encodings of RFC 4648.
//!
//! A [`TranslationUnit`] holds one byte buffer and a [`Settings`] value (alphabet variant and
//! direction) and produces the opposite representation of the buffer. The codec is specified
//! over sequences in [`base64`], where its laws (round trip, alphabet substitution, repeated
//! translation) are proved.

pub mod alphabet;
mod args;
pub mod base64;
mod base_encoding;
mod input;
mod settings;

pub use args::{
    argument_kind, base_named, classify_argument, handle_base_type, no_base_message, option_body,
    switch_encode_mode, unknown_base_message, unrecognized_option_message, Argument,
};
pub use base_encoding::{
    buffer_view, decoding_of, encoding_of, lemma_encode_then_decode, lemma_translate_idempotent,
    translation, unsupported_message, TranslationUnit, TranslationView,
};
pub use input::{Input, InputView, ReadMode};
pub use settings::{Base, EncodeMode, Settings};
