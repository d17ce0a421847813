//! The decisions of command-line handling: what an argument asks for, which alphabet variant
//! a name selects, and the switch of direction.

use vstd::prelude::*;
use crate::settings::{Base, EncodeMode, Settings};

verus! {

/// What a command-line argument asks for.
#[derive(Clone, Copy, Debug, PartialEq, Eq, Structural)]
pub enum Argument {
    /// `-b` or `--base`: the next argument names the alphabet variant.
    Base,
    /// `-d` or `--decode`: switch the direction.
    Decode,
    /// `--help`: print the usage text and stop.
    Help,
    /// `--version`: print the version text and stop.
    Version,
    /// `-` or `--` alone (or an empty argument): switch how values are read.
    SwitchReadMode,
    /// A value: a file name or a literal text, depending on the read mode.
    Value,
    /// An option that is not known.
    Unrecognized,
}

/// Whether `arg` is written as an option, and the text after its `--` or `-` prefix. Only
/// an all-ASCII argument can be an option.
pub open spec fn option_body(arg: Seq<char>) -> (bool, Seq<char>) {
    if arg.len() >= 2 && vstd::utf8::is_ascii_chars(arg) && arg.take(2) == "--"@ {
        (true, arg.skip(2))
    } else if arg.len() >= 1 && vstd::utf8::is_ascii_chars(arg) && arg.take(1) == "-"@ {
        (true, arg.skip(1))
    } else {
        (false, arg)
    }
}

/// What `arg` asks for. The option names are matched without regard to the prefix; what is
/// left is a value when it had no prefix and an unknown option when it had one.
pub open spec fn argument_kind(arg: Seq<char>) -> Argument {
    let (is_option, body) = option_body(arg);
    if body == "base"@ || body == "b"@ {
        Argument::Base
    } else if body == "decode"@ || body == "d"@ {
        Argument::Decode
    } else if body == "help"@ {
        Argument::Help
    } else if body == "version"@ {
        Argument::Version
    } else if body.len() == 0 {
        Argument::SwitchReadMode
    } else if !is_option {
        Argument::Value
    } else {
        Argument::Unrecognized
    }
}

/// The alphabet variant that `name` selects on the command line.
pub open spec fn base_named(name: Seq<char>) -> Option<Base> {
    if name == "Base64"@ {
        Some(Base::Base64)
    } else if name == "Base64url"@ {
        Some(Base::Base64url)
    } else if name == "Base32"@ {
        Some(Base::Base32)
    } else if name == "Base32hex"@ {
        Some(Base::Base32hex)
    } else if name == "Base16"@ {
        Some(Base::Base16)
    } else {
        None
    }
}

/// The message of the error for a `--base` option with no argument after it.
pub open spec fn no_base_message() -> Seq<char> {
    ">>> Error: No base type found for '--base' option!"@
}

/// The message of the error for a `--base` option whose argument names no variant.
pub open spec fn unknown_base_message() -> Seq<char> {
    ">>> Error: Unrecognized base type!"@
}

/// Whether two string slices hold the same characters.
fn same_text(a: &str, b: &str) -> (r: bool)
    ensures
        r == (a@ == b@),
{
    a.to_owned() == b.to_owned()
}

/// Tells what the command-line argument `arg` asks for.
pub fn classify_argument(arg: &str) -> (r: Argument)
    ensures
        r == argument_kind(arg@),
{
    let ascii = arg.is_ascii();
    let len = arg.unicode_len();
    let mut is_option = false;
    let mut body = arg;
    if ascii && len >= 2 && same_text(arg.substring_ascii(0, 2), "--") {
        is_option = true;
        body = arg.substring_ascii(2, len);
    } else if ascii && len >= 1 && same_text(arg.substring_ascii(0, 1), "-") {
        is_option = true;
        body = arg.substring_ascii(1, len);
    }
    proof {
        assert(arg@.skip(2) =~= arg@.subrange(2, arg@.len() as int));
        assert(arg@.skip(1) =~= arg@.subrange(1, arg@.len() as int));
    }
    if same_text(body, "base") || same_text(body, "b") {
        Argument::Base
    } else if same_text(body, "decode") || same_text(body, "d") {
        Argument::Decode
    } else if same_text(body, "help") {
        Argument::Help
    } else if same_text(body, "version") {
        Argument::Version
    } else if body.unicode_len() == 0 {
        Argument::SwitchReadMode
    } else if !is_option {
        Argument::Value
    } else {
        Argument::Unrecognized
    }
}

/// Sets the alphabet variant named by `base_type`, the argument after `--base`. Fails, with
/// `settings` unchanged, when there is no such argument or it names no variant.
pub fn handle_base_type(settings: &mut Settings, base_type: Option<String>) -> (r: Result<
    (),
    &'static str,
>)
    ensures
        match base_type {
            None => r matches Err(m) && m@ == no_base_message() && *final(settings) == *old(
                settings),
            Some(name) => match base_named(name@) {
                Some(b) => r is Ok && final(settings).base() == b
                    && final(settings).encode_mode() == old(settings).encode_mode(),
                None => r matches Err(m) && m@ == unknown_base_message() && *final(settings)
                    == *old(settings),
            },
        },
{
    match base_type {
        Some(name) => {
            let name = name.as_str();
            if same_text(name, "Base64") {
                settings.set_base(Base::Base64);
                Ok(())
            } else if same_text(name, "Base64url") {
                settings.set_base(Base::Base64url);
                Ok(())
            } else if same_text(name, "Base32") {
                settings.set_base(Base::Base32);
                Ok(())
            } else if same_text(name, "Base32hex") {
                settings.set_base(Base::Base32hex);
                Ok(())
            } else if same_text(name, "Base16") {
                settings.set_base(Base::Base16);
                Ok(())
            } else {
                Err(">>> Error: Unrecognized base type!")
            }
        },
        None => Err(">>> Error: No base type found for '--base' option!"),
    }
}

/// Switches the direction between encoding and decoding, keeping the alphabet variant.
pub fn switch_encode_mode(settings: &mut Settings)
    ensures
        final(settings).base() == old(settings).base(),
        final(settings).encode_mode() == match old(settings).encode_mode() {
            EncodeMode::Decode => EncodeMode::Encode,
            EncodeMode::Encode => EncodeMode::Decode,
        },
{
    match settings.encode_mode() {
        EncodeMode::Decode => settings.set_encode_mode(EncodeMode::Encode),
        EncodeMode::Encode => settings.set_encode_mode(EncodeMode::Decode),
    }
}

/// The error message for the unknown option `arg`.
pub fn unrecognized_option_message(arg: &str) -> (r: String)
    ensures
        r@ == ">>> Unrecognized option: '"@ + arg@ + "'"@,
{
    String::from_str(">>> Unrecognized option: '").concat(arg).concat("'")
}

} // verus!
