use encodex::{
    classify_argument, handle_base_type, switch_encode_mode, unrecognized_option_message,
    Argument, Base, EncodeMode, Settings,
};

#[test]
fn classify_options_with_prefixes() {
    assert_eq!(classify_argument("--base"), Argument::Base);
    assert_eq!(classify_argument("-b"), Argument::Base);
    assert_eq!(classify_argument("--decode"), Argument::Decode);
    assert_eq!(classify_argument("-d"), Argument::Decode);
    assert_eq!(classify_argument("--help"), Argument::Help);
    assert_eq!(classify_argument("--version"), Argument::Version);
    assert_eq!(classify_argument("--"), Argument::SwitchReadMode);
    assert_eq!(classify_argument("-"), Argument::SwitchReadMode);
}

#[test]
fn classify_values_and_unknown_options() {
    assert_eq!(classify_argument("notes.txt"), Argument::Value);
    assert_eq!(classify_argument("みま"), Argument::Value);
    assert_eq!(classify_argument("-みま"), Argument::Value);
    assert_eq!(classify_argument("--verbose"), Argument::Unrecognized);
    assert_eq!(classify_argument("-x"), Argument::Unrecognized);
    assert_eq!(classify_argument(""), Argument::SwitchReadMode);
    assert_eq!(classify_argument("base"), Argument::Base);
    assert_eq!(classify_argument("---base"), Argument::Unrecognized);
}

#[test]
fn base_type_names() {
    let cases = [
        ("Base64", Base::Base64),
        ("Base64url", Base::Base64url),
        ("Base32", Base::Base32),
        ("Base32hex", Base::Base32hex),
        ("Base16", Base::Base16),
    ];
    for (name, base) in cases {
        let mut settings = Settings::new();
        settings.set_encode_mode(EncodeMode::Decode);
        assert_eq!(handle_base_type(&mut settings, Some(String::from(name))), Ok(()));
        assert_eq!(settings.base(), base);
        assert_eq!(settings.encode_mode(), EncodeMode::Decode);
    }
}

#[test]
fn base_type_errors() {
    let mut settings = Settings::new();
    assert_eq!(
        handle_base_type(&mut settings, Some(String::from("base64"))),
        Err(">>> Error: Unrecognized base type!")
    );
    assert_eq!(settings.base(), Base::Guess);
    assert_eq!(
        handle_base_type(&mut settings, None),
        Err(">>> Error: No base type found for '--base' option!")
    );
    assert_eq!(settings.base(), Base::Guess);
}

#[test]
fn switch_direction_twice() {
    let mut settings = Settings::new();
    settings.set_base(Base::Base64url);
    switch_encode_mode(&mut settings);
    assert_eq!(settings.encode_mode(), EncodeMode::Decode);
    assert_eq!(settings.base(), Base::Base64url);
    switch_encode_mode(&mut settings);
    assert_eq!(settings.encode_mode(), EncodeMode::Encode);
}

#[test]
fn unrecognized_option_text() {
    assert_eq!(unrecognized_option_message("--x"), String::from(">>> Unrecognized option: '--x'"));
}
