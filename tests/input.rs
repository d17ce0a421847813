use encodex::{Input, ReadMode};

#[test]
fn input_starts_empty_in_file_mode() {
    let mut input = Input::new();
    assert_eq!(input.read_mode(), ReadMode::FileName);
    assert_eq!(input.get_next_byte_stream(), None);
}

#[test]
fn input_returns_last_added_first() {
    let mut input = Input::new();
    input.add_string_as_byte_stream(String::from("みま"));
    input.add_byte_stream(vec![1, 2, 3]);
    assert_eq!(input.get_next_byte_stream(), Some(vec![1, 2, 3]));
    assert_eq!(input.get_next_byte_stream(), Some("みま".as_bytes().to_vec()));
    assert_eq!(input.get_next_byte_stream(), None);
}

#[test]
fn input_switches_read_mode() {
    let mut input = Input::new();
    input.switch_read_mode();
    assert_eq!(input.read_mode(), ReadMode::StdIn);
    input.switch_read_mode();
    assert_eq!(input.read_mode(), ReadMode::FileName);
}
