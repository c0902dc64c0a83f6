use spinel::console::Console;

#[test]
fn new_console_is_empty() {
    let console = Console::new();
    assert!(console.pending().is_empty());
}

#[test]
fn bytes_arrive_in_the_order_written() {
    let mut console = Console::new();
    console.write_byte(b'a');
    console.write_byte(b'b');
    console.write_byte(b'c');
    assert_eq!(console.pending(), b"abc");
}

#[test]
fn write_bytes_appends_all_of_them() {
    let mut console = Console::new();
    console.write_byte(b'>');
    console.write_bytes(b"one two");
    console.write_bytes(b"");
    console.write_bytes(b"!");
    assert_eq!(console.pending(), b">one two!");
}

#[test]
fn write_str_appends_the_utf8_bytes() {
    let mut console = Console::new();
    console.write_str("na");
    console.write_str("\u{ef}ve \u{2713}");
    assert_eq!(
        console.pending(),
        &[b'n', b'a', 0xc3, 0xaf, b'v', b'e', b' ', 0xe2, 0x9c, 0x93]
    );
}

#[test]
fn write_str_of_nothing_changes_nothing() {
    let mut console = Console::new();
    console.write_str("kept");
    console.write_str("");
    assert_eq!(console.pending(), b"kept");
}

#[test]
fn drain_hands_over_everything_and_leaves_nothing() {
    let mut console = Console::new();
    console.write_str("first");
    let taken = console.drain();
    assert_eq!(taken, b"first".to_vec());
    assert!(console.pending().is_empty());
    console.write_str("second");
    assert_eq!(console.drain(), b"second".to_vec());
    assert_eq!(console.drain(), Vec::<u8>::new());
}
