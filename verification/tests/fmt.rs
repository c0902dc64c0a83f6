use spinel::console::Console;
use spinel::fmt::{write_arg, write_decimal, write_hex, Arg, FormatError};

fn rendered(template: &str, args: &[Arg<'_>]) -> (Result<(), FormatError>, Vec<u8>) {
    let mut console = Console::new();
    let result = spinel::fmt::print(&mut console, template, args);
    (result, console.drain())
}

fn shown(arg: Arg<'_>) -> Vec<u8> {
    let mut console = Console::new();
    write_arg(&mut console, &arg);
    console.drain()
}

#[test]
fn decimal_of_zero_is_one_digit() {
    let mut console = Console::new();
    write_decimal(&mut console, 0);
    assert_eq!(console.pending(), b"0");
}

#[test]
fn decimal_has_no_leading_zeros() {
    let mut console = Console::new();
    write_decimal(&mut console, 7);
    console.write_byte(b' ');
    write_decimal(&mut console, 10);
    console.write_byte(b' ');
    write_decimal(&mut console, 42);
    console.write_byte(b' ');
    write_decimal(&mut console, 1000);
    console.write_byte(b' ');
    write_decimal(&mut console, 9_999);
    console.write_byte(b' ');
    write_decimal(&mut console, 10_203);
    assert_eq!(console.pending(), b"7 10 42 1000 9999 10203");
}

#[test]
fn decimal_of_the_largest_value() {
    let mut console = Console::new();
    write_decimal(&mut console, u64::MAX);
    assert_eq!(console.pending(), b"18446744073709551615");
}

#[test]
fn decimal_of_a_power_of_ten_near_the_top() {
    let mut console = Console::new();
    write_decimal(&mut console, 10_000_000_000_000_000_000);
    assert_eq!(console.pending(), b"10000000000000000000");
}

#[test]
fn decimal_agrees_with_std_on_many_values() {
    let mut value: u64 = 1;
    for round in 0..200u64 {
        let mut console = Console::new();
        write_decimal(&mut console, value);
        assert_eq!(console.drain(), format!("{}", value).into_bytes());
        value = value.wrapping_mul(6364136223846793005).wrapping_add(round);
    }
}

#[test]
fn hex_is_lower_case_without_prefix() {
    let mut console = Console::new();
    write_hex(&mut console, 0);
    console.write_byte(b' ');
    write_hex(&mut console, 9);
    console.write_byte(b' ');
    write_hex(&mut console, 10);
    console.write_byte(b' ');
    write_hex(&mut console, 255);
    console.write_byte(b' ');
    write_hex(&mut console, 0x10);
    console.write_byte(b' ');
    write_hex(&mut console, 0xdead_beef);
    assert_eq!(console.pending(), b"0 9 a ff 10 deadbeef");
}

#[test]
fn hex_of_the_largest_value() {
    let mut console = Console::new();
    write_hex(&mut console, u64::MAX);
    assert_eq!(console.pending(), b"ffffffffffffffff");
}

#[test]
fn hex_agrees_with_std_on_many_values() {
    let mut value: u64 = 3;
    for round in 0..200u64 {
        let mut console = Console::new();
        write_hex(&mut console, value);
        assert_eq!(console.drain(), format!("{:x}", value).into_bytes());
        value = value.wrapping_mul(2862933555777941757).wrapping_add(round);
    }
}

#[test]
fn numerals_follow_what_was_written_before() {
    let mut console = Console::new();
    console.write_str("n=");
    write_decimal(&mut console, 256);
    console.write_str(" x=");
    write_hex(&mut console, 256);
    assert_eq!(console.pending(), b"n=256 x=100");
}

#[test]
fn unsigned_argument_is_decimal() {
    assert_eq!(shown(Arg::Unsigned(0)), b"0".to_vec());
    assert_eq!(shown(Arg::Unsigned(14)), b"14".to_vec());
    assert_eq!(shown(Arg::Unsigned(u64::MAX)), b"18446744073709551615".to_vec());
}

#[test]
fn signed_argument_has_a_minus_when_negative() {
    assert_eq!(shown(Arg::Signed(0)), b"0".to_vec());
    assert_eq!(shown(Arg::Signed(5)), b"5".to_vec());
    assert_eq!(shown(Arg::Signed(-1)), b"-1".to_vec());
    assert_eq!(shown(Arg::Signed(-120)), b"-120".to_vec());
    assert_eq!(shown(Arg::Signed(i64::MAX)), b"9223372036854775807".to_vec());
}

#[test]
fn signed_argument_at_the_lowest_value() {
    assert_eq!(shown(Arg::Signed(i64::MIN)), b"-9223372036854775808".to_vec());
}

#[test]
fn hex_argument_is_hexadecimal() {
    assert_eq!(shown(Arg::Hex(0)), b"0".to_vec());
    assert_eq!(shown(Arg::Hex(0xffff_8000_0010_2a3c)), b"ffff800000102a3c".to_vec());
}

#[test]
fn text_argument_is_written_as_it_is() {
    assert_eq!(shown(Arg::Text("")), b"".to_vec());
    assert_eq!(shown(Arg::Text("plain")), b"plain".to_vec());
    assert_eq!(shown(Arg::Text("{} {{ }")), b"{} {{ }".to_vec());
    assert_eq!(shown(Arg::Text("\u{e9}")), vec![0xc3, 0xa9]);
}

#[test]
fn template_without_placeholders_stands_for_itself() {
    let (result, out) = rendered("The system is coming up.", &[]);
    assert_eq!(result, Ok(()));
    assert_eq!(out, b"The system is coming up.".to_vec());
}

#[test]
fn empty_template_writes_nothing() {
    let (result, out) = rendered("", &[]);
    assert_eq!(result, Ok(()));
    assert!(out.is_empty());
}

#[test]
fn placeholders_take_the_arguments_in_order() {
    let args = [Arg::Text("a"), Arg::Unsigned(2), Arg::Signed(-3), Arg::Hex(0x4f)];
    let (result, out) = rendered("{}-{}-{}-{}", &args);
    assert_eq!(result, Ok(()));
    assert_eq!(out, b"a-2--3-4f".to_vec());
}

#[test]
fn placeholders_may_touch() {
    let args = [Arg::Unsigned(1), Arg::Unsigned(2), Arg::Unsigned(3)];
    let (result, out) = rendered("{}{}{}", &args);
    assert_eq!(result, Ok(()));
    assert_eq!(out, b"123".to_vec());
}

#[test]
fn placeholder_alone() {
    let (result, out) = rendered("{}", &[Arg::Text("whole")]);
    assert_eq!(result, Ok(()));
    assert_eq!(out, b"whole".to_vec());
}

#[test]
fn doubled_braces_stand_for_one_brace() {
    let (result, out) = rendered("{{}} {{{}}} }}{{", &[Arg::Unsigned(7)]);
    assert_eq!(result, Ok(()));
    assert_eq!(out, b"{} {7} }{".to_vec());
}

#[test]
fn multibyte_text_in_a_template_passes_through() {
    let (result, out) = rendered("\u{2713} {} \u{e9}", &[Arg::Text("ok")]);
    assert_eq!(result, Ok(()));
    assert_eq!(out, "\u{2713} ok \u{e9}".as_bytes().to_vec());
}

#[test]
fn braces_inside_an_argument_are_not_read_as_template() {
    let (result, out) = rendered("<{}>", &[Arg::Text("{}{")]);
    assert_eq!(result, Ok(()));
    assert_eq!(out, b"<{}{>".to_vec());
}

#[test]
fn lone_opening_brace_is_refused() {
    assert_eq!(rendered("{", &[]).0, Err(FormatError::UnmatchedBrace));
    assert_eq!(rendered("a{", &[]).0, Err(FormatError::UnmatchedBrace));
    assert_eq!(rendered("{x}", &[Arg::Unsigned(1)]).0, Err(FormatError::UnmatchedBrace));
    assert_eq!(rendered("{ }", &[Arg::Unsigned(1)]).0, Err(FormatError::UnmatchedBrace));
}

#[test]
fn lone_closing_brace_is_refused() {
    assert_eq!(rendered("}", &[]).0, Err(FormatError::UnmatchedBrace));
    assert_eq!(rendered("a}b", &[]).0, Err(FormatError::UnmatchedBrace));
    assert_eq!(rendered("}}}", &[]).0, Err(FormatError::UnmatchedBrace));
}

#[test]
fn placeholder_without_argument_is_refused() {
    assert_eq!(rendered("{}", &[]).0, Err(FormatError::MissingArgument));
    assert_eq!(
        rendered("{} and {}", &[Arg::Unsigned(1)]).0,
        Err(FormatError::MissingArgument)
    );
}

#[test]
fn argument_without_placeholder_is_refused() {
    assert_eq!(rendered("", &[Arg::Unsigned(1)]).0, Err(FormatError::UnusedArgument));
    assert_eq!(
        rendered("{} only", &[Arg::Unsigned(1), Arg::Unsigned(2)]).0,
        Err(FormatError::UnusedArgument)
    );
    assert_eq!(
        rendered("{{}}", &[Arg::Unsigned(1)]).0,
        Err(FormatError::UnusedArgument)
    );
}

#[test]
fn the_first_fault_from_the_left_decides() {
    assert_eq!(rendered("{} {", &[]).0, Err(FormatError::MissingArgument));
    assert_eq!(rendered("} {}", &[]).0, Err(FormatError::UnmatchedBrace));
    assert_eq!(
        rendered("{ {}", &[Arg::Unsigned(1), Arg::Unsigned(2)]).0,
        Err(FormatError::UnmatchedBrace)
    );
    assert_eq!(
        rendered("{} }", &[Arg::Unsigned(1), Arg::Unsigned(2)]).0,
        Err(FormatError::UnmatchedBrace)
    );
}

#[test]
fn a_refused_template_writes_nothing() {
    let mut console = Console::new();
    console.write_str("before");
    let args = [Arg::Text("written?")];
    assert_eq!(
        spinel::fmt::print(&mut console, "start {} then {", &args),
        Err(FormatError::UnmatchedBrace)
    );
    assert_eq!(console.pending(), b"before");
    assert_eq!(
        spinel::fmt::println(&mut console, "{} {}", &args),
        Err(FormatError::MissingArgument)
    );
    assert_eq!(console.pending(), b"before");
    assert_eq!(
        spinel::fmt::println(&mut console, "none", &args),
        Err(FormatError::UnusedArgument)
    );
    assert_eq!(console.pending(), b"before");
}

#[test]
fn print_does_not_end_the_line() {
    let mut console = Console::new();
    assert_eq!(spinel::fmt::print(&mut console, "a{}", &[Arg::Unsigned(1)]), Ok(()));
    assert_eq!(spinel::fmt::print(&mut console, "b{}", &[Arg::Unsigned(2)]), Ok(()));
    assert_eq!(console.pending(), b"a1b2");
}

#[test]
fn println_ends_the_line() {
    let mut console = Console::new();
    assert_eq!(spinel::fmt::println(&mut console, "a{}", &[Arg::Unsigned(1)]), Ok(()));
    assert_eq!(spinel::fmt::println(&mut console, "", &[]), Ok(()));
    assert_eq!(spinel::fmt::println(&mut console, "b", &[]), Ok(()));
    assert_eq!(console.pending(), b"a1\n\nb\n");
}

#[test]
fn brace_and_newline_bytes() {
    assert_eq!(spinel::fmt::OPEN, b'{');
    assert_eq!(spinel::fmt::CLOSE, b'}');
    assert_eq!(spinel::fmt::NEWLINE, b'\n');
}
