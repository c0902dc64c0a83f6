use spinel::console::Console;
use spinel::ident::{Identification, BANNER_TEMPLATE, STATUS_LINE};

fn banner_of(ident: &Identification<'_>) -> Vec<u8> {
    let mut console = Console::new();
    ident.announce(&mut console);
    console.drain()
}

#[test]
fn banner_for_known_values() {
    let ident = Identification {
        os_name: "TestOS",
        version: "0.1",
        processor: "x86_64",
        machine: "QEMU",
    };
    assert_eq!(
        banner_of(&ident),
        b"TestOS 0.1 on x86_64 QEMU\nThe system is coming up.\n".to_vec()
    );
}

#[test]
fn banner_follows_the_template_for_other_values() {
    let ident = Identification {
        os_name: "Spinel",
        version: "12.4.0-rc1",
        processor: "i686",
        machine: "PC compatible",
    };
    let expected = format!(
        "{} {} on {} {}\n{}\n",
        ident.os_name, ident.version, ident.processor, ident.machine, "The system is coming up."
    );
    assert_eq!(banner_of(&ident), expected.into_bytes());
}

#[test]
fn banner_with_empty_names_keeps_the_separators() {
    let ident = Identification { os_name: "", version: "", processor: "", machine: "" };
    assert_eq!(banner_of(&ident), b"  on  \nThe system is coming up.\n".to_vec());
}

#[test]
fn banner_names_may_hold_braces_and_other_scripts() {
    let ident = Identification {
        os_name: "{}",
        version: "v{{1}}",
        processor: "\u{3c0}",
        machine: "}",
    };
    assert_eq!(
        banner_of(&ident),
        "{} v{{1}} on \u{3c0} }\nThe system is coming up.\n".as_bytes().to_vec()
    );
}

#[test]
fn banner_is_written_behind_earlier_output() {
    let ident = Identification { os_name: "A", version: "B", processor: "C", machine: "D" };
    let mut console = Console::new();
    console.write_str("early\n");
    ident.announce(&mut console);
    assert_eq!(console.pending(), b"early\nA B on C D\nThe system is coming up.\n");
}

#[test]
fn banner_constants() {
    assert_eq!(BANNER_TEMPLATE, "{} {} on {} {}");
    assert_eq!(STATUS_LINE, "The system is coming up.");
}
