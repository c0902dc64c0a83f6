//! The identification banner: who the system is, and that it is coming up.

use vstd::prelude::*;
use vstd::string::*;
use crate::console::Console;
use crate::fmt::{
    lemma_render_placeholder, lemma_render_plain, placeholder, plain, render, texts,
    Arg, FormatError, NEWLINE,
};

verus! {

/// The template of the first banner line.
pub const BANNER_TEMPLATE: &'static str = "{} {} on {} {}";

/// The second banner line.
pub const STATUS_LINE: &'static str = "The system is coming up.";

/// The four names by which a running system identifies itself. They are
/// fixed when the kernel is built and only ever read.
#[derive(Clone, Copy, Debug)]
pub struct Identification<'a> {
    pub os_name: &'a str,
    pub version: &'a str,
    pub processor: &'a str,
    pub machine: &'a str,
}

impl<'a> Identification<'a> {
    /// The first banner line, `<name> <version> on <processor> <machine>`,
    /// without its line end.
    pub open spec fn headline(self) -> Seq<u8> {
        self.os_name.spec_bytes() + " ".spec_bytes() + self.version.spec_bytes()
            + " on ".spec_bytes() + self.processor.spec_bytes() + " ".spec_bytes()
            + self.machine.spec_bytes()
    }

    /// The whole banner: the headline and the status line, each ended by a
    /// line terminator.
    pub open spec fn banner(self) -> Seq<u8> {
        self.headline().push(NEWLINE) + STATUS_LINE.spec_bytes().push(NEWLINE)
    }

    /// Writes the banner.
    pub fn announce(&self, console: &mut Console)
        ensures
            final(console)@ == old(console)@ + self.banner(),
    {
        let args = [
            Arg::Text(self.os_name),
            Arg::Text(self.version),
            Arg::Text(self.processor),
            Arg::Text(self.machine),
        ];
        proof {
            assert(texts(args@) == seq![
                self.os_name.spec_bytes(),
                self.version.spec_bytes(),
                self.processor.spec_bytes(),
                self.machine.spec_bytes(),
            ]);
            lemma_headline(
                self.os_name.spec_bytes(),
                self.version.spec_bytes(),
                self.processor.spec_bytes(),
                self.machine.spec_bytes(),
            );
        }
        let first = crate::fmt::println(console, BANNER_TEMPLATE, &args);
        assert(first is Ok);
        assert(console@ == old(console)@ + self.headline().push(NEWLINE));
        let none: [Arg<'_>; 0] = [];
        proof {
            lemma_status_line();
            assert(texts(none@) == Seq::<Seq<u8>>::empty());
        }
        let second = crate::fmt::println(console, STATUS_LINE, &none);
        assert(second is Ok);
    }
}

proof fn lemma_literals()
    ensures
        BANNER_TEMPLATE.spec_bytes() == placeholder() + " ".spec_bytes() + placeholder()
            + " on ".spec_bytes() + placeholder() + " ".spec_bytes() + placeholder(),
        plain(" ".spec_bytes()),
        plain(" on ".spec_bytes()),
        plain(STATUS_LINE.spec_bytes()),
{
    reveal_strlit("{} {} on {} {}");
    reveal_strlit(" ");
    reveal_strlit(" on ");
    reveal_strlit("The system is coming up.");
    let template = BANNER_TEMPLATE;
    let status = STATUS_LINE;
    assert(is_ascii(template));
    assert(is_ascii(" "));
    assert(is_ascii(" on "));
    assert(is_ascii(status));
    is_ascii_spec_bytes(template);
    is_ascii_spec_bytes(" ");
    is_ascii_spec_bytes(" on ");
    is_ascii_spec_bytes(status);
}

/// The banner template, rendered with four texts, is those texts with
/// single spaces and the word `on` between them.
proof fn lemma_headline(name: Seq<u8>, version: Seq<u8>, processor: Seq<u8>, machine: Seq<u8>)
    ensures
        render(BANNER_TEMPLATE.spec_bytes(), seq![name, version, processor, machine]) == Ok::<
            Seq<u8>,
            FormatError,
        >(
            name + " ".spec_bytes() + version + " on ".spec_bytes() + processor + " ".spec_bytes()
                + machine,
        ),
{
    lemma_literals();
    let hole = placeholder();
    let space = " ".spec_bytes();
    let on = " on ".spec_bytes();
    let none = Seq::<u8>::empty();
    let args = seq![name, version, processor, machine];
    let after_name = args.skip(1);
    let after_version = after_name.skip(1);
    let after_processor = after_version.skip(1);
    let after_machine = after_processor.skip(1);
    let from_machine = hole + none;
    let from_processor = hole + (space + from_machine);
    let from_version = hole + (on + from_processor);
    let whole = hole + (space + from_version);
    assert(BANNER_TEMPLATE.spec_bytes() == whole);

    assert(after_machine.len() == 0);
    assert(render(none, after_machine) == Ok::<Seq<u8>, FormatError>(none));
    lemma_render_placeholder(none, after_processor);
    assert(render(from_machine, after_processor) == Ok::<Seq<u8>, FormatError>(machine)) by {
        assert(after_processor[0] == machine);
        assert(machine + none == machine);
    }
    lemma_render_plain(space, from_machine, after_processor);
    lemma_render_placeholder(space + from_machine, after_version);
    assert(render(from_processor, after_version) == Ok::<Seq<u8>, FormatError>(
        processor + (space + machine),
    )) by {
        assert(after_version[0] == processor);
    }
    lemma_render_plain(on, from_processor, after_version);
    lemma_render_placeholder(on + from_processor, after_name);
    assert(render(from_version, after_name) == Ok::<Seq<u8>, FormatError>(
        version + (on + (processor + (space + machine))),
    )) by {
        assert(after_name[0] == version);
    }
    lemma_render_plain(space, from_version, after_name);
    lemma_render_placeholder(space + from_version, args);
    assert(render(whole, args) == Ok::<Seq<u8>, FormatError>(
        name + (space + (version + (on + (processor + (space + machine))))),
    ));
    assert(name + (space + (version + (on + (processor + (space + machine))))) == name + space
        + version + on + processor + space + machine);
}

/// The status line holds no brace, so as a template it stands for itself.
proof fn lemma_status_line()
    ensures
        render(STATUS_LINE.spec_bytes(), Seq::<Seq<u8>>::empty()) == Ok::<Seq<u8>, FormatError>(
            STATUS_LINE.spec_bytes(),
        ),
{
    lemma_literals();
    let line = STATUS_LINE.spec_bytes();
    let none = Seq::<u8>::empty();
    lemma_render_plain(line, none, Seq::<Seq<u8>>::empty());
    assert(line + none == line);
}

} // verus!
