//! Formatted output: templates with `{}` placeholders, rendered straight onto
//! the console without an intermediate buffer.

use vstd::prelude::*;
use vstd::string::*;
use vstd::arithmetic::div_mod::*;
use crate::console::Console;

verus! {

/// The byte `{`, which opens a placeholder.
pub const OPEN: u8 = 0x7b;

/// The byte `}`, which closes a placeholder.
pub const CLOSE: u8 = 0x7d;

/// The line terminator that `println` appends.
pub const NEWLINE: u8 = 0x0a;

/// One typed argument of a template.
#[derive(Clone, Copy, Debug)]
pub enum Arg<'a> {
    /// An unsigned integer, written in decimal.
    Unsigned(u64),
    /// A signed integer, written in decimal with `-` before a negative one.
    Signed(i64),
    /// An unsigned integer, written in lower-case hexadecimal without prefix.
    Hex(u64),
    /// A string, written as it is.
    Text(&'a str),
}

/// Why a template with its arguments cannot be rendered.
#[derive(Clone, Copy, Debug, PartialEq, Eq, Structural)]
pub enum FormatError {
    /// A `{` or `}` that is neither doubled nor part of `{}`.
    UnmatchedBrace,
    /// A placeholder for which no argument is left.
    MissingArgument,
    /// The template ended and arguments were left over.
    UnusedArgument,
}

impl<'a> Arg<'a> {
    /// The bytes that stand for this argument in the output.
    pub open spec fn text(self) -> Seq<u8> {
        match self {
            Arg::Unsigned(n) => numeral(n as nat, 10),
            Arg::Signed(i) => if i < 0 {
                seq![0x2du8] + numeral((-i) as nat, 10)
            } else {
                numeral(i as nat, 10)
            },
            Arg::Hex(n) => numeral(n as nat, 16),
            Arg::Text(s) => s.spec_bytes(),
        }
    }
}

/// The output texts of a list of arguments, in order.
pub open spec fn texts(args: Seq<Arg<'_>>) -> Seq<Seq<u8>> {
    Seq::new(args.len(), |i: int| args[i].text())
}

/// `head` before the text of `tail`; an error in `tail` stays as it is.
pub open spec fn prefixed(head: Seq<u8>, tail: Result<Seq<u8>, FormatError>) -> Result<
    Seq<u8>,
    FormatError,
> {
    match tail {
        Ok(text) => Ok(head + text),
        Err(e) => Err(e),
    }
}

/// The text that a template stands for, read from the left.
///
/// `{}` is replaced by the next argument, `{{` and `}}` stand for one brace
/// each, and every other byte stands for itself. The first fault met decides
/// the error; arguments left over are found at the end.
pub open spec fn render(template: Seq<u8>, args: Seq<Seq<u8>>) -> Result<Seq<u8>, FormatError>
    decreases template.len(),
{
    if template.len() == 0 {
        if args.len() == 0 {
            Ok(Seq::empty())
        } else {
            Err(FormatError::UnusedArgument)
        }
    } else if template[0] == OPEN {
        if template.len() >= 2 && template[1] == OPEN {
            prefixed(seq![OPEN], render(template.skip(2), args))
        } else if template.len() >= 2 && template[1] == CLOSE {
            if args.len() == 0 {
                Err(FormatError::MissingArgument)
            } else {
                prefixed(args[0], render(template.skip(2), args.skip(1)))
            }
        } else {
            Err(FormatError::UnmatchedBrace)
        }
    } else if template[0] == CLOSE {
        if template.len() >= 2 && template[1] == CLOSE {
            prefixed(seq![CLOSE], render(template.skip(2), args))
        } else {
            Err(FormatError::UnmatchedBrace)
        }
    } else {
        prefixed(seq![template[0]], render(template.skip(1), args))
    }
}

/// Whether rendering succeeds, and if not, why.
pub open spec fn verdict(outcome: Result<Seq<u8>, FormatError>) -> Result<(), FormatError> {
    match outcome {
        Ok(_) => Ok(()),
        Err(e) => Err(e),
    }
}


/// The character for one digit value below sixteen: `0`-`9`, then `a`-`f`.
pub open spec fn digit(value: nat) -> u8 {
    if value < 10 {
        (48 + value) as u8
    } else {
        (87 + value) as u8
    }
}

/// The digits of `n` in the given base, most significant first, without
/// leading zeros; zero is the single digit `0`.
pub open spec fn numeral(n: nat, base: nat) -> Seq<u8>
    decreases n,
{
    if base < 2 || n < base {
        seq![digit(n)]
    } else {
        proof {
            lemma_div_decreases(n as int, base as int);
        }
        numeral(n / base, base).push(digit(n % base))
    }
}

/// Whether `weight` is a power of `base`.
spec fn is_power(weight: nat, base: nat) -> bool
    decreases weight,
{
    if weight == 1 {
        true
    } else if base >= 2 && weight >= base && weight % base == 0 {
        proof {
            lemma_div_decreases(weight as int, base as int);
        }
        is_power(weight / base, base)
    } else {
        false
    }
}

proof fn lemma_power_step(weight: nat, base: nat)
    requires
        is_power(weight, base),
        base >= 2,
    ensures
        is_power(weight * base, base),
        (weight * base) / base == weight,
        (weight * base) % base == 0,
{
    lemma_div_multiples_vanish(weight as int, base as int);
    lemma_mod_multiples_basic(weight as int, base as int);
    assert(weight * base >= base) by (nonlinear_arith)
        requires
            weight >= 1,
            base >= 2,
    ;
}

fn digit_byte(value: u64) -> (byte: u8)
    requires
        value < 16,
    ensures
        byte == digit(value as nat),
{
    if value < 10 {
        (48 + value) as u8
    } else {
        (87 + value) as u8
    }
}

/// Writes `n` in decimal.
pub fn write_decimal(console: &mut Console, n: u64)
    ensures
        final(console)@ == old(console)@ + numeral(n as nat, 10),
{
    write_numeral(console, n, 10);
}

/// Writes `n` in lower-case hexadecimal, without a prefix.
pub fn write_hex(console: &mut Console, n: u64)
    ensures
        final(console)@ == old(console)@ + numeral(n as nat, 16),
{
    write_numeral(console, n, 16);
}

/// Writes `n` in the given base, leading digit first, one digit at a time.
fn write_numeral(console: &mut Console, n: u64, base: u64)
    requires
        2 <= base <= 16,
    ensures
        final(console)@ == old(console)@ + numeral(n as nat, base as nat),
{
    // The weight of the leading digit: the largest power of the base that
    // is not above `n`.
    let mut weight: u64 = 1;
    while n / weight >= base
        invariant
            2 <= base <= 16,
            weight >= 1,
            weight <= n || weight == 1,
            is_power(weight as nat, base as nat),
        decreases n - weight,
    {
        proof {
            lemma_power_step(weight as nat, base as nat);
            lemma_fundamental_div_mod(n as int, weight as int);
            assert(weight * base <= n) by (nonlinear_arith)
                requires
                    n / weight >= base,
                    n == weight * (n / weight) + n % weight,
                    n % weight >= 0,
                    weight >= 1,
                    base >= 2,
            ;
            assert(weight * base > weight) by (nonlinear_arith)
                requires
                    weight >= 1,
                    base >= 2,
            ;
        }
        weight = weight * base;
    }
    console.write_byte(digit_byte(n / weight));
    while weight > 1
        invariant
            2 <= base <= 16,
            weight >= 1,
            weight <= n || weight == 1,
            is_power(weight as nat, base as nat),
            console@ == old(console)@ + numeral((n / weight) as nat, base as nat),
        decreases weight,
    {
        let ghost above = weight;
        weight = weight / base;
        proof {
            lemma_fundamental_div_mod(above as int, base as int);
            assert(weight * base == above);
            lemma_div_denominator(n as int, weight as int, base as int);
            assert((n / weight) / base == n / above);
            lemma_fundamental_div_mod(n as int, weight as int);
            assert(n / weight >= base) by (nonlinear_arith)
                requires
                    n >= weight * base,
                    n == weight * (n / weight) + n % weight,
                    n % weight < weight,
                    weight >= 1,
                    base >= 2,
            ;
        }
        console.write_byte(digit_byte((n / weight) % base));
    }
}

/// Whether no byte of `text` is a brace.
pub open spec fn plain(text: Seq<u8>) -> bool {
    forall|i: int| 0 <= i < text.len() ==> text[i] != OPEN && text[i] != CLOSE
}

/// The two bytes of a placeholder.
pub open spec fn placeholder() -> Seq<u8> {
    seq![OPEN, CLOSE]
}

/// Bytes without braces at the head of a template stand for themselves.
pub proof fn lemma_render_plain(head: Seq<u8>, rest: Seq<u8>, args: Seq<Seq<u8>>)
    requires
        plain(head),
    ensures
        render(head + rest, args) == prefixed(head, render(rest, args)),
    decreases head.len(),
{
    if head.len() == 0 {
        assert(head + rest == rest);
        assert(forall|text: Seq<u8>| head + text == text);
    } else {
        let whole = head + rest;
        let shorter = head.skip(1);
        assert(whole[0] == head[0]);
        assert(whole.skip(1) == shorter + rest);
        lemma_render_plain(shorter, rest, args);
        assert(forall|text: Seq<u8>| seq![head[0]] + (shorter + text) == head + text);
    }
}

/// A placeholder at the head of a template takes the first argument.
pub proof fn lemma_render_placeholder(rest: Seq<u8>, args: Seq<Seq<u8>>)
    requires
        args.len() > 0,
    ensures
        render(placeholder() + rest, args) == prefixed(args[0], render(rest, args.skip(1))),
{
    let whole = placeholder() + rest;
    assert(whole[0] == OPEN && whole[1] == CLOSE);
    assert(whole.skip(2) == rest);
}

/// Writes one argument.
pub fn write_arg(console: &mut Console, arg: &Arg<'_>)
    ensures
        final(console)@ == old(console)@ + arg.text(),
{
    match arg {
        Arg::Unsigned(n) => write_decimal(console, *n),
        Arg::Signed(i) => {
            if *i < 0 {
                let wide: i128 = *i as i128;
                let magnitude: u64 = (-wide) as u64;
                console.write_byte(0x2d);
                write_decimal(console, magnitude);
                assert(console@ == old(console)@ + (seq![0x2du8] + numeral((-*i) as nat, 10)));
            } else {
                write_decimal(console, *i as u64);
            }
        },
        Arg::Hex(n) => write_hex(console, *n),
        Arg::Text(s) => console.write_str(s),
    }
}

/// Reads the template once without writing anything and says whether it
/// can be rendered with that many arguments.
fn check(template: &[u8], args: &[Arg<'_>]) -> (result: Result<(), FormatError>)
    ensures
        result == verdict(render(template@, texts(args@))),
{
    let ghost all = texts(args@);
    let mut at: usize = 0;
    let mut used: usize = 0;
    assert(template@.skip(0) == template@ && all.skip(0) == all);
    while at < template.len()
        invariant
            at <= template@.len(),
            used <= args@.len(),
            all == texts(args@),
            verdict(render(template@, all)) == verdict(
                render(template@.skip(at as int), all.skip(used as int)),
            ),
        decreases template@.len() - at,
    {
        let ghost rest = template@.skip(at as int);
        let ghost left = all.skip(used as int);
        let byte = template[at];
        if byte == OPEN {
            if at + 1 < template.len() && template[at + 1] == OPEN {
                assert(rest.skip(2) == template@.skip(at + 2));
                at = at + 2;
            } else if at + 1 < template.len() && template[at + 1] == CLOSE {
                if used == args.len() {
                    return Err(FormatError::MissingArgument);
                }
                assert(rest.skip(2) == template@.skip(at + 2));
                assert(left.skip(1) == all.skip(used + 1));
                at = at + 2;
                used = used + 1;
            } else {
                return Err(FormatError::UnmatchedBrace);
            }
        } else if byte == CLOSE {
            if at + 1 < template.len() && template[at + 1] == CLOSE {
                assert(rest.skip(2) == template@.skip(at + 2));
                at = at + 2;
            } else {
                return Err(FormatError::UnmatchedBrace);
            }
        } else {
            assert(rest.skip(1) == template@.skip(at + 1));
            at = at + 1;
        }
    }
    if used == args.len() {
        Ok(())
    } else {
        Err(FormatError::UnusedArgument)
    }
}

/// Writes the text of a template that `check` has accepted.
fn emit(console: &mut Console, template: &[u8], args: &[Arg<'_>])
    requires
        render(template@, texts(args@)) is Ok,
    ensures
        final(console)@ == old(console)@ + render(template@, texts(args@))->Ok_0,
{
    let ghost all = texts(args@);
    let ghost whole = render(template@, all)->Ok_0;
    let mut at: usize = 0;
    let mut used: usize = 0;
    assert(template@.skip(0) == template@ && all.skip(0) == all);
    while at < template.len()
        invariant
            at <= template@.len(),
            used <= args@.len(),
            all == texts(args@),
            render(template@.skip(at as int), all.skip(used as int)) is Ok,
            old(console)@ + whole == console@ + render(
                template@.skip(at as int),
                all.skip(used as int),
            )->Ok_0,
        decreases template@.len() - at,
    {
        let ghost rest = template@.skip(at as int);
        let ghost left = all.skip(used as int);
        let byte = template[at];
        if byte == OPEN {
            assert(at + 1 < template@.len());
            if template[at + 1] == OPEN {
                assert(rest.skip(2) == template@.skip(at + 2));
                console.write_byte(OPEN);
                at = at + 2;
            } else {
                assert(used < args@.len());
                assert(rest.skip(2) == template@.skip(at + 2));
                assert(left.skip(1) == all.skip(used + 1));
                assert(left[0] == args@[used as int].text());
                write_arg(console, &args[used]);
                at = at + 2;
                used = used + 1;
            }
        } else if byte == CLOSE {
            assert(at + 1 < template@.len());
            assert(rest.skip(2) == template@.skip(at + 2));
            console.write_byte(CLOSE);
            at = at + 2;
        } else {
            assert(rest.skip(1) == template@.skip(at + 1));
            console.write_byte(byte);
            at = at + 1;
        }
    }
}

/// Renders `template` with `args` onto the console.
///
/// The template is read in full before the first byte is written, so a
/// template that cannot be rendered leaves the console as it was.
pub fn print(console: &mut Console, template: &str, args: &[Arg<'_>]) -> (result: Result<
    (),
    FormatError,
>)
    ensures
        result == verdict(render(template.spec_bytes(), texts(args@))),
        match render(template.spec_bytes(), texts(args@)) {
            Ok(text) => final(console)@ == old(console)@ + text,
            Err(_) => final(console)@ == old(console)@,
        },
{
    let bytes = template.as_bytes();
    match check(bytes, args) {
        Ok(()) => {
            emit(console, bytes, args);
            Ok(())
        },
        Err(e) => Err(e),
    }
}

/// Renders `template` with `args` onto the console and ends the line.
pub fn println(console: &mut Console, template: &str, args: &[Arg<'_>]) -> (result: Result<
    (),
    FormatError,
>)
    ensures
        result == verdict(render(template.spec_bytes(), texts(args@))),
        match render(template.spec_bytes(), texts(args@)) {
            Ok(text) => final(console)@ == old(console)@ + text.push(NEWLINE),
            Err(_) => final(console)@ == old(console)@,
        },
{
    match print(console, template, args) {
        Ok(()) => {
            console.write_byte(NEWLINE);
            Ok(())
        },
        Err(e) => Err(e),
    }
}

} // verus!
