//! Values with a fixed text form: integers in decimal, and strings.
use vstd::prelude::*;
use vstd::string::StringExecFns;

use crate::sink::{Sink, WriteError};

verus! {

/// A value with a fixed text form, which it can write into a sink.
pub trait Render {
    /// The text this value stands for.
    spec fn rendered(&self) -> Seq<char>;

    /// Writes the value's text into `out` in one write; a value whose text is
    /// empty may skip the write, which the sink would take and ignore.
    fn render_to<W: Sink>(&self, out: &mut W) -> (r: Result<(), WriteError>)
        ensures
            r is Ok <==> W::admits(old(out)@, self.rendered()),
            final(out)@ == (if r is Ok {
                W::after(old(out)@, self.rendered())
            } else {
                old(out)@
            }),
    ;

    /// The value's text as a new string.
    fn to_text(&self) -> (r: String)
        ensures
            r@ == self.rendered(),
    ;
}

/// The character for a decimal digit.
pub open spec fn digit_char(d: nat) -> char
    recommends
        d < 10,
{
    if d == 0 {
        '0'
    } else if d == 1 {
        '1'
    } else if d == 2 {
        '2'
    } else if d == 3 {
        '3'
    } else if d == 4 {
        '4'
    } else if d == 5 {
        '5'
    } else if d == 6 {
        '6'
    } else if d == 7 {
        '7'
    } else if d == 8 {
        '8'
    } else {
        '9'
    }
}

/// The decimal digits of `n`, most significant first, with no leading zero.
pub open spec fn nat_decimal(n: nat) -> Seq<char>
    decreases n,
{
    if n < 10 {
        seq![digit_char(n)]
    } else {
        nat_decimal(n / 10).push(digit_char(n % 10))
    }
}

/// The decimal text of an integer: its digits, after a minus sign when negative.
pub open spec fn decimal(n: int) -> Seq<char> {
    if n < 0 {
        seq!['-'] + nat_decimal((-n) as nat)
    } else {
        nat_decimal(n as nat)
    }
}

/// The text of one decimal digit.
fn digit_str(d: u64) -> (r: &'static str)
    requires
        d < 10,
    ensures
        r@ == seq![digit_char(d as nat)],
{
    let r = if d == 0 {
        "0"
    } else if d == 1 {
        "1"
    } else if d == 2 {
        "2"
    } else if d == 3 {
        "3"
    } else if d == 4 {
        "4"
    } else if d == 5 {
        "5"
    } else if d == 6 {
        "6"
    } else if d == 7 {
        "7"
    } else if d == 8 {
        "8"
    } else {
        "9"
    };
    proof {
        reveal_strlit("0");
        reveal_strlit("1");
        reveal_strlit("2");
        reveal_strlit("3");
        reveal_strlit("4");
        reveal_strlit("5");
        reveal_strlit("6");
        reveal_strlit("7");
        reveal_strlit("8");
        reveal_strlit("9");
    }
    assert(r@ =~= seq![digit_char(d as nat)]);
    r
}

/// Appends the decimal digits of `n` to `out`.
fn append_digits(out: &mut String, n: u64)
    ensures
        final(out)@ == old(out)@ + nat_decimal(n as nat),
    decreases n,
{
    if n >= 10 {
        append_digits(out, n / 10);
    }
    out.append(digit_str(n % 10));
    assert(old(out)@ + nat_decimal(n as nat) =~= final(out)@);
}

/// The decimal text of an unsigned integer.
pub fn unsigned_text(n: u64) -> (r: String)
    ensures
        r@ == decimal(n as int),
{
    let mut out = String::new();
    append_digits(&mut out, n);
    assert(out@ =~= decimal(n as int));
    out
}

/// The decimal text of a signed integer.
pub fn signed_text(n: i64) -> (r: String)
    ensures
        r@ == decimal(n as int),
{
    if n >= 0 {
        return unsigned_text(n as u64);
    }
    let mut out = String::new();
    out.append("-");
    let magnitude: u64 = if n == i64::MIN {
        9223372036854775808u64
    } else {
        (-n) as u64
    };
    append_digits(&mut out, magnitude);
    proof {
        reveal_strlit("-");
    }
    assert(out@ =~= decimal(n as int));
    out
}

/// Writes the text of `s` into `out`, as one write.
fn write_whole<W: Sink>(out: &mut W, s: &String) -> (r: Result<(), WriteError>)
    ensures
        r is Ok <==> W::admits(old(out)@, s@),
        final(out)@ == (if r is Ok {
            W::after(old(out)@, s@)
        } else {
            old(out)@
        }),
{
    out.write_text(s.as_str())
}

impl Render for u64 {
    open spec fn rendered(&self) -> Seq<char> {
        decimal(*self as int)
    }

    fn render_to<W: Sink>(&self, out: &mut W) -> (r: Result<(), WriteError>) {
        write_whole(out, &unsigned_text(*self))
    }

    fn to_text(&self) -> (r: String) {
        unsigned_text(*self)
    }
}

impl Render for u32 {
    open spec fn rendered(&self) -> Seq<char> {
        decimal(*self as int)
    }

    fn render_to<W: Sink>(&self, out: &mut W) -> (r: Result<(), WriteError>) {
        write_whole(out, &unsigned_text(*self as u64))
    }

    fn to_text(&self) -> (r: String) {
        unsigned_text(*self as u64)
    }
}

impl Render for usize {
    open spec fn rendered(&self) -> Seq<char> {
        decimal(*self as int)
    }

    fn render_to<W: Sink>(&self, out: &mut W) -> (r: Result<(), WriteError>) {
        write_whole(out, &unsigned_text(*self as u64))
    }

    fn to_text(&self) -> (r: String) {
        unsigned_text(*self as u64)
    }
}

impl Render for i64 {
    open spec fn rendered(&self) -> Seq<char> {
        decimal(*self as int)
    }

    fn render_to<W: Sink>(&self, out: &mut W) -> (r: Result<(), WriteError>) {
        write_whole(out, &signed_text(*self))
    }

    fn to_text(&self) -> (r: String) {
        signed_text(*self)
    }
}

impl Render for i32 {
    open spec fn rendered(&self) -> Seq<char> {
        decimal(*self as int)
    }

    fn render_to<W: Sink>(&self, out: &mut W) -> (r: Result<(), WriteError>) {
        write_whole(out, &signed_text(*self as i64))
    }

    fn to_text(&self) -> (r: String) {
        signed_text(*self as i64)
    }
}

impl Render for String {
    open spec fn rendered(&self) -> Seq<char> {
        self@
    }

    fn render_to<W: Sink>(&self, out: &mut W) -> (r: Result<(), WriteError>) {
        out.write_text(self.as_str())
    }

    fn to_text(&self) -> (r: String) {
        self.clone()
    }
}

impl<'a> Render for &'a str {
    open spec fn rendered(&self) -> Seq<char> {
        (*self)@
    }

    fn render_to<W: Sink>(&self, out: &mut W) -> (r: Result<(), WriteError>) {
        out.write_text(*self)
    }

    fn to_text(&self) -> (r: String) {
        String::from_str(*self)
    }
}

} // verus!
