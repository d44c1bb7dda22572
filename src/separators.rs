//! Zero-size separator values for the common joins. Each renders a fixed
//! literal; the empty separator renders nothing and never touches the sink.
use vstd::prelude::*;
use vstd::string::StringExecFns;

use crate::render::Render;
use crate::sink::{Sink, WriteError};

verus! {

/// Zero-size separator that renders as nothing: joining with it concatenates
/// the items.
#[derive(Debug, Clone, Copy, Default)]
#[must_use]
pub struct NoSeparator;

impl NoSeparator {
    /// The separator's literal text, which is empty.
    pub fn text(&self) -> (r: &'static str)
        ensures
            r@ == self.rendered(),
    {
        proof {
            reveal_strlit("");
        }
        assert(""@ =~= Seq::<char>::empty());
        ""
    }
}

impl Render for NoSeparator {
    open spec fn rendered(&self) -> Seq<char> {
        Seq::empty()
    }

    /// Writes nothing: the sink is left as it is.
    fn render_to<W: Sink>(&self, out: &mut W) -> (r: Result<(), WriteError>) {
        proof {
            W::lemma_after(out@, Seq::empty());
        }
        Ok(())
    }

    fn to_text(&self) -> (r: String) {
        String::new()
    }
}

/// Zero-size separator that renders as a single space (`" "`).
#[derive(Debug, Clone, Copy, Default)]
#[must_use]
pub struct Space;

impl Space {
    /// The separator's literal text.
    pub fn text(&self) -> (r: &'static str)
        ensures
            r@ == self.rendered(),
    {
        proof {
            reveal_strlit(" ");
        }
        assert(" "@ =~= seq![' ']);
        " "
    }
}

impl Render for Space {
    open spec fn rendered(&self) -> Seq<char> {
        seq![' ']
    }

    fn render_to<W: Sink>(&self, out: &mut W) -> (r: Result<(), WriteError>) {
        out.write_text(self.text())
    }

    fn to_text(&self) -> (r: String) {
        String::from_str(self.text())
    }
}

/// Zero-size separator that renders as a comma (`","`).
#[derive(Debug, Clone, Copy, Default)]
#[must_use]
pub struct Comma;

impl Comma {
    /// The separator's literal text.
    pub fn text(&self) -> (r: &'static str)
        ensures
            r@ == self.rendered(),
    {
        proof {
            reveal_strlit(",");
        }
        assert(","@ =~= seq![',']);
        ","
    }
}

impl Render for Comma {
    open spec fn rendered(&self) -> Seq<char> {
        seq![',']
    }

    fn render_to<W: Sink>(&self, out: &mut W) -> (r: Result<(), WriteError>) {
        out.write_text(self.text())
    }

    fn to_text(&self) -> (r: String) {
        String::from_str(self.text())
    }
}

/// Zero-size separator that renders as a comma followed by a space (`", "`).
#[derive(Debug, Clone, Copy, Default)]
#[must_use]
pub struct CommaSpace;

impl CommaSpace {
    /// The separator's literal text.
    pub fn text(&self) -> (r: &'static str)
        ensures
            r@ == self.rendered(),
    {
        proof {
            reveal_strlit(", ");
        }
        assert(", "@ =~= seq![',', ' ']);
        ", "
    }
}

impl Render for CommaSpace {
    open spec fn rendered(&self) -> Seq<char> {
        seq![',', ' ']
    }

    fn render_to<W: Sink>(&self, out: &mut W) -> (r: Result<(), WriteError>) {
        out.write_text(self.text())
    }

    fn to_text(&self) -> (r: String) {
        String::from_str(self.text())
    }
}

/// Zero-size separator that renders as a full stop (`"."`).
#[derive(Debug, Clone, Copy, Default)]
#[must_use]
pub struct Dot;

impl Dot {
    /// The separator's literal text.
    pub fn text(&self) -> (r: &'static str)
        ensures
            r@ == self.rendered(),
    {
        proof {
            reveal_strlit(".");
        }
        assert("."@ =~= seq!['.']);
        "."
    }
}

impl Render for Dot {
    open spec fn rendered(&self) -> Seq<char> {
        seq!['.']
    }

    fn render_to<W: Sink>(&self, out: &mut W) -> (r: Result<(), WriteError>) {
        out.write_text(self.text())
    }

    fn to_text(&self) -> (r: String) {
        String::from_str(self.text())
    }
}

/// Zero-size separator that renders as a forward slash (`"/"`).
#[derive(Debug, Clone, Copy, Default)]
#[must_use]
pub struct Slash;

impl Slash {
    /// The separator's literal text.
    pub fn text(&self) -> (r: &'static str)
        ensures
            r@ == self.rendered(),
    {
        proof {
            reveal_strlit("/");
        }
        assert("/"@ =~= seq!['/']);
        "/"
    }
}

impl Render for Slash {
    open spec fn rendered(&self) -> Seq<char> {
        seq!['/']
    }

    fn render_to<W: Sink>(&self, out: &mut W) -> (r: Result<(), WriteError>) {
        out.write_text(self.text())
    }

    fn to_text(&self) -> (r: String) {
        String::from_str(self.text())
    }
}

/// Zero-size separator that renders as an underscore (`"_"`).
#[derive(Debug, Clone, Copy, Default)]
#[must_use]
pub struct Underscore;

impl Underscore {
    /// The separator's literal text.
    pub fn text(&self) -> (r: &'static str)
        ensures
            r@ == self.rendered(),
    {
        proof {
            reveal_strlit("_");
        }
        assert("_"@ =~= seq!['_']);
        "_"
    }
}

impl Render for Underscore {
    open spec fn rendered(&self) -> Seq<char> {
        seq!['_']
    }

    fn render_to<W: Sink>(&self, out: &mut W) -> (r: Result<(), WriteError>) {
        out.write_text(self.text())
    }

    fn to_text(&self) -> (r: String) {
        String::from_str(self.text())
    }
}

/// Zero-size separator that renders as a hyphen (`"-"`).
#[derive(Debug, Clone, Copy, Default)]
#[must_use]
pub struct Dash;

impl Dash {
    /// The separator's literal text.
    pub fn text(&self) -> (r: &'static str)
        ensures
            r@ == self.rendered(),
    {
        proof {
            reveal_strlit("-");
        }
        assert("-"@ =~= seq!['-']);
        "-"
    }
}

impl Render for Dash {
    open spec fn rendered(&self) -> Seq<char> {
        seq!['-']
    }

    fn render_to<W: Sink>(&self, out: &mut W) -> (r: Result<(), WriteError>) {
        out.write_text(self.text())
    }

    fn to_text(&self) -> (r: String) {
        String::from_str(self.text())
    }
}

} // verus!
