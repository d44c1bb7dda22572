//! Text destinations that accept writes and may refuse one.
use vstd::prelude::*;
use vstd::string::StringExecFns;

verus! {

/// The one failure a text destination can report: it refused a write.
#[derive(Debug, Clone, Copy, PartialEq, Eq)]
pub struct WriteError;

/// A destination that accepts text, one write at a time, and may refuse one.
///
/// Its view is its state. Whether a write goes through, and the state after
/// it, are functions of the state and the text: a write either goes through
/// whole or is refused, and a refused write changes nothing.
pub trait Sink: View + Sized {
    /// The text held in state `v`.
    spec fn held(v: Self::V) -> Seq<char>;

    /// Whether a write of `s` goes through in state `v`.
    spec fn admits(v: Self::V, s: Seq<char>) -> bool;

    /// The state after a write of `s` in state `v` has gone through.
    spec fn after(v: Self::V, s: Seq<char>) -> Self::V;

    /// A write adds its text to what is held, and a write of no text is
    /// always taken and changes nothing.
    proof fn lemma_after(v: Self::V, s: Seq<char>)
        ensures
            Self::held(Self::after(v, s)) == Self::held(v) + s,
            Self::admits(v, Seq::empty()),
            Self::after(v, Seq::empty()) == v,
    ;

    /// Writes `s` whole, or refuses it and changes nothing.
    fn write_text(&mut self, s: &str) -> (r: Result<(), WriteError>)
        ensures
            r is Ok <==> Self::admits(old(self)@, s@),
            final(self)@ == (if r is Ok {
                Self::after(old(self)@, s@)
            } else {
                old(self)@
            }),
    ;
}

/// A growing `String` never refuses a write.
impl Sink for String {
    open spec fn held(v: Seq<char>) -> Seq<char> {
        v
    }

    open spec fn admits(v: Seq<char>, s: Seq<char>) -> bool {
        true
    }

    open spec fn after(v: Seq<char>, s: Seq<char>) -> Seq<char> {
        v + s
    }

    proof fn lemma_after(v: Seq<char>, s: Seq<char>) {
        assert(v + Seq::<char>::empty() =~= v);
    }

    fn write_text(&mut self, s: &str) -> (r: Result<(), WriteError>) {
        self.append(s);
        Ok(())
    }
}

/// A text buffer that holds at most `capacity` characters: a write that
/// would carry it past that bound is refused.
pub struct BoundedSink {
    buf: String,
    cap: usize,
}

impl View for BoundedSink {
    /// The text held, and the capacity.
    type V = (Seq<char>, nat);

    closed spec fn view(&self) -> (Seq<char>, nat) {
        (self.buf@, self.cap as nat)
    }
}

impl BoundedSink {
    /// An empty buffer that holds at most `capacity` characters.
    pub fn new(capacity: usize) -> (r: BoundedSink)
        ensures
            r@ == (Seq::<char>::empty(), capacity as nat),
    {
        BoundedSink { buf: String::new(), cap: capacity }
    }

    /// The largest number of characters the buffer will ever hold.
    pub fn capacity(&self) -> (r: usize)
        ensures
            r == self@.1,
    {
        self.cap
    }

    /// The text accepted so far.
    pub fn as_str(&self) -> (r: &str)
        ensures
            r@ == self@.0,
    {
        self.buf.as_str()
    }
}

impl Sink for BoundedSink {
    open spec fn held(v: (Seq<char>, nat)) -> Seq<char> {
        v.0
    }

    /// A write of no text always goes through; any other goes through when
    /// the text held afterwards stays within the capacity.
    open spec fn admits(v: (Seq<char>, nat), s: Seq<char>) -> bool {
        s.len() == 0 || v.0.len() + s.len() <= v.1
    }

    open spec fn after(v: (Seq<char>, nat), s: Seq<char>) -> (Seq<char>, nat) {
        (v.0 + s, v.1)
    }

    proof fn lemma_after(v: (Seq<char>, nat), s: Seq<char>) {
        assert(v.0 + Seq::<char>::empty() =~= v.0);
    }

    fn write_text(&mut self, s: &str) -> (r: Result<(), WriteError>) {
        let n = s.unicode_len();
        let held = self.buf.as_str().unicode_len();
        if n == 0 {
            assert(self.buf@ + s@ =~= self.buf@);
            return Ok(());
        }
        if n > self.cap || held > self.cap - n {
            return Err(WriteError);
        }
        self.buf.append(s);
        Ok(())
    }
}

} // verus!
