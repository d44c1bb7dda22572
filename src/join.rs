//! Joining a sequence of renderable items with a separator.
use vstd::prelude::*;

use crate::render::Render;
use crate::sink::{Sink, WriteError};

verus! {

/// The text of each item, in order.
pub open spec fn texts<T: Render>(items: Seq<T>) -> Seq<Seq<char>> {
    items.map_values(|t: T| t.rendered())
}

/// The writes a join makes, in order: the items, with the separator between
/// each two neighbours (`item, sep, item, ..., sep, item`).
pub open spec fn pieces(items: Seq<Seq<char>>, sep: Seq<char>) -> Seq<Seq<char>> {
    let n: int = if items.len() == 0 {
        0
    } else {
        2 * items.len() - 1
    };
    Seq::new(n as nat, |k: int| if k % 2 == 0 { items[k / 2] } else { sep })
}

/// The parts written one after another.
pub open spec fn concat(parts: Seq<Seq<char>>) -> Seq<char>
    decreases parts.len(),
{
    if parts.len() == 0 {
        Seq::empty()
    } else {
        concat(parts.drop_last()) + parts.last()
    }
}

/// The items' text with `sep` between each two neighbours:
/// `item_1 + sep + item_2 + ... + sep + item_n`.
pub open spec fn joined(items: Seq<Seq<char>>, sep: Seq<char>) -> Seq<char> {
    concat(pieces(items, sep))
}

/// Making the writes `parts` in turn on a sink of type `W` in state `v`,
/// stopping at the first one refused: the state at the end, and whether every
/// write went through.
pub open spec fn run<W: Sink>(v: W::V, parts: Seq<Seq<char>>) -> (W::V, bool)
    decreases parts.len(),
{
    if parts.len() == 0 {
        (v, true)
    } else if W::admits(v, parts[0]) {
        run::<W>(W::after(v, parts[0]), parts.drop_first())
    } else {
        (v, false)
    }
}

proof fn lemma_concat_push(parts: Seq<Seq<char>>, x: Seq<char>)
    ensures
        concat(parts.push(x)) == concat(parts) + x,
{
    assert(parts.push(x).drop_last() =~= parts);
}

proof fn lemma_concat_first(parts: Seq<Seq<char>>)
    requires
        parts.len() > 0,
    ensures
        concat(parts) == parts[0] + concat(parts.drop_first()),
    decreases parts.len(),
{
    if parts.len() == 1 {
        assert(parts.drop_first() =~= Seq::<Seq<char>>::empty());
        assert(parts.drop_last() =~= Seq::<Seq<char>>::empty());
        assert(parts[0] + Seq::<char>::empty() =~= Seq::<char>::empty() + parts[0]);
    } else {
        let init = parts.drop_last();
        lemma_concat_first(init);
        assert(init.drop_first() =~= parts.drop_first().drop_last());
        assert(parts.drop_first().last() == parts.last());
        assert(parts[0] + concat(init.drop_first()) + parts.last() =~= parts[0] + (concat(
            init.drop_first(),
        ) + parts.last()));
    }
}

/// Adding an item to a nonempty join adds a separator and the item.
proof fn lemma_pieces_step(items: Seq<Seq<char>>, sep: Seq<char>, x: Seq<char>)
    requires
        items.len() > 0,
    ensures
        pieces(items.push(x), sep) == pieces(items, sep).push(sep).push(x),
{
    let l = pieces(items.push(x), sep);
    let r = pieces(items, sep).push(sep).push(x);
    assert forall|k: int| 0 <= k < l.len() implies l[k] == r[k] by {
        if k < 2 * items.len() - 1 && k % 2 == 0 {
            assert(items.push(x)[k / 2] == items[k / 2]);
        }
    }
    assert(l =~= r);
}

/// When every write of a run goes through, the sink holds its old text
/// followed by all the parts.
proof fn lemma_run_ok<W: Sink>(v: W::V, parts: Seq<Seq<char>>)
    requires
        run::<W>(v, parts).1,
    ensures
        W::held(run::<W>(v, parts).0) == W::held(v) + concat(parts),
    decreases parts.len(),
{
    if parts.len() == 0 {
        assert(W::held(v) + Seq::<char>::empty() =~= W::held(v));
    } else {
        let next = W::after(v, parts[0]);
        W::lemma_after(v, parts[0]);
        lemma_run_ok::<W>(next, parts.drop_first());
        lemma_concat_first(parts);
        assert(W::held(v) + parts[0] + concat(parts.drop_first()) =~= W::held(v) + (parts[0]
            + concat(parts.drop_first())));
    }
}

/// On a sink that admits every write, a run never stops early.
proof fn lemma_run_total<W: Sink>(v: W::V, parts: Seq<Seq<char>>)
    requires
        forall|u: W::V, s: Seq<char>| W::admits(u, s),
    ensures
        run::<W>(v, parts).1,
    decreases parts.len(),
{
    if parts.len() > 0 {
        lemma_run_total::<W>(W::after(v, parts[0]), parts.drop_first());
    }
}

/// Writes `items` into `out`, with `sep` between each two neighbours, one
/// write per item and per separator, and stops at the first write that the
/// sink refuses.
///
/// The sink ends in the state, and the result is `Ok` exactly when, making
/// those writes in turn from the sink's starting state gives.
pub fn join_into<W: Sink, T: Render, S: Render>(out: &mut W, items: &[T], sep: &S) -> (r: Result<
    (),
    WriteError,
>)
    ensures
        (final(out)@, r is Ok) == run::<W>(old(out)@, pieces(texts(items@), sep.rendered())),
{
    let n = items.len();
    let ghost parts = texts(items@);
    let ghost t = sep.rendered();
    let ghost all = pieces(parts, t);
    let ghost start = out@;
    let mut i: usize = 0;
    let ghost mut j: int = 0;
    assert(all.skip(0) =~= all);
    while i < n
        invariant
            0 <= i <= n,
            n == items@.len(),
            parts == texts(items@),
            t == sep.rendered(),
            all == pieces(parts, t),
            start == old(out)@,
            j == (if i == 0 {
                0
            } else {
                2 * i - 1
            }),
            run::<W>(start, all) == run::<W>(out@, all.skip(j)),
        decreases n - i,
    {
        if i > 0 {
            assert(all[j] == t);
            assert(all.skip(j)[0] == all[j]);
            assert(all.skip(j).drop_first() =~= all.skip(j + 1));
            let done = sep.render_to(out);
            if done.is_err() {
                return done;
            }
            proof {
                j = j + 1;
            }
        }
        let item = &items[i];
        assert(parts[i as int] == item.rendered());
        assert(all[j] == parts[i as int]);
        assert(all.skip(j)[0] == all[j]);
        assert(all.skip(j).drop_first() =~= all.skip(j + 1));
        let ghost cur = out@;
        assert(run::<W>(cur, all.skip(j)) == (if W::admits(cur, all[j]) {
            run::<W>(W::after(cur, all[j]), all.skip(j + 1))
        } else {
            (cur, false)
        }));
        let done = item.render_to(out);
        if done.is_err() {
            return done;
        }
        proof {
            j = j + 1;
        }
        i = i + 1;
    }
    assert(all.skip(j) =~= Seq::<Seq<char>>::empty());
    Ok(())
}

/// The items' text joined with `sep`, as a new string.
pub fn join_with<T: Render, S: Render>(items: &[T], sep: &S) -> (r: String)
    ensures
        r@ == joined(texts(items@), sep.rendered()),
{
    let mut out = String::new();
    let ghost all = pieces(texts(items@), sep.rendered());
    let _ = join_into(&mut out, items, sep);
    proof {
        lemma_run_total::<String>(Seq::empty(), all);
        lemma_run_ok::<String>(Seq::empty(), all);
        assert(Seq::<char>::empty() + concat(all) =~= concat(all));
    }
    out
}

/// Joining no items gives the empty text, whatever the separator.
pub proof fn law_join_empty(sep: Seq<char>)
    ensures
        joined(Seq::empty(), sep) == Seq::<char>::empty(),
{
    assert(pieces(Seq::empty(), sep) =~= Seq::<Seq<char>>::empty());
}

/// Joining a single item gives that item's text unchanged: the separator
/// never appears.
pub proof fn law_join_single(item: Seq<char>, sep: Seq<char>)
    ensures
        joined(seq![item], sep) == item,
{
    assert(pieces(seq![item], sep) =~= Seq::<Seq<char>>::empty().push(item));
    lemma_concat_push(Seq::empty(), item);
    assert(Seq::<char>::empty() + item =~= item);
}

/// The joined text is the literal concatenation of the items with the
/// separator between each two neighbours: one more item after a nonempty
/// join adds the separator and then that item's text.
pub proof fn law_join_push(items: Seq<Seq<char>>, item: Seq<char>, sep: Seq<char>)
    requires
        items.len() > 0,
    ensures
        joined(items.push(item), sep) == joined(items, sep) + sep + item,
{
    lemma_pieces_step(items, sep, item);
    lemma_concat_push(pieces(items, sep).push(sep), item);
    lemma_concat_push(pieces(items, sep), sep);
}

/// A join whose writes all go through leaves the sink holding its old text
/// followed by the joined text.
pub proof fn law_join_written<W: Sink>(v: W::V, items: Seq<Seq<char>>, sep: Seq<char>)
    requires
        run::<W>(v, pieces(items, sep)).1,
    ensures
        W::held(run::<W>(v, pieces(items, sep)).0) == W::held(v) + joined(items, sep),
{
    lemma_run_ok::<W>(v, pieces(items, sep));
}

/// A join keeps no hidden state: joining the same items with the same
/// separator a second time, into the sink the first join left, writes the
/// same text again.
pub proof fn law_join_repeatable<W: Sink>(v: W::V, items: Seq<Seq<char>>, sep: Seq<char>)
    requires
        run::<W>(v, pieces(items, sep)).1,
        run::<W>(run::<W>(v, pieces(items, sep)).0, pieces(items, sep)).1,
    ensures
        W::held(run::<W>(run::<W>(v, pieces(items, sep)).0, pieces(items, sep)).0) == W::held(v)
            + joined(items, sep) + joined(items, sep),
{
    let all = pieces(items, sep);
    let mid = run::<W>(v, all).0;
    lemma_run_ok::<W>(v, all);
    lemma_run_ok::<W>(mid, all);
}

proof fn lemma_run_stops<W: Sink>(v: W::V, parts: Seq<Seq<char>>) -> (k: int)
    requires
        !run::<W>(v, parts).1,
    ensures
        0 <= k < parts.len(),
        run::<W>(v, parts.take(k)) == (run::<W>(v, parts).0, true),
        !W::admits(run::<W>(v, parts).0, parts[k]),
    decreases parts.len(),
{
    if !W::admits(v, parts[0]) {
        assert(parts.take(0) =~= Seq::<Seq<char>>::empty());
        0
    } else {
        let rest = parts.drop_first();
        let k = lemma_run_stops::<W>(W::after(v, parts[0]), rest);
        assert(parts.take(k + 1).drop_first() =~= rest.take(k));
        k + 1
    }
}

/// A join that fails stops at the first refused write: the writes before it
/// all went through and leave the sink exactly as the join left it, that
/// write was refused, and nothing after it was written.
pub proof fn law_join_fail_fast<W: Sink>(v: W::V, items: Seq<Seq<char>>, sep: Seq<char>)
    requires
        !run::<W>(v, pieces(items, sep)).1,
    ensures
        exists|k: int|
            0 <= k < pieces(items, sep).len() && run::<W>(v, #[trigger] pieces(items, sep).take(k))
                == (run::<W>(v, pieces(items, sep)).0, true) && !W::admits(
                run::<W>(v, pieces(items, sep)).0,
                pieces(items, sep)[k],
            ),
{
    let k = lemma_run_stops::<W>(v, pieces(items, sep));
    assert(run::<W>(v, pieces(items, sep).take(k)) == (run::<W>(v, pieces(items, sep)).0, true));
}

} // verus!
