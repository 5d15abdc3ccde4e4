use vstd::prelude::*;

verus! {

/// The text of each string, in order.
pub open spec fn lines_of(v: Seq<String>) -> Seq<Seq<char>> {
    v.map_values(|s: String| s@)
}

/// What one call of `next` hands out for a reader whose remaining lines are
/// `pending`: the first of them, or nothing once none is left.
pub open spec fn first_line(pending: Seq<Seq<char>>) -> Option<Seq<char>> {
    if pending.len() == 0 {
        None
    } else {
        Some(pending[0])
    }
}

/// What is left to read after one call of `next`.
pub open spec fn after_next(pending: Seq<Seq<char>>) -> Seq<Seq<char>> {
    if pending.len() == 0 {
        pending
    } else {
        pending.drop_first()
    }
}

/// The text of a line handed out by `next`.
pub open spec fn line_text(line: Option<String>) -> Option<Seq<char>> {
    match line {
        Some(s) => Some(s@),
        None => None,
    }
}

/// A source of lines, produced one per call in source order.
pub trait DataReader: Sized {
    /// The lines this reader has still to produce, in order.
    spec fn pending(&self) -> Seq<Seq<char>>;

    /// Produces the next line, or `None` once the source is exhausted; an
    /// exhausted source stays exhausted.
    fn next(&mut self) -> (line: Option<String>)
        ensures
            line_text(line) == first_line(old(self).pending()),
            final(self).pending() == after_next(old(self).pending()),
    ;
}

/// The results of `n` successive calls of `next` on a reader whose remaining
/// lines are `pending`.
pub open spec fn reads(pending: Seq<Seq<char>>, n: nat) -> Seq<Option<Seq<char>>>
    decreases n,
{
    if n == 0 {
        Seq::empty()
    } else {
        seq![first_line(pending)] + reads(after_next(pending), (n - 1) as nat)
    }
}

/// Reading a source to its end gives back its lines in their order, and every
/// further call reports the end of the data.
pub proof fn lemma_drain_reproduces_lines(lines: Seq<Seq<char>>, extra: nat)
    ensures
        reads(lines, lines.len() + extra) == lines.map_values(|l: Seq<char>| Some(l)) + Seq::new(
            extra,
            |i: int| None::<Seq<char>>,
        ),
    decreases lines.len(),
{
    if lines.len() == 0 {
        lemma_exhausted_stays_exhausted(lines, extra);
        assert(lines.map_values(|l: Seq<char>| Some(l)) =~= Seq::empty());
        assert(reads(lines, extra) =~= lines.map_values(|l: Seq<char>| Some(l)) + Seq::new(
            extra,
            |i: int| None::<Seq<char>>,
        ));
    } else {
        let rest = lines.drop_first();
        lemma_drain_reproduces_lines(rest, extra);
        assert(lines.len() + extra == (rest.len() + extra) + 1);
        assert(reads(lines, lines.len() + extra) == seq![Some(lines[0])] + reads(
            rest,
            rest.len() + extra,
        ));
        assert(lines.map_values(|l: Seq<char>| Some(l)) =~= seq![Some(lines[0])]
            + rest.map_values(|l: Seq<char>| Some(l)));
        assert(reads(lines, lines.len() + extra) =~= lines.map_values(|l: Seq<char>| Some(l))
            + Seq::new(extra, |i: int| None::<Seq<char>>));
    }
}

/// Once no line is left, every call of `next` reports the end of the data.
pub proof fn lemma_exhausted_stays_exhausted(pending: Seq<Seq<char>>, n: nat)
    requires
        pending.len() == 0,
    ensures
        reads(pending, n) == Seq::new(n, |i: int| None::<Seq<char>>),
    decreases n,
{
    if n > 0 {
        lemma_exhausted_stays_exhausted(pending, (n - 1) as nat);
        assert(reads(pending, n) =~= Seq::new(n, |i: int| None::<Seq<char>>));
    } else {
        assert(reads(pending, n) =~= Seq::new(n, |i: int| None::<Seq<char>>));
    }
}

} // verus!
