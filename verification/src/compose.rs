//! Joining the status-line segments: empty segments are dropped, the
//! survivors keep their order and are separated by `" • "`.

use vstd::prelude::*;
use vstd::string::StringExecFns;

verus! {

/// One joining step: an empty segment contributes nothing; the first
/// surviving segment starts the line; every later survivor is preceded
/// by the three-character separator `" • "`.
pub open spec fn join_step(acc: Seq<char>, seg: Seq<char>) -> Seq<char> {
    if seg.len() == 0 {
        acc
    } else if acc.len() == 0 {
        seg
    } else {
        acc + " • "@ + seg
    }
}

/// Folds the segments from the left into an accumulator.
pub open spec fn join_from(acc: Seq<char>, segs: Seq<Seq<char>>) -> Seq<char>
    decreases segs.len(),
{
    if segs.len() == 0 {
        acc
    } else {
        join_from(join_step(acc, segs[0]), segs.drop_first())
    }
}

/// The composed status line: all segments folded from an empty line.
pub open spec fn spec_compose(segs: Seq<Seq<char>>) -> Seq<char> {
    join_from(Seq::empty(), segs)
}

/// Joins the non-empty components with `" • "`, keeping their order;
/// empty components never contribute a stray separator.
pub fn make_status(components: &Vec<String>) -> (r: String)
    ensures
        r@ == spec_compose(components.deep_view()),
{
    let ghost all: Seq<Seq<char>> = components.deep_view();
    let mut r = String::new();
    let mut i: usize = 0;
    proof {
        assert(all.subrange(0, all.len() as int) =~= all);
    }
    while i < components.len()
        invariant
            i <= components.len(),
            all == components.deep_view(),
            spec_compose(all) == join_from(r@, all.subrange(i as int, all.len() as int)),
        decreases components.len() - i,
    {
        let ghost rest: Seq<Seq<char>> = all.subrange(i as int, all.len() as int);
        let ghost seg: Seq<char> = components[i as int]@;
        let ghost acc0: Seq<char> = r@;
        proof {
            assert(rest.drop_first() =~= all.subrange(i + 1, all.len() as int));
            assert(rest[0] == seg);
            assert(join_from(acc0, rest) == join_from(join_step(acc0, seg), rest.drop_first()));
        }
        if !components[i].as_str().is_empty() {
            if !r.as_str().is_empty() {
                r.append(" • ");
            }
            r.append(components[i].as_str());
            proof {
                if acc0.len() == 0 {
                    assert(r@ =~= seg);
                }
                assert(r@ == join_step(acc0, seg));
            }
        }
        i += 1;
    }
    proof {
        assert(all.subrange(all.len() as int, all.len() as int) =~= Seq::<Seq<char>>::empty());
    }
    r
}

/// The segment list with its empty segments removed, order kept.
pub open spec fn drop_empty(segs: Seq<Seq<char>>) -> Seq<Seq<char>>
    decreases segs.len(),
{
    if segs.len() == 0 {
        Seq::empty()
    } else if segs[0].len() == 0 {
        drop_empty(segs.drop_first())
    } else {
        seq![segs[0]] + drop_empty(segs.drop_first())
    }
}

proof fn lemma_join_from_drop_empty(acc: Seq<char>, segs: Seq<Seq<char>>)
    ensures
        join_from(acc, segs) == join_from(acc, drop_empty(segs)),
    decreases segs.len(),
{
    if segs.len() == 0 {
    } else if segs[0].len() == 0 {
        lemma_join_from_drop_empty(acc, segs.drop_first());
    } else {
        lemma_join_from_drop_empty(join_step(acc, segs[0]), segs.drop_first());
        let kept = seq![segs[0]] + drop_empty(segs.drop_first());
        assert(kept[0] == segs[0]);
        assert(kept.drop_first() =~= drop_empty(segs.drop_first()));
    }
}

/// Law: empty segments never contribute a stray separator — composing
/// any segment list gives the same line as composing the list with its
/// empty segments removed.
pub proof fn lemma_compose_skips_empty(segs: Seq<Seq<char>>)
    ensures
        spec_compose(segs) == spec_compose(drop_empty(segs)),
{
    lemma_join_from_drop_empty(Seq::empty(), segs);
}

/// The status-line composer of the library: filters out empty segments
/// and joins the rest with the fixed `" • "` separator.
pub struct StatusLineComposer;

impl StatusLineComposer {
    /// Same contract as `make_status`: the composed line is exactly the
    /// left fold of the segments.
    pub fn compose(segments: &Vec<String>) -> (r: String)
        ensures
            r@ == spec_compose(segments.deep_view()),
    {
        make_status(segments)
    }
}

} // verus!
