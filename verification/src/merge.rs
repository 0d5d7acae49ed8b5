//! The merged output of a run: the highest confidence wins.
use crate::json::{json_text, null};
use crate::prompt::SoulResult;
use vstd::prelude::*;

verus! {

/// Whether some confidence among `results[from ..= to]` is a NaN.
pub open spec fn unordered_between(results: Seq<SoulResult>, from: int, to: int) -> bool {
    exists|k: int| from <= k <= to && (#[trigger] results[k]).confidence.not_a_number()
}

/// Whether `results[w]` is the one whose output is merged: its confidence
/// exceeds that of every later result, and that of no earlier result exceeds
/// it. A NaN compares with nothing: what stands before it is out of the race, and
/// it wins itself only as the last of all.
pub open spec fn prevails(results: Seq<SoulResult>, w: int) -> bool {
    &&& 0 <= w < results.len()
    &&& forall|j: int|
        w < j < results.len() ==> results[w].confidence.outranks(
            (#[trigger] results[j]).confidence,
        )
    &&& forall|j: int|
        0 <= j < w && !unordered_between(results, j, w) ==> (
        #[trigger] results[j]).confidence.rank() <= results[w].confidence.rank()
}

/// The result whose output is merged.
pub open spec fn winner(results: Seq<SoulResult>) -> int {
    choose|w: int| prevails(results, w)
}

/// The merged output of `results`: the winner's, or null where there is none.
pub open spec fn merged_output(results: Seq<SoulResult>) -> serde_json::Value {
    if results.len() == 0 {
        json_text(None)
    } else {
        results[winner(results)].output
    }
}

/// No two results prevail.
pub proof fn law_one_result_prevails(results: Seq<SoulResult>, v: int, w: int)
    requires
        prevails(results, v),
        prevails(results, w),
    ensures
        v == w,
{
    if v < w {
        lemma_later_does_not_prevail(results, v, w);
    } else if w < v {
        lemma_later_does_not_prevail(results, w, v);
    }
}

proof fn lemma_later_does_not_prevail(results: Seq<SoulResult>, v: int, w: int)
    requires
        prevails(results, v),
        v < w,
    ensures
        !prevails(results, w),
{
    if prevails(results, w) {
        let _ = results[w];
        assert(!unordered_between(results, v, w)) by {
            if unordered_between(results, v, w) {
                let k = choose|k: int|
                    v <= k <= w && (#[trigger] results[k]).confidence.not_a_number();
            }
        }
        let _ = results[v];
    }
}

/// A further result takes the race unless the one that prevailed so far exceeds it.
proof fn lemma_prevails_with_one_more(results: Seq<SoulResult>, w: int)
    requires
        results.len() > 0,
        prevails(results.drop_last(), w),
    ensures
        results[w].confidence.outranks(results.last().confidence) ==> prevails(results, w),
        !results[w].confidence.outranks(results.last().confidence) ==> prevails(
            results,
            results.len() - 1,
        ),
{
    let rest = results.drop_last();
    let last = results.len() - 1;
    let next = if results[w].confidence.outranks(results[last].confidence) { w } else { last };
    assert forall|j: int| next < j < results.len() implies results[next].confidence.outranks(
        (#[trigger] results[j]).confidence,
    ) by {
        if j < last {
            assert(rest[j] == results[j]);
        }
    }
    assert forall|j: int| 0 <= j < next && !unordered_between(results, j, next) implies (
    #[trigger] results[j]).confidence.rank() <= results[next].confidence.rank() by {
        assert(rest[j] == results[j]);
        assert(!results[j].confidence.not_a_number());
        assert(!results[next].confidence.not_a_number());
        if j < w {
            assert(!results[w].confidence.not_a_number());
            assert(!unordered_between(rest, j, w)) by {
                if unordered_between(rest, j, w) {
                    let k = choose|k: int|
                        j <= k <= w && (#[trigger] rest[k]).confidence.not_a_number();
                    assert(results[k].confidence.not_a_number());
                }
            }
        }
    }
}

/// Picks the result whose output is merged, by its index.
pub fn prevailing(results: &[SoulResult]) -> (index: Option<usize>)
    ensures
        index is None <==> results@.len() == 0,
        index matches Some(w) ==> prevails(results@, w as int) && w == winner(results@),
{
    if results.len() == 0 {
        return None;
    }
    let mut best: usize = 0;
    let mut next: usize = 1;
    while next < results.len()
        invariant
            0 < next <= results.len(),
            prevails(results@.take(next as int), best as int),
        decreases results.len() - next,
    {
        proof {
            assert(results@.take(next + 1).drop_last() == results@.take(next as int));
            lemma_prevails_with_one_more(results@.take(next + 1), best as int);
        }
        if !results[best].confidence.exceeds(&results[next].confidence) {
            best = next;
        }
        next = next + 1;
    }
    assert(results@.take(next as int) == results@);
    proof {
        law_one_result_prevails(results@, best as int, winner(results@));
    }
    Some(best)
}

/// The output of the result with the highest confidence, null where there is no
/// result.
pub fn merge_results(results: &[SoulResult]) -> (merged: serde_json::Value)
    ensures
        merged == merged_output(results@),
        results@.len() == 0 ==> merged == json_text(None),
        results@.len() > 0 ==> exists|w: int|
            #[trigger] prevails(results@, w) && merged == results@[w].output,
{
    match prevailing(results) {
        None => null(),
        Some(w) => results[w].output.clone(),
    }
}

/// Some result prevails, wherever there is one.
pub proof fn law_some_result_prevails(results: Seq<SoulResult>)
    requires
        results.len() > 0,
    ensures
        prevails(results, winner(results)),
    decreases results.len(),
{
    let last = results.len() - 1;
    if last == 0 {
        assert(prevails(results, 0));
    } else {
        let rest = results.drop_last();
        law_some_result_prevails(rest);
        lemma_prevails_with_one_more(results, winner(rest));
    }
}

/// The highest confidence wins: where every confidence is a number, the output
/// merged is that of a result which none exceeds, the last of these.
pub proof fn law_highest_confidence_wins(results: Seq<SoulResult>)
    requires
        results.len() > 0,
        forall|i: int|
            0 <= i < results.len() ==> !(#[trigger] results[i]).confidence.not_a_number(),
    ensures
        0 <= winner(results) < results.len(),
        merged_output(results) == results[winner(results)].output,
        forall|i: int|
            0 <= i < results.len() ==> (#[trigger] results[i]).confidence.rank()
                <= results[winner(results)].confidence.rank(),
        forall|i: int|
            winner(results) < i < results.len() ==> (#[trigger] results[i]).confidence.rank()
                < results[winner(results)].confidence.rank(),
{
    law_some_result_prevails(results);
}

/// A result alone is the one merged, whatever its confidence.
pub proof fn law_single_result_is_merged(result: SoulResult)
    ensures
        merged_output(seq![result]) == result.output,
{
    law_some_result_prevails(seq![result]);
}

/// A further result takes over unless the confidence of the one merged so far is strictly the
/// greater number; then the merged output stays what it was.
pub proof fn law_one_more_result(results: Seq<SoulResult>, more: SoulResult)
    requires
        results.len() > 0,
    ensures
        ({
            let best = results[winner(results)];
            let x = best.confidence.bits;
            let y = more.confidence.bits;
            let above = {
                &&& x <= 0x7F80_0000 || 0x8000_0000 <= x <= 0xFF80_0000
                &&& y <= 0x7F80_0000 || 0x8000_0000 <= y <= 0xFF80_0000
                &&& if x < 0x8000_0000 && y < 0x8000_0000 {
                    x > y
                } else if x >= 0x8000_0000 && y >= 0x8000_0000 {
                    x < y
                } else {
                    x < 0x8000_0000 && (x != 0 || y != 0x8000_0000)
                }
            };
            &&& 0 <= winner(results) < results.len()
            &&& merged_output(results) == best.output
            &&& above ==> winner(results.push(more)) == winner(results) && merged_output(
                results.push(more),
            ) == merged_output(results)
            &&& !above ==> winner(results.push(more)) == results.len() && merged_output(
                results.push(more),
            ) == more.output
        }),
{
    let all = results.push(more);
    law_some_result_prevails(results);
    law_some_result_prevails(all);
    assert(all.drop_last() =~= results);
    lemma_prevails_with_one_more(all, winner(results));
    if all[winner(results)].confidence.outranks(more.confidence) {
        law_one_result_prevails(all, winner(all), winner(results));
    } else {
        law_one_result_prevails(all, winner(all), all.len() - 1);
    }
}

/// Where no confidence is negative or a NaN, the output merged is that of a result whose
/// confidence bits none exceeds, and which all later ones stay below.
pub proof fn law_greatest_bits_win(results: Seq<SoulResult>)
    requires
        results.len() > 0,
        forall|i: int|
            0 <= i < results.len() ==> (#[trigger] results[i]).confidence.bits <= 0x7F80_0000,
    ensures
        exists|w: int|
            {
                &&& 0 <= w < results.len()
                &&& merged_output(results) == (#[trigger] results[w]).output
                &&& forall|i: int|
                    0 <= i < results.len() ==> (#[trigger] results[i]).confidence.bits
                        <= results[w].confidence.bits
                &&& forall|i: int|
                    w < i < results.len() ==> (#[trigger] results[i]).confidence.bits
                        < results[w].confidence.bits
            },
{
    law_highest_confidence_wins(results);
    let w = winner(results);
    assert(merged_output(results) == results[w].output);
}

/// Nothing merges to null.
pub proof fn law_nothing_merges_to_null()
    ensures
        merged_output(Seq::empty()) == json_text(None),
{
}

} // verus!
