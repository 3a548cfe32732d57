use vstd::prelude::*;
use crate::error::Error;
use crate::error::ErrorView;
use crate::error::MAX_RENDERED_CANDIDATES;
use crate::error::candidate_block;
use crate::error::resolution_message;
use crate::host::FormatFailure;
use crate::host::IoFailure;
use crate::pos::Pos;
use vstd::std_specs::cmp::PartialEqSpec;
use vstd::std_specs::convert::FromSpec;

verus! {

/// Aggregating no candidate failures yields the bare header: nothing
/// follows the colon.
pub proof fn lemma_empty_aggregation(name: Seq<char>)
    ensures
        resolution_message(name, Seq::empty()) == "Arguments passed to "@ + name
            + " do not match any of the overloads:"@,
{
    assert(resolution_message(name, Seq::empty()) =~= "Arguments passed to "@ + name
        + " do not match any of the overloads:"@);
}

/// The truncation marker closes the message exactly when more candidates
/// were collected than are rendered; the rendered block always holds the
/// first `min(N, MAX_RENDERED_CANDIDATES)` texts, in their original order.
pub proof fn lemma_truncation_marker(name: Seq<char>, texts: Seq<Seq<char>>)
    ensures
        texts.len() > MAX_RENDERED_CANDIDATES ==> resolution_message(name, texts)
            == "Arguments passed to "@ + name + " do not match any of the overloads:"@
            + candidate_block(texts.take(MAX_RENDERED_CANDIDATES as int)) + "\n...and more"@,
        texts.len() <= MAX_RENDERED_CANDIDATES ==> resolution_message(name, texts)
            == "Arguments passed to "@ + name + " do not match any of the overloads:"@
            + candidate_block(texts),
{
    if texts.len() > MAX_RENDERED_CANDIDATES {
        assert(resolution_message(name, texts) =~= "Arguments passed to "@ + name
            + " do not match any of the overloads:"@ + candidate_block(
            texts.take(MAX_RENDERED_CANDIDATES as int),
        ) + "\n...and more"@);
    }
}

/// Each candidate text of the block takes one line: a line break, one
/// space, then the text itself, in the candidates' original order.
pub proof fn lemma_candidate_lines(texts: Seq<Seq<char>>, i: int)
    requires
        0 <= i < texts.len(),
    ensures
        candidate_block(texts.take(i + 1)) == candidate_block(texts.take(i)) + "\n "@ + texts[i],
{
    crate::error::lemma_candidate_block_push(texts, i);
}

/// The rendered block of `texts` never exceeds `texts.len()` lines of at
/// most `2 + cap` characters each.
proof fn lemma_candidate_block_bounded(texts: Seq<Seq<char>>, cap: nat)
    requires
        forall|i: int| 0 <= i < texts.len() ==> #[trigger] texts[i].len() <= cap,
    ensures
        candidate_block(texts).len() <= texts.len() * (2 + cap),
    decreases texts.len(),
{
    reveal_strlit("\n ");
    if texts.len() == 0 {
    } else {
        let pre = texts.drop_last();
        assert(forall|i: int| 0 <= i < pre.len() ==> #[trigger] pre[i].len() <= cap);
        lemma_candidate_block_bounded(pre, cap);
        assert(texts.last().len() <= cap);
        let n = texts.len();
        assert((n - 1) * (2 + cap) + (2 + cap) == n * (2 + cap)) by (nonlinear_arith);
    }
}

/// However many candidates were rejected, the aggregated message stays
/// bounded: with every candidate text at most `cap` characters long, the
/// message never outgrows the header, ten rendered lines and the marker.
pub proof fn lemma_resolution_message_bounded(name: Seq<char>, texts: Seq<Seq<char>>, cap: nat)
    requires
        forall|i: int| 0 <= i < texts.len() ==> #[trigger] texts[i].len() <= cap,
    ensures
        resolution_message(name, texts).len() <= 67 + name.len() + 10 * (2 + cap),
{
    reveal_strlit("Arguments passed to ");
    reveal_strlit(" do not match any of the overloads:");
    reveal_strlit("\n...and more");
    if texts.len() > MAX_RENDERED_CANDIDATES {
        let selected = texts.take(MAX_RENDERED_CANDIDATES as int);
        assert(forall|i: int| 0 <= i < selected.len() ==> #[trigger] selected[i].len() <= cap);
        lemma_candidate_block_bounded(selected, cap);
    } else {
        lemma_candidate_block_bounded(texts, cap);
        assert(texts.len() * (2 + cap) <= 10 * (2 + cap)) by (nonlinear_arith)
            requires
                texts.len() <= 10,
        ;
    }
}

/// Wrapping a raw I/O failure is lossless: by its specification,
/// `Error::from` stores the failure value itself, unmodified, so unwrapping
/// the diagnostic gives back exactly what was put in.
pub proof fn lemma_io_wrap_round_trip(x: IoFailure)
    ensures
        <Error as FromSpec<IoFailure>>::obeys_from_spec(),
        <Error as FromSpec<IoFailure>>::from_spec(x) == Error::IoError(x),
{
}

/// Wrapping a text-formatting failure is lossless in the same way.
pub proof fn lemma_format_wrap_round_trip(x: FormatFailure)
    ensures
        <Error as FromSpec<FormatFailure>>::obeys_from_spec(),
        <Error as FromSpec<FormatFailure>>::from_spec(x) == Error::FormatError(x),
{
}

/// Equality of diagnostics decides equality of their mathematical values.
/// Every constructor's contract fixes that value as a function of the
/// argument values alone, so two calls of one constructor on identical
/// arguments yield diagnostics that compare equal.
pub proof fn lemma_eq_decides_value(a: &Error, b: &Error)
    ensures
        a.eq_spec(b) <==> a@ == b@,
{
}

/// A batch diagnostic records exactly the positions it was given: the same
/// positions, in the same order, retrievable unchanged.
pub proof fn lemma_multiple_preserves_positions(positions: Vec<Pos>)
    ensures
        (Error::MultipleErrors(positions))@ == ErrorView::MultipleErrors(positions@),
{
}

} // verus!
