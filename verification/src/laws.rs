//! Properties of the extractor, stated and proved once for all inputs.

use vstd::prelude::*;
use crate::decimal::{parse_u64, ParseFailure};
use crate::extract::{extract_model, ErrorModel, IdentifierModel};
use crate::text::{segments, trim_angles};

verus! {

/// An event with no record at all always fails with `NoRecord`.
pub proof fn lemma_empty_event_fails(ids: Seq<Option<Seq<char>>>)
    requires
        ids.len() == 0,
    ensures
        extract_model(ids) == Err::<IdentifierModel, ErrorModel>(ErrorModel::NoRecord),
{
}

/// An event whose first record carries no message id always fails with
/// `NoMessageId`.
pub proof fn lemma_absent_message_id_fails(ids: Seq<Option<Seq<char>>>)
    requires
        ids.len() > 0,
        ids[0] is None,
    ensures
        extract_model(ids) == Err::<IdentifierModel, ErrorModel>(ErrorModel::NoMessageId),
{
}

/// A well-formed message id always extracts: whenever the trimmed first
/// message id splits into at least four `'/'`-separated segments and the
/// fourth segment parses as a decimal `u64`, extraction succeeds, with the
/// owner and repository taken verbatim from the first two segments and the
/// issue number from the fourth.
pub proof fn lemma_well_formed_id_extracts(ids: Seq<Option<Seq<char>>>, mid: Seq<char>, n: u64)
    requires
        ids.len() > 0,
        ids[0] == Option::Some(mid),
        segments(trim_angles(mid)).len() >= 4,
        parse_u64(segments(trim_angles(mid))[3]) == Ok::<u64, ParseFailure>(n),
    ensures
        extract_model(ids) == Ok::<IdentifierModel, ErrorModel>(
            IdentifierModel {
                owner: segments(trim_angles(mid))[0],
                repo: segments(trim_angles(mid))[1],
                issue_number: n,
            },
        ),
{
}

/// A first message id that, after trimming, splits into fewer than four
/// segments always fails as malformed, quoting the original, untrimmed
/// message id.
pub proof fn lemma_too_few_segments_fails(ids: Seq<Option<Seq<char>>>, mid: Seq<char>)
    requires
        ids.len() > 0,
        ids[0] == Option::Some(mid),
        segments(trim_angles(mid)).len() < 4,
    ensures
        extract_model(ids) == Err::<IdentifierModel, ErrorModel>(
            ErrorModel::MalformedMessageId { raw: mid },
        ),
{
}

/// A fourth segment that is not a strict decimal `u64` always fails as an
/// invalid issue number, quoting that segment and the reason the parse
/// failed.
pub proof fn lemma_bad_issue_number_fails(
    ids: Seq<Option<Seq<char>>>,
    mid: Seq<char>,
    cause: ParseFailure,
)
    requires
        ids.len() > 0,
        ids[0] == Option::Some(mid),
        segments(trim_angles(mid)).len() >= 4,
        parse_u64(segments(trim_angles(mid))[3]) == Err::<u64, ParseFailure>(cause),
    ensures
        extract_model(ids) == Err::<IdentifierModel, ErrorModel>(
            ErrorModel::InvalidIssueNumber { raw: segments(trim_angles(mid))[3], cause },
        ),
{
}

/// Extraction is a pure function of the event's message ids: `extract`'s
/// contract ties its result to `extract_model`, so any two runs over events
/// with the same message ids yield the same outcome.
pub proof fn lemma_extract_deterministic(
    ids1: Seq<Option<Seq<char>>>,
    ids2: Seq<Option<Seq<char>>>,
)
    requires
        ids1 == ids2,
    ensures
        extract_model(ids1) == extract_model(ids2),
{
}

/// Trimming is tolerant: a message id that neither begins with `'<'` nor
/// ends with `'>'` (in particular, one with no angle brackets at all) and
/// the same id wrapped in both brackets trim to the same text.
pub proof fn lemma_trim_tolerant(inner: Seq<char>)
    requires
        inner.len() == 0 || (inner[0] != '<' && inner[inner.len() - 1] != '>'),
    ensures
        trim_angles(inner) == inner,
        trim_angles(seq!['<'] + inner + seq!['>']) == inner,
{
    assert(trim_angles(inner) =~= inner);
    let b = seq!['<'] + inner + seq!['>'];
    assert(b[0] == '<');
    assert(b.skip(1).last() == '>');
    assert(trim_angles(b) =~= inner);
}

/// Bracketing does not change the outcome: an event whose first message id
/// is a bare identifier and one whose first message id is the same
/// identifier wrapped in angle brackets extract identically, as long as the
/// identifier splits into at least four segments. (Below four segments both
/// fail as malformed, but each failure quotes its own raw message id.)
pub proof fn lemma_bracketing_preserves_extraction(
    ids_plain: Seq<Option<Seq<char>>>,
    ids_bracketed: Seq<Option<Seq<char>>>,
    inner: Seq<char>,
)
    requires
        ids_plain.len() > 0,
        ids_bracketed.len() > 0,
        ids_plain[0] == Option::Some(inner),
        ids_bracketed[0] == Option::Some(seq!['<'] + inner + seq!['>']),
        inner.len() == 0 || (inner[0] != '<' && inner[inner.len() - 1] != '>'),
        segments(inner).len() >= 4,
    ensures
        extract_model(ids_plain) == extract_model(ids_bracketed),
{
    lemma_trim_tolerant(inner);
}

} // verus!
