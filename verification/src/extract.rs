//! The identifier extractor: from an email event to a structured identifier
//! or a classified failure.

use vstd::prelude::*;
use vstd::string::StringExecFns;
use crate::decimal::{parse_decimal, parse_u64, ParseFailure};
use crate::event::EmailEvent;
use crate::text::{segments, split_slashes, string_views, trim_angle_brackets, trim_angles};

verus! {

/// The successful outcome: owner and repository taken verbatim from the
/// message id, and the issue number parsed from its fourth segment.
#[derive(Debug, PartialEq, Eq)]
pub struct ParsedIdentifier {
    pub owner: String,
    pub repo: String,
    pub issue_number: u64,
}

/// The mathematical value of a `ParsedIdentifier`.
pub struct IdentifierModel {
    pub owner: Seq<char>,
    pub repo: Seq<char>,
    pub issue_number: u64,
}

impl View for ParsedIdentifier {
    type V = IdentifierModel;

    open spec fn view(&self) -> IdentifierModel {
        IdentifierModel { owner: self.owner@, repo: self.repo@, issue_number: self.issue_number }
    }
}

/// Why no identifier could be extracted. Every failure is terminal and
/// carries the raw text a caller needs to diagnose it.
#[derive(Debug, PartialEq, Eq)]
pub enum ExtractionError {
    /// The event carries no record at all.
    NoRecord,
    /// The first record carries no message id.
    NoMessageId,
    /// After trimming, the message id splits into fewer than four segments;
    /// `raw` is the original, untrimmed message id.
    MalformedMessageId { raw: String },
    /// The fourth segment is not a decimal `u64`; `raw` is that segment.
    InvalidIssueNumber { raw: String, cause: ParseFailure },
}

/// The mathematical value of an `ExtractionError`.
pub enum ErrorModel {
    NoRecord,
    NoMessageId,
    MalformedMessageId { raw: Seq<char> },
    InvalidIssueNumber { raw: Seq<char>, cause: ParseFailure },
}

impl View for ExtractionError {
    type V = ErrorModel;

    open spec fn view(&self) -> ErrorModel {
        match self {
            ExtractionError::NoRecord => ErrorModel::NoRecord,
            ExtractionError::NoMessageId => ErrorModel::NoMessageId,
            ExtractionError::MalformedMessageId { raw } => ErrorModel::MalformedMessageId {
                raw: raw@,
            },
            ExtractionError::InvalidIssueNumber { raw, cause } => ErrorModel::InvalidIssueNumber {
                raw: raw@,
                cause: *cause,
            },
        }
    }
}

/// The diagnostic text for a parse failure.
pub open spec fn parse_failure_text(c: ParseFailure) -> Seq<char> {
    match c {
        ParseFailure::Empty => "empty string"@,
        ParseFailure::NonDigit => "invalid digit"@,
        ParseFailure::Overflow => "number too large"@,
    }
}

/// The human-readable message for an extraction failure; the malformed and
/// invalid-number failures quote the offending raw text.
pub open spec fn error_message(e: ErrorModel) -> Seq<char> {
    match e {
        ErrorModel::NoRecord => "No email record found"@,
        ErrorModel::NoMessageId => "No message id found"@,
        ErrorModel::MalformedMessageId { raw } => "Malformed message id: "@ + raw,
        ErrorModel::InvalidIssueNumber { raw, cause } => "Error parsing issue number: "@
            + parse_failure_text(cause) + ": "@ + raw,
    }
}

impl ExtractionError {
    /// Render this failure as its human-readable message.
    pub fn message(&self) -> (m: String)
        ensures
            m@ == error_message(self@),
    {
        match self {
            ExtractionError::NoRecord => String::from_str("No email record found"),
            ExtractionError::NoMessageId => String::from_str("No message id found"),
            ExtractionError::MalformedMessageId { raw } => {
                let mut m = String::from_str("Malformed message id: ");
                m.append(raw.as_str());
                m
            },
            ExtractionError::InvalidIssueNumber { raw, cause } => {
                let mut m = String::from_str("Error parsing issue number: ");
                let t: &str = match cause {
                    ParseFailure::Empty => "empty string",
                    ParseFailure::NonDigit => "invalid digit",
                    ParseFailure::Overflow => "number too large",
                };
                m.append(t);
                m.append(": ");
                m.append(raw.as_str());
                m
            },
        }
    }
}

/// What extraction returns, stated over the event's message ids alone.
///
/// The pipeline: fail on an empty event, fail on an absent message id, trim
/// one optional `'<'` and `'>'` from the first record's message id, split on
/// `'/'`, require at least four segments, and parse the fourth as a decimal
/// `u64`. Segment two is reserved and skipped. Later records are ignored:
/// the first record wins.
pub open spec fn extract_model(ids: Seq<Option<Seq<char>>>) -> Result<
    IdentifierModel,
    ErrorModel,
> {
    if ids.len() == 0 {
        Err(ErrorModel::NoRecord)
    } else {
        match ids[0] {
            Option::None => Err(ErrorModel::NoMessageId),
            Option::Some(mid) => {
                let segs = segments(trim_angles(mid));
                if segs.len() < 4 {
                    Err(ErrorModel::MalformedMessageId { raw: mid })
                } else {
                    match parse_u64(segs[3]) {
                        Ok(n) => Ok(
                            IdentifierModel { owner: segs[0], repo: segs[1], issue_number: n },
                        ),
                        Err(cause) => Err(
                            ErrorModel::InvalidIssueNumber { raw: segs[3], cause },
                        ),
                    }
                }
            },
        }
    }
}

/// An extraction outcome, lifted to its mathematical value.
pub open spec fn result_model(r: Result<ParsedIdentifier, ExtractionError>) -> Result<
    IdentifierModel,
    ErrorModel,
> {
    match r {
        Ok(p) => Ok(p@),
        Err(e) => Err(e@),
    }
}

/// Extract the structured identifier encoded in the first record's message
/// id, or report exactly why none could be extracted.
pub fn extract(event: EmailEvent) -> (r: Result<ParsedIdentifier, ExtractionError>)
    ensures
        result_model(r) == extract_model(event@),
{
    if event.records.len() == 0 {
        return Err(ExtractionError::NoRecord);
    }
    let record = &event.records[0];
    let mid: &String = match &record.message_id {
        Option::None => {
            proof {
                assert(event@[0] == record@);
            }
            return Err(ExtractionError::NoMessageId);
        },
        Option::Some(m) => m,
    };
    proof {
        assert(event@[0] == record@);
    }
    let trimmed = trim_angle_brackets(mid.as_str());
    let parts = split_slashes(trimmed);
    proof {
        assert(string_views(parts@) == segments(trim_angles(mid@)));
    }
    if parts.len() < 4 {
        return Err(ExtractionError::MalformedMessageId { raw: mid.clone() });
    }
    proof {
        assert(parts@[3]@ == segments(trim_angles(mid@))[3]);
        assert(parts@[0]@ == segments(trim_angles(mid@))[0]);
        assert(parts@[1]@ == segments(trim_angles(mid@))[1]);
    }
    match parse_decimal(parts[3].as_str()) {
        Err(cause) => Err(ExtractionError::InvalidIssueNumber { raw: parts[3].clone(), cause }),
        Ok(n) => Ok(
            ParsedIdentifier { owner: parts[0].clone(), repo: parts[1].clone(), issue_number: n },
        ),
    }
}

} // verus!
