use mail_issue_id::decimal::ParseFailure;
use mail_issue_id::event::{EmailEvent, EmailRecord};
use mail_issue_id::extract::{extract, ExtractionError, ParsedIdentifier};

fn event_with(ids: Vec<Option<&str>>) -> EmailEvent {
    EmailEvent {
        records: ids
            .into_iter()
            .map(|id| EmailRecord { message_id: id.map(|s| s.to_string()) })
            .collect(),
    }
}

fn single(id: &str) -> EmailEvent {
    event_with(vec![Some(id)])
}

#[test]
fn bracketed_id_extracts() {
    assert_eq!(
        extract(single("<octocat/Hello-World/issues/42>")),
        Ok(ParsedIdentifier {
            owner: "octocat".to_string(),
            repo: "Hello-World".to_string(),
            issue_number: 42,
        })
    );
}

#[test]
fn bare_id_extracts_identically() {
    assert_eq!(
        extract(single("octocat/Hello-World/issues/42")),
        extract(single("<octocat/Hello-World/issues/42>"))
    );
}

#[test]
fn two_segments_is_malformed() {
    assert_eq!(
        extract(single("<octocat/Hello-World>")),
        Err(ExtractionError::MalformedMessageId {
            raw: "<octocat/Hello-World>".to_string(),
        })
    );
}

#[test]
fn non_numeric_fourth_segment_is_invalid() {
    assert_eq!(
        extract(single("<octocat/Hello-World/issues/notanumber>")),
        Err(ExtractionError::InvalidIssueNumber {
            raw: "notanumber".to_string(),
            cause: ParseFailure::NonDigit,
        })
    );
}

#[test]
fn empty_event_has_no_record() {
    assert_eq!(
        extract(event_with(vec![])),
        Err(ExtractionError::NoRecord)
    );
}

#[test]
fn absent_message_id_is_reported() {
    assert_eq!(
        extract(event_with(vec![None])),
        Err(ExtractionError::NoMessageId)
    );
}

#[test]
fn first_record_wins() {
    let event = event_with(vec![Some("<octocat/Hello-World/issues/7>"), Some("garbage")]);
    assert_eq!(
        extract(event),
        Ok(ParsedIdentifier {
            owner: "octocat".to_string(),
            repo: "Hello-World".to_string(),
            issue_number: 7,
        })
    );
}

#[test]
fn absent_first_message_id_wins_over_later_records() {
    let event = event_with(vec![None, Some("<octocat/Hello-World/issues/7>")]);
    assert_eq!(extract(event), Err(ExtractionError::NoMessageId));
}

#[test]
fn empty_segments_are_preserved() {
    assert_eq!(
        extract(single("a//b/7")),
        Ok(ParsedIdentifier {
            owner: "a".to_string(),
            repo: "".to_string(),
            issue_number: 7,
        })
    );
}

#[test]
fn extra_segments_are_ignored() {
    assert_eq!(
        extract(single("owner/repo/issues/9/reply/0")),
        Ok(ParsedIdentifier {
            owner: "owner".to_string(),
            repo: "repo".to_string(),
            issue_number: 9,
        })
    );
}

#[test]
fn leading_bracket_alone_is_trimmed() {
    assert_eq!(
        extract(single("<a/b/issues/5")),
        Ok(ParsedIdentifier {
            owner: "a".to_string(),
            repo: "b".to_string(),
            issue_number: 5,
        })
    );
}

#[test]
fn trailing_bracket_alone_is_trimmed() {
    assert_eq!(
        extract(single("a/b/issues/5>")),
        Ok(ParsedIdentifier {
            owner: "a".to_string(),
            repo: "b".to_string(),
            issue_number: 5,
        })
    );
}

#[test]
fn only_one_bracket_is_trimmed_each_side() {
    assert_eq!(
        extract(single("<<a/b/c/5>>")),
        Err(ExtractionError::InvalidIssueNumber {
            raw: "5>".to_string(),
            cause: ParseFailure::NonDigit,
        })
    );
}

#[test]
fn empty_fourth_segment_is_invalid() {
    assert_eq!(
        extract(single("a/b/c/")),
        Err(ExtractionError::InvalidIssueNumber {
            raw: "".to_string(),
            cause: ParseFailure::Empty,
        })
    );
}

#[test]
fn oversized_issue_number_is_invalid() {
    assert_eq!(
        extract(single("a/b/c/18446744073709551616")),
        Err(ExtractionError::InvalidIssueNumber {
            raw: "18446744073709551616".to_string(),
            cause: ParseFailure::Overflow,
        })
    );
}

#[test]
fn largest_issue_number_extracts() {
    assert_eq!(
        extract(single("a/b/c/18446744073709551615")),
        Ok(ParsedIdentifier {
            owner: "a".to_string(),
            repo: "b".to_string(),
            issue_number: u64::MAX,
        })
    );
}

#[test]
fn empty_message_id_is_malformed() {
    assert_eq!(
        extract(single("")),
        Err(ExtractionError::MalformedMessageId { raw: "".to_string() })
    );
}

#[test]
fn rerunning_extract_gives_the_same_result() {
    let first = extract(single("<octocat/Hello-World/issues/42>"));
    let second = extract(single("<octocat/Hello-World/issues/42>"));
    assert_eq!(first, second);
    let first_err = extract(single("<octocat/Hello-World>"));
    let second_err = extract(single("<octocat/Hello-World>"));
    assert_eq!(first_err, second_err);
}

#[test]
fn no_record_message() {
    let e = extract(event_with(vec![])).unwrap_err();
    assert_eq!(e.message(), "No email record found");
}

#[test]
fn no_message_id_message() {
    let e = extract(event_with(vec![None])).unwrap_err();
    assert_eq!(e.message(), "No message id found");
}

#[test]
fn malformed_message_quotes_the_raw_id() {
    let e = extract(single("<octocat/Hello-World>")).unwrap_err();
    assert_eq!(e.message(), "Malformed message id: <octocat/Hello-World>");
}

#[test]
fn invalid_number_message_quotes_the_segment() {
    let e = extract(single("<a/b/c/nope>")).unwrap_err();
    assert_eq!(
        e.message(),
        "Error parsing issue number: invalid digit: nope"
    );
}
