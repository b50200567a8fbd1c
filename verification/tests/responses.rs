use serde_json::Value;
use weekly_digest::decode::decode_pull_requests;
use weekly_digest::decode::decode_record;
use weekly_digest::decode::check_status;
use weekly_digest::decode::get_stargazers_count;
use weekly_digest::decode::is_success;
use weekly_digest::decode::read_pull_requests;
use weekly_digest::decode::read_stargazer_count;
use weekly_digest::decode::FetchError;
use weekly_digest::decode::Malformed;
use weekly_digest::decode::PullRequests;
use weekly_digest::decode::Rejection;
use weekly_digest::record::DigestItem;
use weekly_digest::record::PullRequestRecord;
use weekly_digest::render::render;
use weekly_digest::select::select;
use weekly_digest::time::Instant;

fn value(text: &str) -> Value {
    serde_json::from_str(text).unwrap()
}

fn record(title: &str, url: &str, merged_at: Option<Instant>, labels: &[&str]) -> PullRequestRecord {
    PullRequestRecord {
        title: title.to_string(),
        html_url: url.to_string(),
        merged_at,
        labels: labels.iter().map(|name| name.to_string()).collect(),
    }
}

const MERGED: Instant = Instant { seconds: 1_710_504_000, nanos: 0 };

#[test]
fn a_merged_pull_request_is_read() {
    let pull = value(
        r#"{"title": "Add dark mode", "html_url": "https://x/pr/1", "number": 1,
            "merged_at": "2024-03-15T12:00:00Z",
            "labels": [{"id": 3, "name": "changelog"}, {"name": "ui"}]}"#,
    );
    assert_eq!(
        decode_record(&pull),
        Ok(record("Add dark mode", "https://x/pr/1", Some(MERGED), &["changelog", "ui"]))
    );
}

#[test]
fn an_unmerged_pull_request_is_read() {
    let pull = value(r#"{"title": "t", "html_url": "u", "merged_at": null, "labels": []}"#);
    assert_eq!(decode_record(&pull), Ok(record("t", "u", None, &[])));
}

#[test]
fn merge_time_and_labels_may_be_missing() {
    let pull = value(r#"{"title": "t", "html_url": "u"}"#);
    assert_eq!(decode_record(&pull), Ok(record("t", "u", None, &[])));
    let pull = value(r#"{"title": "t", "html_url": "u", "labels": null}"#);
    assert_eq!(decode_record(&pull), Ok(record("t", "u", None, &[])));
}

#[test]
fn a_pull_request_without_title_is_malformed() {
    assert_eq!(decode_record(&value(r#"{"html_url": "u"}"#)), Err(Malformed::Title));
    assert_eq!(decode_record(&value(r#"{"title": 5, "html_url": "u"}"#)), Err(Malformed::Title));
    assert_eq!(decode_record(&value(r#"{"title": null, "html_url": "u"}"#)), Err(Malformed::Title));
    assert_eq!(decode_record(&value("17")), Err(Malformed::Title));
    assert_eq!(decode_record(&value("[]")), Err(Malformed::Title));
    assert_eq!(decode_record(&value("null")), Err(Malformed::Title));
}

#[test]
fn a_pull_request_without_address_is_malformed() {
    assert_eq!(decode_record(&value(r#"{"title": "t"}"#)), Err(Malformed::Address));
    assert_eq!(
        decode_record(&value(r#"{"title": "t", "html_url": ["u"]}"#)),
        Err(Malformed::Address)
    );
}

#[test]
fn a_merge_time_that_is_no_timestamp_is_malformed() {
    let pull = value(r#"{"title": "t", "html_url": "u", "merged_at": "last tuesday"}"#);
    assert_eq!(decode_record(&pull), Err(Malformed::MergedAt));
    let pull = value(r#"{"title": "t", "html_url": "u", "merged_at": 1710504000}"#);
    assert_eq!(decode_record(&pull), Err(Malformed::MergedAt));
    let pull = value(r#"{"title": "t", "html_url": "u", "merged_at": false}"#);
    assert_eq!(decode_record(&pull), Err(Malformed::MergedAt));
    let pull = value(r#"{"title": "t", "html_url": "u", "merged_at": ""}"#);
    assert_eq!(decode_record(&pull), Err(Malformed::MergedAt));
}

#[test]
fn labels_that_are_no_array_are_malformed() {
    let pull = value(r#"{"title": "t", "html_url": "u", "labels": "changelog"}"#);
    assert_eq!(decode_record(&pull), Err(Malformed::Labels));
    let pull = value(r#"{"title": "t", "html_url": "u", "labels": {"name": "changelog"}}"#);
    assert_eq!(decode_record(&pull), Err(Malformed::Labels));
}

#[test]
fn a_label_without_name_is_malformed() {
    let pull = value(r#"{"title": "t", "html_url": "u", "labels": [{"name": "changelog"}, {}]}"#);
    assert_eq!(decode_record(&pull), Err(Malformed::LabelName));
    let pull = value(r#"{"title": "t", "html_url": "u", "labels": [{"name": 7}]}"#);
    assert_eq!(decode_record(&pull), Err(Malformed::LabelName));
    let pull = value(r#"{"title": "t", "html_url": "u", "labels": ["changelog"]}"#);
    assert_eq!(decode_record(&pull), Err(Malformed::LabelName));
    let pull = value(r#"{"title": "t", "html_url": "u", "labels": [{"name": null}]}"#);
    assert_eq!(decode_record(&pull), Err(Malformed::LabelName));
}

#[test]
fn the_first_fault_is_named() {
    let pull = value(r#"{"merged_at": "x", "labels": 3}"#);
    assert_eq!(decode_record(&pull), Err(Malformed::Title));
    let pull = value(r#"{"title": "t", "merged_at": "x", "labels": 3}"#);
    assert_eq!(decode_record(&pull), Err(Malformed::Address));
    let pull = value(r#"{"title": "t", "html_url": "u", "merged_at": "x", "labels": 3}"#);
    assert_eq!(decode_record(&pull), Err(Malformed::MergedAt));
    let pull = value(r#"{"title": "t", "html_url": "u", "merged_at": null, "labels": 3}"#);
    assert_eq!(decode_record(&pull), Err(Malformed::Labels));
}

#[test]
fn a_list_is_read_in_its_order() {
    let body = r#"[
        {"title": "one", "html_url": "u1", "merged_at": "2024-03-15T12:00:00Z", "labels": [{"name": "changelog"}]},
        {"title": "two", "html_url": "u2", "merged_at": null, "labels": []},
        {"title": "three", "html_url": "u3", "merged_at": "2024-03-15T14:00:00+02:00", "labels": [{"name": "bug"}]}
    ]"#;
    assert_eq!(
        decode_pull_requests(body),
        Ok(PullRequests {
            records: vec![
                record("one", "u1", Some(MERGED), &["changelog"]),
                record("two", "u2", None, &[]),
                record("three", "u3", Some(MERGED), &["bug"]),
            ],
            rejected: vec![],
        })
    );
}

#[test]
fn damaged_pull_requests_are_left_out_and_noted() {
    let body = r#"[
        {"title": "bad time", "html_url": "u0", "merged_at": "soon", "labels": []},
        {"title": "good", "html_url": "u1", "merged_at": "2024-03-15T12:00:00Z", "labels": [{"name": "changelog"}]},
        {"html_url": "u2"},
        {"title": "nameless label", "html_url": "u3", "merged_at": null, "labels": [{}]},
        {"title": "also good", "html_url": "u4"}
    ]"#;
    assert_eq!(
        decode_pull_requests(body),
        Ok(PullRequests {
            records: vec![
                record("good", "u1", Some(MERGED), &["changelog"]),
                record("also good", "u4", None, &[]),
            ],
            rejected: vec![
                Rejection { index: 0, reason: Malformed::MergedAt },
                Rejection { index: 2, reason: Malformed::Title },
                Rejection { index: 3, reason: Malformed::LabelName },
            ],
        })
    );
}

#[test]
fn an_empty_list_is_read() {
    assert_eq!(decode_pull_requests("[]"), Ok(PullRequests { records: vec![], rejected: vec![] }));
    assert_eq!(decode_pull_requests(" [ ] "), Ok(PullRequests { records: vec![], rejected: vec![] }));
}

#[test]
fn a_response_that_is_no_json_is_an_error() {
    assert_eq!(decode_pull_requests(""), Err(FetchError::InvalidJson));
    assert_eq!(decode_pull_requests("<html>rate limited</html>"), Err(FetchError::InvalidJson));
    assert_eq!(decode_pull_requests("[{\"title\": "), Err(FetchError::InvalidJson));
    assert_eq!(decode_pull_requests("[] []"), Err(FetchError::InvalidJson));
    assert_eq!(get_stargazers_count("{"), Err(FetchError::InvalidJson));
}

#[test]
fn a_response_of_another_shape_is_an_error() {
    assert_eq!(
        decode_pull_requests(r#"{"message": "Not Found"}"#),
        Err(FetchError::UnexpectedShape)
    );
    assert_eq!(decode_pull_requests("null"), Err(FetchError::UnexpectedShape));
    assert_eq!(decode_pull_requests("\"[]\""), Err(FetchError::UnexpectedShape));
    assert_eq!(read_pull_requests(&value("3")), Err(FetchError::UnexpectedShape));
}

#[test]
fn a_list_held_in_a_value_is_read() {
    let document = value(r#"[{"title": "t", "html_url": "u"}, 4]"#);
    assert_eq!(
        read_pull_requests(&document),
        Ok(PullRequests {
            records: vec![record("t", "u", None, &[])],
            rejected: vec![Rejection { index: 1, reason: Malformed::Title }],
        })
    );
}

#[test]
fn the_star_count_is_read() {
    assert_eq!(
        get_stargazers_count(r#"{"full_name": "o/r", "stargazers_count": 1234, "forks": 5}"#),
        Ok(1234)
    );
    assert_eq!(get_stargazers_count(r#"{"stargazers_count": 0}"#), Ok(0));
    assert_eq!(
        get_stargazers_count(r#"{"stargazers_count": 18446744073709551615}"#),
        Ok(u64::MAX)
    );
    assert_eq!(read_stargazer_count(&value(r#"{"stargazers_count": 42}"#)), Ok(42));
}

#[test]
fn a_star_count_that_is_no_natural_number_is_an_error() {
    assert_eq!(get_stargazers_count(r#"{"stars": 3}"#), Err(FetchError::UnexpectedShape));
    assert_eq!(get_stargazers_count(r#"{"stargazers_count": -1}"#), Err(FetchError::UnexpectedShape));
    assert_eq!(get_stargazers_count(r#"{"stargazers_count": 1.5}"#), Err(FetchError::UnexpectedShape));
    assert_eq!(get_stargazers_count(r#"{"stargazers_count": "12"}"#), Err(FetchError::UnexpectedShape));
    assert_eq!(get_stargazers_count(r#"{"stargazers_count": null}"#), Err(FetchError::UnexpectedShape));
    assert_eq!(
        get_stargazers_count(r#"{"stargazers_count": 18446744073709551616}"#),
        Err(FetchError::UnexpectedShape)
    );
    assert_eq!(get_stargazers_count("[1234]"), Err(FetchError::UnexpectedShape));
    assert_eq!(get_stargazers_count("1234"), Err(FetchError::UnexpectedShape));
    assert_eq!(read_stargazer_count(&value("null")), Err(FetchError::UnexpectedShape));
}

#[test]
fn from_responses_to_the_message() {
    let pulls = r#"[
        {"title": "Add dark mode", "html_url": "https://x/pr/3", "merged_at": "2024-03-14T09:00:00Z",
         "labels": [{"name": "changelog"}]},
        {"title": "Fix typo", "html_url": "https://x/pr/2", "merged_at": "2024-03-13T09:00:00Z",
         "labels": [{"name": "docs"}]},
        {"title": "Closed unmerged", "html_url": "https://x/pr/4", "merged_at": null,
         "labels": [{"name": "changelog"}]},
        {"title": "Old news", "html_url": "https://x/pr/1", "merged_at": "2024-03-08T12:00:00Z",
         "labels": [{"name": "changelog"}]},
        {"title": "Faster builds", "html_url": "https://x/pr/5", "merged_at": "2024-03-08T12:00:01Z",
         "labels": [{"name": "ci"}, {"name": "changelog"}]}
    ]"#;
    let decoded = decode_pull_requests(pulls).unwrap();
    assert_eq!(decoded.rejected, vec![]);
    let items = select(&decoded.records, MERGED);
    assert_eq!(
        items,
        vec![
            DigestItem { title: "Add dark mode".to_string(), url: "https://x/pr/3".to_string() },
            DigestItem { title: "Faster builds".to_string(), url: "https://x/pr/5".to_string() },
        ]
    );
    let stars = get_stargazers_count(r#"{"stargazers_count": 2718}"#).unwrap();
    assert_eq!(
        render(&items, stars),
        "\n🚀 Start UI [web] :start-ui-web: has *2718* stars.\n\nThe important Pull Requests of the week are:\n\n<https://x/pr/3|Add dark mode>\n<https://x/pr/5|Faster builds>\n"
    );
}

#[test]
fn statuses_from_200_to_299_report_success() {
    for status in [200u16, 201, 204, 250, 299] {
        assert!(is_success(status));
        assert_eq!(check_status(status), Ok(()));
    }
}

#[test]
fn every_other_status_is_an_error() {
    for status in [0u16, 100, 199, 300, 301, 304, 400, 403, 404, 429, 500, 503, 599, u16::MAX] {
        assert!(!is_success(status));
        assert_eq!(check_status(status), Err(FetchError::Status(status)));
    }
}
