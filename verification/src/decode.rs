//! Reading the hosting service's responses.
//!
//! A response counts only where its status reports success. The list of closed
//! pull requests arrives as a JSON array of objects, the repository as one
//! JSON object. A response that is not of that shape is an error. A single
//! pull request that is damaged is left out and reported, and the rest of the
//! list is read.

use crate::json::as_elements;
use crate::json::as_text;
use crate::json::as_unsigned;
use crate::json::document_shape;
use crate::json::is_null;
use crate::json::member;
use crate::json::parse_document;
use crate::json::shape_of;
use crate::json::Json;
use crate::record::PullRequestRecord;
use crate::record::RecordView;
use crate::time::rfc3339_instant;
use crate::time::Instant;
use serde_json::Value;
use vstd::prelude::*;

verus! {

/// Why a response of the hosting service could not be read.
#[derive(Clone, Copy, Debug, PartialEq, Eq, Structural)]
pub enum FetchError {
    /// The response came with this status, which does not report success.
    Status(u16),
    /// The response is not one JSON document.
    InvalidJson,
    /// The response is a JSON document of another shape than expected.
    UnexpectedShape,
}

/// The status reports success: it is one of 200 to 299.
pub open spec fn reports_success(status: u16) -> bool {
    200 <= status <= 299
}

/// Tells whether `status` reports success.
pub fn is_success(status: u16) -> (success: bool)
    ensures
        success == reports_success(status),
{
    200 <= status && status <= 299
}

/// Accepts a response by its status, or names the status that rules it out.
pub fn check_status(status: u16) -> (accepted: Result<(), FetchError>)
    ensures
        accepted == if reports_success(status) {
            Ok::<(), FetchError>(())
        } else {
            Err::<(), FetchError>(FetchError::Status(status))
        },
{
    if is_success(status) {
        Ok(())
    } else {
        Err(FetchError::Status(status))
    }
}

/// What is wrong with a single pull request of the list.
#[derive(Clone, Copy, Debug, PartialEq, Eq, Structural)]
pub enum Malformed {
    /// `title` is missing or no text.
    Title,
    /// `html_url` is missing or no text.
    Address,
    /// `merged_at` is there and is not a timestamp.
    MergedAt,
    /// `labels` is there and is no array.
    Labels,
    /// A label has no `name`, or one that is no text.
    LabelName,
}

/// A pull request that was left out of the list, by its position in the
/// response.
#[derive(Clone, Copy, Debug, PartialEq, Eq, Structural)]
pub struct Rejection {
    pub index: usize,
    pub reason: Malformed,
}

/// The pull requests of a response: those that could be read, in their order,
/// and a note of each one that could not.
#[derive(Clone, Debug, PartialEq, Eq)]
pub struct PullRequests {
    pub records: Vec<PullRequestRecord>,
    pub rejected: Vec<Rejection>,
}

/// When a pull request was merged, from its `merged_at` member: a timestamp,
/// or null (as well as no member at all) for a pull request that was not
/// merged.
pub open spec fn merged_at_of(value: Json) -> Result<Option<Instant>, Malformed> {
    match value {
        Json::Null => Ok(None),
        Json::Text(text) => match rfc3339_instant(text) {
            Some(at) => Ok(Some(at)),
            None => Err(Malformed::MergedAt),
        },
        _ => Err(Malformed::MergedAt),
    }
}

/// The name of a label, from an element of `labels`.
pub open spec fn label_name_of(label: Json) -> Option<Seq<char>> {
    label.member("name"@).text()
}

/// The names of a pull request's labels, from its `labels` member: an array of
/// objects with a `name` each, or null (as well as no member at all) for no
/// labels.
pub open spec fn label_names_of(value: Json) -> Result<Seq<Seq<char>>, Malformed> {
    match value {
        Json::Null => Ok(Seq::empty()),
        Json::Array(labels) => if forall|i: int|
            0 <= i < labels.len() ==> label_name_of(#[trigger] labels[i]) is Some {
            Ok(labels.map_values(|label: Json| label_name_of(label).unwrap()))
        } else {
            Err(Malformed::LabelName)
        },
        _ => Err(Malformed::Labels),
    }
}

/// The record of one element of the list, or what is wrong with the element.
/// Where several things are wrong, the first of title, address, merge time and
/// labels is named.
pub open spec fn record_of(pull: Json) -> Result<RecordView, Malformed> {
    match pull.member("title"@).text() {
        None => Err(Malformed::Title),
        Some(title) => match pull.member("html_url"@).text() {
            None => Err(Malformed::Address),
            Some(html_url) => match merged_at_of(pull.member("merged_at"@)) {
                Err(reason) => Err(reason),
                Ok(merged_at) => match label_names_of(pull.member("labels"@)) {
                    Err(reason) => Err(reason),
                    Ok(labels) => Ok(RecordView { title, html_url, merged_at, labels }),
                },
            },
        },
    }
}

/// The records of the elements that can be read, in the order of the elements.
pub open spec fn records_of(pulls: Seq<Json>) -> Seq<RecordView> {
    pulls.filter(|pull: Json| record_of(pull) is Ok).map_values(
        |pull: Json| record_of(pull).unwrap(),
    )
}

/// A note of each element that cannot be read, in the order of the elements.
pub open spec fn rejections_of(pulls: Seq<Json>) -> Seq<Rejection>
    decreases pulls.len(),
{
    if pulls.len() == 0 {
        Seq::empty()
    } else {
        let earlier = rejections_of(pulls.drop_last());
        match record_of(pulls.last()) {
            Ok(_) => earlier,
            Err(reason) => earlier.push(
                Rejection { index: (pulls.len() - 1) as usize, reason },
            ),
        }
    }
}

/// Every element of the list is either read or noted, never both and never
/// neither; each note names the position of the element it is about and what
/// is wrong with that element, and the notes stand in the order of the
/// elements.
pub proof fn lemma_every_element_is_read_or_noted(pulls: Seq<Json>)
    requires
        pulls.len() <= usize::MAX,
    ensures
        records_of(pulls).len() + rejections_of(pulls).len() == pulls.len(),
        forall|k: int|
            0 <= k < rejections_of(pulls).len() ==> {
                let note = #[trigger] rejections_of(pulls)[k];
                &&& note.index < pulls.len()
                &&& record_of(pulls[note.index as int]) == Err::<RecordView, Malformed>(
                    note.reason,
                )
            },
        forall|j: int, k: int|
            0 <= j < k < rejections_of(pulls).len() ==> rejections_of(pulls)[j].index
                < rejections_of(pulls)[k].index,
    decreases pulls.len(),
{
    if pulls.len() > 0 {
        let earlier = pulls.drop_last();
        let readable = |pull: Json| record_of(pull) is Ok;
        lemma_every_element_is_read_or_noted(earlier);
        earlier.lemma_filter_push(pulls.last(), readable);
        assert(pulls =~= earlier.push(pulls.last()));
        assert forall|k: int| 0 <= k < rejections_of(pulls).len() implies {
            let note = #[trigger] rejections_of(pulls)[k];
            &&& note.index < pulls.len()
            &&& record_of(pulls[note.index as int]) == Err::<RecordView, Malformed>(note.reason)
        } by {
            if k < rejections_of(earlier).len() {
                let note = rejections_of(earlier)[k];
                assert(rejections_of(pulls)[k] == note);
                assert(pulls[note.index as int] == earlier[note.index as int]);
            }
        }
        assert forall|j: int, k: int| 0 <= j < k < rejections_of(pulls).len() implies rejections_of(
            pulls,
        )[j].index < rejections_of(pulls)[k].index by {
            assert(rejections_of(pulls)[j] == rejections_of(earlier)[j]);
            if k < rejections_of(earlier).len() {
                assert(rejections_of(pulls)[k] == rejections_of(earlier)[k]);
            }
        }
    } else {
        assert(records_of(pulls) =~= Seq::<RecordView>::empty());
    }
}

/// The star count of a repository, from the document that describes it.
pub open spec fn stargazer_count_of(repository: Json) -> Option<u64> {
    repository.member("stargazers_count"@).unsigned()
}

/// Reads the `merged_at` member of a pull request.
fn decode_merged_at(value: &Value) -> (merged_at: Result<Option<Instant>, Malformed>)
    ensures
        merged_at == merged_at_of(shape_of(*value)),
{
    if is_null(value) {
        return Ok(None);
    }
    match as_text(value) {
        Some(text) => match Instant::parse(text) {
            Some(at) => Ok(Some(at)),
            None => Err(Malformed::MergedAt),
        },
        None => Err(Malformed::MergedAt),
    }
}

/// Reads the `labels` member of a pull request.
fn decode_label_names(value: &Value) -> (names: Result<Vec<String>, Malformed>)
    ensures
        match names {
            Ok(names) => label_names_of(shape_of(*value)) == Ok::<Seq<Seq<char>>, Malformed>(
                names.deep_view(),
            ),
            Err(reason) => label_names_of(shape_of(*value)) == Err::<Seq<Seq<char>>, Malformed>(
                reason,
            ),
        },
{
    if is_null(value) {
        let none: Vec<String> = Vec::new();
        assert(none.deep_view() =~= Seq::<Seq<char>>::empty());
        return Ok(none);
    }
    match as_elements(value) {
        None => Err(Malformed::Labels),
        Some(labels) => {
            let ghost shapes = labels@.map_values(|element: Value| shape_of(element));
            let mut names: Vec<String> = Vec::new();
            let mut index: usize = 0;
            while index < labels.len()
                invariant
                    index <= labels.len(),
                    shapes == labels@.map_values(|element: Value| shape_of(element)),
                    shape_of(*value) == Json::Array(shapes),
                    names.len() == index,
                    forall|i: int|
                        0 <= i < index ==> label_name_of(#[trigger] shapes[i]) == Some(names[i]@),
                decreases labels.len() - index,
            {
                match as_text(member(&labels[index], "name")) {
                    None => {
                        assert(label_name_of(shapes[index as int]) is None);
                        return Err(Malformed::LabelName);
                    },
                    Some(name) => {
                        names.push(name.to_owned());
                    },
                }
                index += 1;
            }
            assert(names.deep_view() =~= shapes.map_values(
                |label: Json| label_name_of(label).unwrap(),
            ));
            Ok(names)
        },
    }
}

/// Reads one pull request of the list.
pub fn decode_record(pull: &Value) -> (record: Result<PullRequestRecord, Malformed>)
    ensures
        match record {
            Ok(record) => record_of(shape_of(*pull)) == Ok::<RecordView, Malformed>(record@),
            Err(reason) => record_of(shape_of(*pull)) == Err::<RecordView, Malformed>(reason),
        },
{
    let title = match as_text(member(pull, "title")) {
        Some(title) => title.to_owned(),
        None => {
            return Err(Malformed::Title);
        },
    };
    let html_url = match as_text(member(pull, "html_url")) {
        Some(html_url) => html_url.to_owned(),
        None => {
            return Err(Malformed::Address);
        },
    };
    let merged_at = match decode_merged_at(member(pull, "merged_at")) {
        Ok(merged_at) => merged_at,
        Err(reason) => {
            return Err(reason);
        },
    };
    let labels = match decode_label_names(member(pull, "labels")) {
        Ok(labels) => labels,
        Err(reason) => {
            return Err(reason);
        },
    };
    Ok(PullRequestRecord { title, html_url, merged_at, labels })
}

/// Reads the list of pull requests from the document that holds it.
///
/// The document must be an array. Each element that can be read gives a
/// record; each other element is noted with its position and left out.
pub fn read_pull_requests(document: &Value) -> (pulls: Result<PullRequests, FetchError>)
    ensures
        match pulls {
            Ok(pulls) => shape_of(*document) matches Json::Array(elements)
                && pulls.records.deep_view() == records_of(elements) && pulls.rejected@
                == rejections_of(elements),
            Err(error) => error == FetchError::UnexpectedShape && shape_of(*document) !is Array,
        },
{
    let elements = match as_elements(document) {
        Some(elements) => elements,
        None => {
            return Err(FetchError::UnexpectedShape);
        },
    };
    let ghost shapes = elements@.map_values(|element: Value| shape_of(element));
    let ghost readable = |pull: Json| record_of(pull) is Ok;
    let ghost read = |pull: Json| record_of(pull).unwrap();
    let mut records: Vec<PullRequestRecord> = Vec::new();
    let mut rejected: Vec<Rejection> = Vec::new();
    let mut index: usize = 0;
    while index < elements.len()
        invariant
            index <= elements.len(),
            shapes == elements@.map_values(|element: Value| shape_of(element)),
            readable == |pull: Json| record_of(pull) is Ok,
            read == |pull: Json| record_of(pull).unwrap(),
            records.deep_view() == shapes.take(index as int).filter(readable).map_values(read),
            rejected@ == rejections_of(shapes.take(index as int)),
        decreases elements.len() - index,
    {
        let ghost seen = shapes.take(index as int);
        let ghost next = shapes.take(index + 1);
        let ghost records_before = records.deep_view();
        proof {
            assert(next == seen.push(shapes[index as int]));
            assert(next.drop_last() == seen);
            seen.lemma_filter_push(shapes[index as int], readable);
        }
        match decode_record(&elements[index]) {
            Ok(record) => {
                records.push(record);
                assert(records.deep_view() == records_before.push(record@));
                assert(seen.filter(readable).push(shapes[index as int]).map_values(read)
                    == records_before.push(record@));
            },
            Err(reason) => {
                rejected.push(Rejection { index, reason });
            },
        }
        index += 1;
    }
    assert(shapes.take(index as int) == shapes);
    Ok(PullRequests { records, rejected })
}

/// Reads the list of pull requests from the text of a response.
pub fn decode_pull_requests(body: &str) -> (pulls: Result<PullRequests, FetchError>)
    ensures
        match pulls {
            Ok(pulls) => document_shape(body@) matches Some(Json::Array(elements))
                && pulls.records.deep_view() == records_of(elements) && pulls.rejected@
                == rejections_of(elements),
            Err(error) => match document_shape(body@) {
                None => error == FetchError::InvalidJson,
                Some(document) => error == FetchError::UnexpectedShape && document !is Array,
            },
        },
{
    match parse_document(body) {
        Ok(document) => read_pull_requests(&document),
        Err(_) => Err(FetchError::InvalidJson),
    }
}

/// Reads the star count from the document that describes the repository: its
/// member `stargazers_count`, a whole number from 0 to `u64::MAX`.
pub fn read_stargazer_count(repository: &Value) -> (count: Result<u64, FetchError>)
    ensures
        match count {
            Ok(count) => stargazer_count_of(shape_of(*repository)) == Some(count),
            Err(error) => error == FetchError::UnexpectedShape && stargazer_count_of(
                shape_of(*repository),
            ) is None,
        },
{
    match as_unsigned(member(repository, "stargazers_count")) {
        Some(count) => Ok(count),
        None => Err(FetchError::UnexpectedShape),
    }
}

/// Reads the star count from the text of the response that describes the
/// repository.
pub fn get_stargazers_count(body: &str) -> (count: Result<u64, FetchError>)
    ensures
        match count {
            Ok(count) => document_shape(body@) matches Some(repository) && stargazer_count_of(
                repository,
            ) == Some(count),
            Err(error) => match document_shape(body@) {
                None => error == FetchError::InvalidJson,
                Some(repository) => error == FetchError::UnexpectedShape && stargazer_count_of(
                    repository,
                ) is None,
            },
        },
{
    match parse_document(body) {
        Ok(repository) => read_stargazer_count(&repository),
        Err(_) => Err(FetchError::InvalidJson),
    }
}

} // verus!
