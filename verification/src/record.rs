//! Pull requests as the hosting service reports them, and the digest's items.

use crate::time::Instant;
use vstd::prelude::*;

verus! {

/// A closed pull request.
#[derive(Clone, Debug, PartialEq, Eq)]
pub struct PullRequestRecord {
    pub title: String,
    /// Address of the pull request's page.
    pub html_url: String,
    /// When the pull request was merged; `None` where it was closed unmerged.
    pub merged_at: Option<Instant>,
    /// The names of its labels, in the order reported.
    pub labels: Vec<String>,
}

/// What a `PullRequestRecord` holds, as mathematical values.
pub struct RecordView {
    pub title: Seq<char>,
    pub html_url: Seq<char>,
    pub merged_at: Option<Instant>,
    pub labels: Seq<Seq<char>>,
}

impl DeepView for PullRequestRecord {
    type V = RecordView;

    open spec fn deep_view(&self) -> RecordView {
        RecordView {
            title: self.title@,
            html_url: self.html_url@,
            merged_at: self.merged_at,
            labels: self.labels.deep_view(),
        }
    }
}

impl View for PullRequestRecord {
    type V = RecordView;

    open spec fn view(&self) -> RecordView {
        self.deep_view()
    }
}

/// One line of the digest: a pull request's title and the address of its page.
#[derive(Clone, Debug, PartialEq, Eq)]
pub struct DigestItem {
    pub title: String,
    pub url: String,
}

/// What a `DigestItem` holds, as mathematical values.
pub struct ItemView {
    pub title: Seq<char>,
    pub url: Seq<char>,
}

impl DeepView for DigestItem {
    type V = ItemView;

    open spec fn deep_view(&self) -> ItemView {
        ItemView { title: self.title@, url: self.url@ }
    }
}

impl View for DigestItem {
    type V = ItemView;

    open spec fn view(&self) -> ItemView {
        self.deep_view()
    }
}

} // verus!
