//! Which pull requests belong in the digest of the week.

use crate::record::DigestItem;
use crate::record::ItemView;
use crate::record::PullRequestRecord;
use crate::record::RecordView;
use crate::time::read_clock;
use crate::time::Instant;
use crate::time::SECONDS_PER_WEEK;
use vstd::prelude::*;

verus! {

/// The name of the label that marks a pull request as worth announcing.
pub const CHANGELOG_LABEL: &'static str = "changelog";

impl RecordView {
    /// One of the labels is named exactly `changelog`.
    pub open spec fn has_changelog_label(self) -> bool {
        self.labels.contains(CHANGELOG_LABEL@)
    }

    /// The pull request was merged, and later than seven days before `now`.
    pub open spec fn merged_in_week_before(self, now: Instant) -> bool {
        match self.merged_at {
            Some(at) => at.in_week_before(now),
            None => false,
        }
    }

    /// The pull request belongs in the digest of the week that ends at `now`.
    pub open spec fn qualifies(self, now: Instant) -> bool {
        self.merged_in_week_before(now) && self.has_changelog_label()
    }

    /// The digest's item for this pull request.
    pub open spec fn item(self) -> ItemView {
        ItemView { title: self.title, url: self.html_url }
    }
}

/// The items of the digest of the week that ends at `now`: one for each record
/// that qualifies, in the order of the records.
pub open spec fn selected(records: Seq<RecordView>, now: Instant) -> Seq<ItemView> {
    records.filter(|record: RecordView| record.qualifies(now)).map_values(
        |record: RecordView| record.item(),
    )
}

impl PullRequestRecord {
    /// Tells whether one of the labels is named exactly `changelog`.
    pub fn has_changelog_label(&self) -> (found: bool)
        ensures
            found == self@.has_changelog_label(),
    {
        let wanted: String = CHANGELOG_LABEL.to_owned();
        let mut index: usize = 0;
        while index < self.labels.len()
            invariant
                index <= self.labels.len(),
                wanted@ == CHANGELOG_LABEL@,
                forall|k: int| 0 <= k < index ==> self.labels[k]@ != CHANGELOG_LABEL@,
            decreases self.labels.len() - index,
        {
            if self.labels[index] == wanted {
                assert(self@.labels[index as int] == CHANGELOG_LABEL@);
                return true;
            }
            index += 1;
        }
        false
    }

    /// Tells whether the pull request was merged later than seven days before
    /// `now`.
    pub fn merged_in_week_before(&self, now: &Instant) -> (inside: bool)
        ensures
            inside == self@.merged_in_week_before(*now),
    {
        match &self.merged_at {
            Some(at) => at.falls_in_week_before(now),
            None => false,
        }
    }

    /// Tells whether the pull request belongs in the digest of the week that
    /// ends at `now`.
    pub fn qualifies(&self, now: &Instant) -> (chosen: bool)
        ensures
            chosen == self@.qualifies(*now),
    {
        self.merged_in_week_before(now) && self.has_changelog_label()
    }

    /// The digest's item for this pull request.
    pub fn item(&self) -> (item: DigestItem)
        ensures
            item@ == self@.item(),
    {
        DigestItem { title: self.title.clone(), url: self.html_url.clone() }
    }
}

/// Picks the pull requests for the digest of the week that ends at `now`.
///
/// A record is picked where it was merged later than seven days before `now`
/// and carries the `changelog` label. The items come out in the order of the
/// records; `records` is left as it is.
pub fn select(records: &Vec<PullRequestRecord>, now: Instant) -> (items: Vec<DigestItem>)
    ensures
        items.deep_view() == selected(records.deep_view(), now),
{
    let ghost chosen = |record: RecordView| record.qualifies(now);
    let ghost item_of = |record: RecordView| record.item();
    let ghost all = records.deep_view();
    let mut items: Vec<DigestItem> = Vec::new();
    let mut index: usize = 0;
    while index < records.len()
        invariant
            index <= records.len(),
            all == records.deep_view(),
            chosen == |record: RecordView| record.qualifies(now),
            item_of == |record: RecordView| record.item(),
            items.deep_view() == all.take(index as int).filter(chosen).map_values(item_of),
        decreases records.len() - index,
    {
        let record = &records[index];
        let ghost seen = all.take(index as int);
        let ghost before = items.deep_view();
        proof {
            assert(all.take(index + 1) == seen.push(record@));
            seen.lemma_filter_push(record@, chosen);
        }
        if record.qualifies(&now) {
            items.push(record.item());
            assert(items.deep_view() == before.push(record@.item()));
            assert(seen.filter(chosen).push(record@).map_values(item_of) == before.push(
                record@.item(),
            ));
        }
        index += 1;
    }
    assert(all.take(index as int) == all);
    items
}

/// Picks the pull requests for the digest of the week that ends now, by the
/// system clock.
///
/// The clock is read once; the items are those that `select` gives for the
/// instant read. A system clock set before 1970 makes the clock's reader
/// panic.
pub fn get_this_week_pull_requests(records: &Vec<PullRequestRecord>) -> (items: Vec<DigestItem>)
    ensures
        exists|now: Instant| items.deep_view() == #[trigger] selected(records.deep_view(), now),
{
    let now = read_clock();
    select(records, now)
}

/// Selecting from two lists laid end to end gives the items of the first
/// followed by the items of the second: each record is judged by itself, and
/// the items keep the order of the records.
pub proof fn lemma_selected_of_joined(
    first: Seq<RecordView>,
    second: Seq<RecordView>,
    now: Instant,
)
    ensures
        selected(first + second, now) == selected(first, now) + selected(second, now),
{
    let chosen = |record: RecordView| record.qualifies(now);
    Seq::filter_distributes_over_add(first, second, chosen);
    assert(selected(first + second, now) =~= selected(first, now) + selected(second, now));
}

/// A single record gives its item where it qualifies, and nothing where it
/// does not.
pub proof fn lemma_selected_of_one(record: RecordView, now: Instant)
    ensures
        selected(seq![record], now) == if record.qualifies(now) {
            seq![record.item()]
        } else {
            Seq::<ItemView>::empty()
        },
{
    let chosen = |record: RecordView| record.qualifies(now);
    Seq::<RecordView>::empty().lemma_filter_push(record, chosen);
    assert(seq![record] =~= Seq::<RecordView>::empty().push(record));
    assert(Seq::<RecordView>::empty().filter(chosen) =~= Seq::<RecordView>::empty());
    if record.qualifies(now) {
        assert(selected(seq![record], now) =~= seq![record.item()]);
    } else {
        assert(selected(seq![record], now) =~= Seq::<ItemView>::empty());
    }
}

/// A record that does not qualify leaves no trace: the items are those of the
/// records around it.
pub proof fn lemma_unqualified_is_left_out(
    before: Seq<RecordView>,
    record: RecordView,
    after: Seq<RecordView>,
    now: Instant,
)
    requires
        !record.qualifies(now),
    ensures
        selected(before + seq![record] + after, now) == selected(before, now) + selected(
            after,
            now,
        ),
{
    lemma_selected_of_joined(before + seq![record], after, now);
    lemma_selected_of_joined(before, seq![record], now);
    lemma_selected_of_one(record, now);
    assert(selected(before, now) + Seq::<ItemView>::empty() =~= selected(before, now));
}

/// A record that qualifies gives its item, between the items of the records
/// before it and those of the records after it.
pub proof fn lemma_qualified_is_taken(
    before: Seq<RecordView>,
    record: RecordView,
    after: Seq<RecordView>,
    now: Instant,
)
    requires
        record.qualifies(now),
    ensures
        selected(before + seq![record] + after, now) == selected(before, now).push(record.item())
            + selected(after, now),
{
    lemma_selected_of_joined(before + seq![record], after, now);
    lemma_selected_of_joined(before, seq![record], now);
    lemma_selected_of_one(record, now);
    assert(selected(before, now) + seq![record.item()] =~= selected(before, now).push(
        record.item(),
    ));
}

/// A pull request that was not merged is left out, whatever its labels.
pub proof fn lemma_unmerged_is_left_out(
    before: Seq<RecordView>,
    record: RecordView,
    after: Seq<RecordView>,
    now: Instant,
)
    requires
        record.merged_at is None,
    ensures
        !record.qualifies(now),
        selected(before + seq![record] + after, now) == selected(before, now) + selected(
            after,
            now,
        ),
{
    lemma_unqualified_is_left_out(before, record, after, now);
}

/// A pull request merged at the very instant seven days before `now` is left
/// out, whatever its labels: the window is open at its start.
pub proof fn lemma_merged_at_window_start_is_left_out(
    before: Seq<RecordView>,
    record: RecordView,
    after: Seq<RecordView>,
    now: Instant,
)
    requires
        record.merged_at matches Some(at) && at.seconds == now.seconds - SECONDS_PER_WEEK
            && at.nanos == now.nanos,
    ensures
        !record.qualifies(now),
        selected(before + seq![record] + after, now) == selected(before, now) + selected(
            after,
            now,
        ),
{
    lemma_unqualified_is_left_out(before, record, after, now);
}

/// A pull request merged one second after the instant seven days before `now`
/// is taken where it carries the `changelog` label.
pub proof fn lemma_merged_a_second_into_window_is_taken(
    before: Seq<RecordView>,
    record: RecordView,
    after: Seq<RecordView>,
    now: Instant,
)
    requires
        record.merged_at matches Some(at) && at.seconds == now.seconds - SECONDS_PER_WEEK + 1
            && at.nanos == now.nanos,
        record.labels.contains(CHANGELOG_LABEL@),
    ensures
        record.qualifies(now),
        selected(before + seq![record] + after, now) == selected(before, now).push(record.item())
            + selected(after, now),
{
    lemma_qualified_is_taken(before, record, after, now);
}

/// A pull request none of whose labels is named exactly `changelog` is left
/// out, whenever it was merged. A name that differs in case, such as
/// `Changelog`, or that only begins alike, such as `changelog-needed`, is
/// another name.
pub proof fn lemma_label_must_match_exactly(
    before: Seq<RecordView>,
    record: RecordView,
    after: Seq<RecordView>,
    now: Instant,
)
    requires
        forall|i: int| 0 <= i < record.labels.len() ==> record.labels[i] != CHANGELOG_LABEL@,
    ensures
        "Changelog"@ != CHANGELOG_LABEL@,
        "changelog-needed"@ != CHANGELOG_LABEL@,
        !record.qualifies(now),
        selected(before + seq![record] + after, now) == selected(before, now) + selected(
            after,
            now,
        ),
{
    reveal_strlit("changelog");
    reveal_strlit("Changelog");
    reveal_strlit("changelog-needed");
    assert("Changelog"@[0] != "changelog"@[0]);
    assert("changelog-needed"@.len() != "changelog"@.len());
    lemma_unqualified_is_left_out(before, record, after, now);
}

/// Of three records of which the first and the last qualify and the middle
/// one does not, the items are those of the first and the last, in that
/// order.
pub proof fn lemma_selection_keeps_order(
    first: RecordView,
    middle: RecordView,
    last: RecordView,
    now: Instant,
)
    requires
        first.qualifies(now),
        !middle.qualifies(now),
        last.qualifies(now),
    ensures
        selected(seq![first, middle, last], now) == seq![first.item(), last.item()],
{
    lemma_unqualified_is_left_out(seq![first], middle, seq![last], now);
    lemma_selected_of_one(first, now);
    lemma_selected_of_one(last, now);
    assert(seq![first, middle, last] =~= seq![first] + seq![middle] + seq![last]);
    assert(seq![first.item()] + seq![last.item()] =~= seq![first.item(), last.item()]);
}

/// Selecting again from the same records at the same instant gives the same
/// items: whatever two runs of `select` return, it is one and the same list.
pub proof fn lemma_selection_is_repeatable(
    records: Seq<RecordView>,
    now: Instant,
    once: Seq<ItemView>,
    again: Seq<ItemView>,
)
    requires
        once == selected(records, now),
        again == selected(records, now),
    ensures
        once == again,
{
}

} // verus!
