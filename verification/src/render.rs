//! The text of the digest message.

use crate::decimal::decimal;
use crate::decimal::push_decimal;
use crate::record::DigestItem;
use crate::record::ItemView;
use vstd::prelude::*;
use vstd::string::StringExecFns;

verus! {

/// What the header says before the star count.
pub const HEADER_OPENING: &'static str = "\u{1F680} Start UI [web] :start-ui-web: has *";

/// What the header says after the star count.
pub const HEADER_CLOSING: &'static str = "* stars.";

/// The sentence that stands for the items where there are none.
pub const NOTHING_THIS_WEEK: &'static str = "No important Pull Requests this week";

/// The sentence that introduces the items.
pub const ITEMS_FOLLOW: &'static str = "The important Pull Requests of the week are:";

/// The header line: it reports the star count as a plain decimal number.
pub open spec fn header(stargazer_count: nat) -> Seq<char> {
    HEADER_OPENING@ + decimal(stargazer_count) + HEADER_CLOSING@
}

/// The sentence below the header: it says whether any items follow.
pub open spec fn introduction(items: Seq<ItemView>) -> Seq<char> {
    if items.len() == 0 {
        NOTHING_THIS_WEEK@
    } else {
        ITEMS_FOLLOW@
    }
}

/// The line of one item: a link to the pull request's page that shows the
/// pull request's title, written `<address|title>`.
pub open spec fn item_line(item: ItemView) -> Seq<char> {
    "<"@ + item.url + "|"@ + item.title + ">"@
}

/// The lines of the items in their order, one line feed between two of them.
pub open spec fn item_lines(items: Seq<ItemView>) -> Seq<char>
    decreases items.len(),
{
    if items.len() == 0 {
        Seq::empty()
    } else if items.len() == 1 {
        item_line(items[0])
    } else {
        item_lines(items.drop_last()) + "\n"@ + item_line(items.last())
    }
}

/// The whole message: a line feed, the header, an empty line, the
/// introduction, an empty line, the lines of the items and a final line feed.
pub open spec fn message(items: Seq<ItemView>, stargazer_count: nat) -> Seq<char> {
    "\n"@ + header(stargazer_count) + "\n\n"@ + introduction(items) + "\n\n"@ + item_lines(items)
        + "\n"@
}

/// Appends the line of `item` to `out`.
fn push_item_line(out: &mut String, item: &DigestItem)
    ensures
        final(out)@ == old(out)@ + item_line(item@),
{
    out.append("<");
    out.append(item.url.as_str());
    out.append("|");
    out.append(item.title.as_str());
    out.append(">");
    assert(final(out)@ =~= old(out)@ + item_line(item@));
}

/// Appends the lines of `items` to `out`.
fn push_item_lines(out: &mut String, items: &Vec<DigestItem>)
    ensures
        final(out)@ == old(out)@ + item_lines(items.deep_view()),
{
    let ghost all = items.deep_view();
    let mut index: usize = 0;
    while index < items.len()
        invariant
            index <= items.len(),
            all == items.deep_view(),
            out@ == old(out)@ + item_lines(all.take(index as int)),
        decreases items.len() - index,
    {
        let ghost lines_before = item_lines(all.take(index as int));
        let ghost next = all.take(index + 1);
        proof {
            assert(next.drop_last() == all.take(index as int));
            assert(next.last() == items[index as int]@);
        }
        if index > 0 {
            out.append("\n");
        }
        push_item_line(out, &items[index]);
        assert(out@ =~= old(out)@ + item_lines(next));
        index += 1;
    }
    assert(all.take(index as int) == all);
}

/// Renders the digest message for `items` and `stargazer_count`.
///
/// The items appear in their order, each with its own title and address; the
/// star count appears in the header as a plain decimal number. Where `items`
/// is empty a fixed sentence says so.
pub fn render(items: &Vec<DigestItem>, stargazer_count: u64) -> (text: String)
    ensures
        text@ == message(items.deep_view(), stargazer_count as nat),
{
    let mut text = String::new();
    text.append("\n");
    text.append(HEADER_OPENING);
    push_decimal(&mut text, stargazer_count);
    text.append(HEADER_CLOSING);
    text.append("\n\n");
    if items.len() == 0 {
        text.append(NOTHING_THIS_WEEK);
    } else {
        text.append(ITEMS_FOLLOW);
    }
    text.append("\n\n");
    push_item_lines(&mut text, items);
    text.append("\n");
    assert(text@ =~= message(items.deep_view(), stargazer_count as nat));
    text
}

/// The lines of the items are empty only where there are no items.
pub proof fn lemma_lines_are_empty_only_without_items(items: Seq<ItemView>)
    ensures
        item_lines(items).len() == 0 <==> items.len() == 0,
    decreases items.len(),
{
    reveal_strlit("<");
    if items.len() > 1 {
        lemma_lines_are_empty_only_without_items(items.drop_last());
    }
}

/// Without items the message is the header, the fixed sentence and nothing
/// else, whatever the star count.
pub proof fn lemma_message_without_items(stargazer_count: nat)
    ensures
        message(Seq::empty(), stargazer_count) == "\n"@ + header(stargazer_count) + "\n\n"@
            + NOTHING_THIS_WEEK@ + "\n\n"@ + "\n"@,
{
    let empty = Seq::<ItemView>::empty();
    assert(item_lines(empty) =~= Seq::<char>::empty());
    assert(message(empty, stargazer_count) =~= "\n"@ + header(stargazer_count) + "\n\n"@
        + NOTHING_THIS_WEEK@ + "\n\n"@ + "\n"@);
}

/// With one item the message is the header, the sentence that introduces the
/// items, and the link that joins the item's address to its title.
pub proof fn lemma_message_of_one_item(item: ItemView, stargazer_count: nat)
    ensures
        message(seq![item], stargazer_count) == "\n"@ + header(stargazer_count) + "\n\n"@
            + ITEMS_FOLLOW@ + "\n\n"@ + ("<"@ + item.url + "|"@ + item.title + ">"@) + "\n"@,
{
}

/// The lines of two lists of items laid end to end are the lines of the first
/// followed by the lines of the second, with a line feed between them where
/// neither list is empty: the lines keep the order of the items, and no item
/// is dropped, doubled or moved.
pub proof fn lemma_item_lines_of_joined(first: Seq<ItemView>, second: Seq<ItemView>)
    ensures
        item_lines(first + second) == if first.len() == 0 {
            item_lines(second)
        } else if second.len() == 0 {
            item_lines(first)
        } else {
            item_lines(first) + "\n"@ + item_lines(second)
        },
    decreases second.len(),
{
    let joined = first + second;
    if first.len() == 0 {
        assert(joined =~= second);
    } else if second.len() == 0 {
        assert(joined =~= first);
    } else {
        assert(joined.drop_last() =~= first + second.drop_last());
        assert(joined.last() == second.last());
        lemma_item_lines_of_joined(first, second.drop_last());
        assert(item_lines(joined) =~= item_lines(first) + "\n"@ + item_lines(second));
    }
}

} // verus!
