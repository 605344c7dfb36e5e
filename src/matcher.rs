//! Testing an item against a query term.
use vstd::prelude::*;
use crate::feed::{FeedItem, ItemView, MatchRecord, RecordView};

verus! {

/// The text that `str::to_lowercase` makes of `s`.
pub uninterp spec fn lower_of(s: Seq<char>) -> Seq<char>;

/// Relies on str::to_lowercase: the lowercase form of the text, which depends
/// on the characters alone; the empty text stays empty.
#[verifier::external_body]
fn lowercase(s: &str) -> (r: String)
    ensures
        r@ == lower_of(s@),
        s@.len() == 0 ==> r@.len() == 0,
{
    s.to_lowercase()
}

/// `needle` occurs in `hay` as a run of consecutive characters.
pub open spec fn is_substring(needle: Seq<char>, hay: Seq<char>) -> bool {
    exists|i: int|
        0 <= i && i + needle.len() <= hay.len() && #[trigger] hay.subrange(i, i + needle.len())
            == needle
}

/// Relies on str::contains with a string pattern: true exactly when the
/// pattern occurs in the text.
#[verifier::external_body]
fn contains_text(hay: &str, needle: &str) -> (r: bool)
    ensures
        r == is_substring(needle@, hay@),
{
    hay.contains(needle)
}

/// An item matches a lowercase term when the term occurs in the lowercase
/// form of its title, its link or its description.
pub open spec fn item_matches(item: ItemView, term: Seq<char>) -> bool {
    is_substring(term, lower_of(item.title)) || is_substring(term, lower_of(item.link))
        || is_substring(term, lower_of(item.description))
}

/// The record that a matching item yields.
pub open spec fn record_of(item: ItemView) -> RecordView {
    RecordView { url: item.link, resume: item.description }
}

/// The records of the items that match `term`, in the items' order.
pub open spec fn records_of(items: Seq<ItemView>, term: Seq<char>) -> Seq<RecordView>
    decreases items.len(),
{
    if items.len() == 0 {
        seq![]
    } else {
        records_of(items.drop_last(), term) + if item_matches(items.last(), term) {
            seq![record_of(items.last())]
        } else {
            seq![]
        }
    }
}

/// The form of a query term that items are tested against: its lowercase form.
pub fn normalize_term(term: &str) -> (r: String)
    ensures
        r@ == lower_of(term@),
        term@.len() == 0 ==> r@.len() == 0,
{
    lowercase(term)
}

/// Tests fields that are already in lowercase form against a term.
pub fn matches_lowered(title: &str, link: &str, description: &str, term: &str) -> (r: bool)
    ensures
        r == (is_substring(term@, title@) || is_substring(term@, link@) || is_substring(
            term@,
            description@,
        )),
{
    contains_text(title, term) || contains_text(link, term) || contains_text(description, term)
}

/// Tests an item against a term that is already in lowercase form.
pub fn matches(item: &FeedItem, term: &str) -> (r: bool)
    ensures
        r == item_matches(item@, term@),
{
    let title = lowercase(item.title.as_str());
    let link = lowercase(item.link.as_str());
    let description = lowercase(item.description.as_str());
    matches_lowered(title.as_str(), link.as_str(), description.as_str(), term)
}

/// The record of an item: its link and its description.
pub fn to_record(item: &FeedItem) -> (r: MatchRecord)
    ensures
        r@ == record_of(item@),
{
    MatchRecord { url: item.link.clone(), resume: item.description.clone() }
}

/// The empty term occurs in every text.
pub proof fn lemma_empty_is_substring(hay: Seq<char>)
    ensures
        is_substring(seq![], hay),
{
    let e: Seq<char> = seq![];
    assert(hay.subrange(0int, 0int + e.len()) =~= e);
}

/// The empty term matches every item, so it keeps every item, in order.
pub proof fn lemma_empty_term_keeps_every_item(items: Seq<ItemView>)
    ensures
        records_of(items, seq![]) == items.map_values(|i: ItemView| record_of(i)),
    decreases items.len(),
{
    if items.len() == 0 {
        assert(items.map_values(|i: ItemView| record_of(i)) =~= seq![]);
    } else {
        lemma_empty_term_keeps_every_item(items.drop_last());
        lemma_empty_is_substring(lower_of(items.last().title));
        assert(item_matches(items.last(), seq![]));
        assert(items.map_values(|i: ItemView| record_of(i)) =~= items.drop_last().map_values(
            |i: ItemView| record_of(i),
        ).push(record_of(items.last())));
    }
}

} // verus!
