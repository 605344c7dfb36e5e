//! Feed items, match records, and reading a feed document into items.
use vstd::prelude::*;

verus! {

/// One entry of a feed; a field that the document leaves out is empty.
pub struct FeedItem {
    pub title: String,
    pub link: String,
    pub description: String,
}

/// The mathematical value of a `FeedItem`.
pub struct ItemView {
    pub title: Seq<char>,
    pub link: Seq<char>,
    pub description: Seq<char>,
}

impl View for FeedItem {
    type V = ItemView;

    open spec fn view(&self) -> ItemView {
        ItemView { title: self.title@, link: self.link@, description: self.description@ }
    }
}

/// What a query returns for a matching item: its link and its description.
pub struct MatchRecord {
    pub url: String,
    pub resume: String,
}

/// The mathematical value of a `MatchRecord`.
pub struct RecordView {
    pub url: Seq<char>,
    pub resume: Seq<char>,
}

impl View for MatchRecord {
    type V = RecordView;

    open spec fn view(&self) -> RecordView {
        RecordView { url: self.url@, resume: self.resume@ }
    }
}

pub open spec fn item_views(s: Seq<FeedItem>) -> Seq<ItemView> {
    s.map_values(|i: FeedItem| i@)
}

pub open spec fn record_views(s: Seq<MatchRecord>) -> Seq<RecordView> {
    s.map_values(|r: MatchRecord| r@)
}

/// Why a document could not be read as a feed.
#[derive(PartialEq, Eq, Structural, Debug, Clone, Copy)]
pub enum ParseError {
    MalformedDocument,
}

/// An item as the feed reader hands it out: title, link and description,
/// each possibly absent.
pub type RawItem = (Option<String>, Option<String>, Option<String>);

pub type RawItemView = (Option<Seq<char>>, Option<Seq<char>>, Option<Seq<char>>);

pub open spec fn text_view(o: Option<String>) -> Option<Seq<char>> {
    match o {
        Some(s) => Some(s@),
        None => None,
    }
}

pub open spec fn raw_view(r: RawItem) -> RawItemView {
    (text_view(r.0), text_view(r.1), text_view(r.2))
}

/// The items that the RSS reader finds in a document, in document order, or
/// `None` where it cannot read the document as a channel.
pub uninterp spec fn rss_items_of(body: Seq<char>) -> Option<Seq<RawItemView>>;

pub open spec fn text_or_empty_spec(o: Option<Seq<char>>) -> Seq<char> {
    match o {
        Some(s) => s,
        None => seq![],
    }
}

/// An item with each absent field made empty.
pub open spec fn normalize(r: RawItemView) -> ItemView {
    ItemView {
        title: text_or_empty_spec(r.0),
        link: text_or_empty_spec(r.1),
        description: text_or_empty_spec(r.2),
    }
}

/// The items of a feed document, or `None` where it is malformed.
pub open spec fn feed_of(body: Seq<char>) -> Option<Seq<ItemView>> {
    match rss_items_of(body) {
        Some(raw) => Some(raw.map_values(|r: RawItemView| normalize(r))),
        None => None,
    }
}

#[verifier::external_type_specification]
#[verifier::external_body]
pub struct ExRssError(rss::Error);

/// Relies on rss::Channel::read_from, which reads an RSS channel from the
/// document, and on Channel::into_items with the Item accessors title, link
/// and description, which hand out its items in document order. The result
/// depends on the text alone.
#[verifier::external_body]
fn read_channel(body: &str) -> (r: Result<Vec<RawItem>, rss::Error>)
    ensures
        match r {
            Ok(items) => rss_items_of(body@) == Some(items@.map_values(|i: RawItem| raw_view(i))),
            Err(_) => rss_items_of(body@) is None,
        },
{
    rss::Channel::read_from(body.as_bytes()).map(|channel| {
        channel.into_items().into_iter().map(|item| {
            (item.title().map(String::from), item.link().map(String::from),
             item.description().map(String::from))
        }).collect()
    })
}

fn text_or_empty(o: &Option<String>) -> (r: String)
    ensures
        r@ == text_or_empty_spec(text_view(*o)),
{
    match o {
        Some(s) => s.clone(),
        None => String::new(),
    }
}

/// Builds an item from fields that may be absent; an absent one becomes empty.
pub fn item_from_raw(raw: &RawItem) -> (r: FeedItem)
    ensures
        r@ == normalize(raw_view(*raw)),
{
    FeedItem {
        title: text_or_empty(&raw.0),
        link: text_or_empty(&raw.1),
        description: text_or_empty(&raw.2),
    }
}

/// Reads a feed document into its items, in document order.
pub fn parse_feed(body: &str) -> (r: Result<Vec<FeedItem>, ParseError>)
    ensures
        match r {
            Ok(items) => feed_of(body@) == Some(item_views(items@)),
            Err(e) => feed_of(body@) is None && e == ParseError::MalformedDocument,
        },
{
    match read_channel(body) {
        Ok(raw) => {
            let mut items: Vec<FeedItem> = Vec::new();
            let mut i: usize = 0;
            while i < raw.len()
                invariant
                    i <= raw.len(),
                    items@.len() == i,
                    forall|j: int| 0 <= j < i ==> #[trigger] items@[j]@ == normalize(raw_view(raw@[j])),
                decreases raw.len() - i,
            {
                let item = item_from_raw(&raw[i]);
                items.push(item);
                i = i + 1;
            }
            proof {
                assert(raw@.map_values(|x: RawItem| raw_view(x)).map_values(
                    |r: RawItemView| normalize(r),
                ) =~= item_views(items@));
            }
            Ok(items)
        },
        Err(_) => Err(ParseError::MalformedDocument),
    }
}

} // verus!
