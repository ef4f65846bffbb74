//! The values a source hands to the reader app: novels, chapters, listings,
//! filters and the views that contracts speak of.
use vstd::prelude::*;
use crate::text::views;

verus! {

/// Publication status of a novel.
#[derive(PartialEq, Eq, Structural, Clone, Copy, Debug)]
pub enum NovelStatus {
    Unknown,
    Ongoing,
    Completed,
    Cancelled,
    Hiatus,
}

/// Audience rating of a novel.
#[derive(PartialEq, Eq, Structural, Clone, Copy, Debug)]
pub enum ContentRating {
    Unknown,
    Safe,
    Suggestive,
    NSFW,
}

/// Where a chapter or volume number comes from. The number itself is a
/// float that the host computes from this.
#[derive(Debug)]
pub enum NumberText {
    /// The whole number `n`.
    Count(usize),
    /// The text, parsed as a decimal number; a page without one is broken.
    Decimal(String),
    /// The text parsed as a decimal number, or `-1` when it is not one.
    DecimalOrMinusOne(String),
}

/// The view of a `NumberText`.
pub enum NumberView {
    Count(nat),
    Decimal(Seq<char>),
    DecimalOrMinusOne(Seq<char>),
}

impl View for NumberText {
    type V = NumberView;

    open spec fn view(&self) -> NumberView {
        match self {
            NumberText::Count(n) => NumberView::Count(*n as nat),
            NumberText::Decimal(t) => NumberView::Decimal(t@),
            NumberText::DecimalOrMinusOne(t) => NumberView::DecimalOrMinusOne(t@),
        }
    }
}

/// A date as a page writes it, with the pattern to read it by. When
/// `now_if_invalid` holds, a text that does not match stands for the
/// current date; otherwise it stands for no date.
#[derive(Debug)]
pub struct DateText {
    pub text: String,
    pub format: String,
    pub now_if_invalid: bool,
}

/// The view of a `DateText`.
pub struct DateView {
    pub text: Seq<char>,
    pub format: Seq<char>,
    pub now_if_invalid: bool,
}

impl View for DateText {
    type V = DateView;

    open spec fn view(&self) -> DateView {
        DateView { text: self.text@, format: self.format@, now_if_invalid: self.now_if_invalid }
    }
}

/// A chapter of a novel.
#[derive(Debug)]
pub struct Chapter {
    pub key: String,
    pub title: Option<String>,
    pub number: Option<NumberText>,
    pub volume: Option<NumberText>,
    pub date: Option<DateText>,
    pub url: Option<String>,
}

/// The view of a `Chapter`.
#[verifier::ext_equal]
pub struct ChapterView {
    pub key: Seq<char>,
    pub title: Option<Seq<char>>,
    pub number: Option<NumberView>,
    pub volume: Option<NumberView>,
    pub date: Option<DateView>,
    pub url: Option<Seq<char>>,
}

/// The view of an optional string.
pub open spec fn opt_view(o: Option<String>) -> Option<Seq<char>> {
    match o {
        Some(s) => Some(s@),
        None => None,
    }
}

/// The view of an optional list of strings.
pub open spec fn opt_views(o: Option<Vec<String>>) -> Option<Seq<Seq<char>>> {
    match o {
        Some(v) => Some(views(v@)),
        None => None,
    }
}

/// The view of an optional number.
pub open spec fn opt_number(o: Option<NumberText>) -> Option<NumberView> {
    match o {
        Some(n) => Some(n@),
        None => None,
    }
}

/// The view of an optional date.
pub open spec fn opt_date(o: Option<DateText>) -> Option<DateView> {
    match o {
        Some(d) => Some(d@),
        None => None,
    }
}

impl View for Chapter {
    type V = ChapterView;

    open spec fn view(&self) -> ChapterView {
        ChapterView {
            key: self.key@,
            title: opt_view(self.title),
            number: opt_number(self.number),
            volume: opt_number(self.volume),
            date: opt_date(self.date),
            url: opt_view(self.url),
        }
    }
}

/// The views of a list of chapters.
pub open spec fn chapter_views(v: Seq<Chapter>) -> Seq<ChapterView> {
    v.map_values(|c: Chapter| c@)
}

/// The view of an optional list of chapters.
pub open spec fn opt_chapters(o: Option<Vec<Chapter>>) -> Option<Seq<ChapterView>> {
    match o {
        Some(v) => Some(chapter_views(v@)),
        None => None,
    }
}

/// A novel, with as much of its page as has been read.
#[derive(Debug)]
pub struct Novel {
    pub key: String,
    pub title: String,
    pub cover: Option<String>,
    pub authors: Option<Vec<String>>,
    pub description: Option<String>,
    pub tags: Option<Vec<String>>,
    pub status: NovelStatus,
    pub content_rating: ContentRating,
    pub url: Option<String>,
    pub chapters: Option<Vec<Chapter>>,
    pub has_more_chapters: Option<bool>,
}

/// The view of a `Novel`.
#[verifier::ext_equal]
pub struct NovelView {
    pub key: Seq<char>,
    pub title: Seq<char>,
    pub cover: Option<Seq<char>>,
    pub authors: Option<Seq<Seq<char>>>,
    pub description: Option<Seq<char>>,
    pub tags: Option<Seq<Seq<char>>>,
    pub status: NovelStatus,
    pub content_rating: ContentRating,
    pub url: Option<Seq<char>>,
    pub chapters: Option<Seq<ChapterView>>,
    pub has_more_chapters: Option<bool>,
}

impl View for Novel {
    type V = NovelView;

    open spec fn view(&self) -> NovelView {
        NovelView {
            key: self.key@,
            title: self.title@,
            cover: opt_view(self.cover),
            authors: opt_views(self.authors),
            description: opt_view(self.description),
            tags: opt_views(self.tags),
            status: self.status,
            content_rating: self.content_rating,
            url: opt_view(self.url),
            chapters: opt_chapters(self.chapters),
            has_more_chapters: self.has_more_chapters,
        }
    }
}

/// The views of a list of novels.
pub open spec fn novel_views(v: Seq<Novel>) -> Seq<NovelView> {
    v.map_values(|n: Novel| n@)
}

/// A novel known only by its key, title and cover, as a list shows it;
/// everything else is left unknown.
pub open spec fn summary_view(key: Seq<char>, title: Seq<char>, cover: Option<Seq<char>>) -> NovelView {
    NovelView {
        key,
        title,
        cover,
        authors: None,
        description: None,
        tags: None,
        status: NovelStatus::Unknown,
        content_rating: ContentRating::Unknown,
        url: None,
        chapters: None,
        has_more_chapters: None,
    }
}

impl Novel {
    /// A novel known only by its key, title and cover.
    pub fn summary(key: String, title: String, cover: Option<String>) -> (n: Novel)
        ensures
            n@ == summary_view(key@, title@, opt_view(cover)),
    {
        Novel {
            key,
            title,
            cover,
            authors: None,
            description: None,
            tags: None,
            status: NovelStatus::Unknown,
            content_rating: ContentRating::Unknown,
            url: None,
            chapters: None,
            has_more_chapters: None,
        }
    }
}

/// One page of a list of novels.
#[derive(Debug)]
pub struct NovelPageResult {
    pub entries: Vec<Novel>,
    pub has_next_page: bool,
}

/// How a listing is shown.
#[derive(PartialEq, Eq, Structural, Clone, Copy, Debug)]
pub enum ListingKind {
    Default,
    List,
}

/// A named list of novels that a source offers.
#[derive(Debug)]
pub struct Listing {
    pub id: String,
    pub name: String,
    pub kind: ListingKind,
}

/// A filter that the reader set on a search.
#[derive(Debug)]
#[allow(inconsistent_fields)]
pub enum FilterValue {
    Text { id: String, value: String },
    Sort { id: String, index: i32, ascending: bool },
    Check { id: String, value: i32 },
    Select { id: String, value: String },
    MultiSelect { id: String, included: Vec<String>, excluded: Vec<String> },
    /// A filter of a kind that no source here reads (such as a range).
    Other,
}

/// A step in building the query string of a search URL: `Push` appends a
/// parameter, `Replace` replaces every parameter of that name by one.
#[derive(Debug)]
pub enum QueryOp {
    Push(String, Option<String>),
    Replace(String, Option<String>),
}

/// The view of a `QueryOp`: whether it replaces, the name and the value.
pub struct QueryOpView {
    pub replaces: bool,
    pub name: Seq<char>,
    pub value: Option<Seq<char>>,
}

impl View for QueryOp {
    type V = QueryOpView;

    open spec fn view(&self) -> QueryOpView {
        match self {
            QueryOp::Push(n, v) => QueryOpView { replaces: false, name: n@, value: opt_view(*v) },
            QueryOp::Replace(n, v) => QueryOpView { replaces: true, name: n@, value: opt_view(*v) },
        }
    }
}

/// The views of a list of query steps.
pub open spec fn op_views(v: Seq<QueryOp>) -> Seq<QueryOpView> {
    v.map_values(|o: QueryOp| o@)
}

/// A request URL whose query string is built by applying `ops` in order.
#[derive(Debug)]
pub struct QueryUrl {
    pub path: String,
    pub ops: Vec<QueryOp>,
}


/// The view of a `Listing`.
pub struct ListingView {
    pub id: Seq<char>,
    pub name: Seq<char>,
    pub kind: ListingKind,
}

impl View for Listing {
    type V = ListingView;

    open spec fn view(&self) -> ListingView {
        ListingView { id: self.id@, name: self.name@, kind: self.kind }
    }
}

/// The views of a list of listings.
pub open spec fn listing_views(v: Seq<Listing>) -> Seq<ListingView> {
    v.map_values(|l: Listing| l@)
}

/// What a section of a home page shows: nothing yet (while it loads), or
/// the novels of a listing as details, a stack or a scroller of a size.
#[derive(Debug)]
pub enum HomeValue {
    EmptyDetails,
    EmptyStack,
    EmptyScroller,
    Details { entries: Vec<Novel>, listing: Listing },
    Stack { entries: Vec<Novel>, listing: Listing },
    Scroller { entries: Vec<Novel>, listing: Listing, size: i32 },
}

/// The view of a `HomeValue`.
pub enum HomeValueView {
    EmptyDetails,
    EmptyStack,
    EmptyScroller,
    Details { entries: Seq<NovelView>, listing: ListingView },
    Stack { entries: Seq<NovelView>, listing: ListingView },
    Scroller { entries: Seq<NovelView>, listing: ListingView, size: int },
}

impl View for HomeValue {
    type V = HomeValueView;

    open spec fn view(&self) -> HomeValueView {
        match self {
            HomeValue::EmptyDetails => HomeValueView::EmptyDetails,
            HomeValue::EmptyStack => HomeValueView::EmptyStack,
            HomeValue::EmptyScroller => HomeValueView::EmptyScroller,
            HomeValue::Details { entries, listing } => HomeValueView::Details {
                entries: novel_views(entries@),
                listing: listing@,
            },
            HomeValue::Stack { entries, listing } => HomeValueView::Stack {
                entries: novel_views(entries@),
                listing: listing@,
            },
            HomeValue::Scroller { entries, listing, size } => HomeValueView::Scroller {
                entries: novel_views(entries@),
                listing: listing@,
                size: *size as int,
            },
        }
    }
}

/// A section of a home page.
#[derive(Debug)]
pub struct HomeComponent {
    pub title: Option<String>,
    pub subtitle: Option<String>,
    pub value: HomeValue,
}

/// The view of a `HomeComponent`.
pub struct HomeComponentView {
    pub title: Option<Seq<char>>,
    pub subtitle: Option<Seq<char>>,
    pub value: HomeValueView,
}

impl View for HomeComponent {
    type V = HomeComponentView;

    open spec fn view(&self) -> HomeComponentView {
        HomeComponentView {
            title: opt_view(self.title),
            subtitle: opt_view(self.subtitle),
            value: self.value@,
        }
    }
}

/// The views of a list of home sections.
pub open spec fn component_views(v: Seq<HomeComponent>) -> Seq<HomeComponentView> {
    v.map_values(|c: HomeComponent| c@)
}


/// Whether a list has a next page, from the element that marks it: there
/// is one, and it does not carry the class that marks the last page
/// (`Some(false)`).
pub fn has_next_page(marked_last: Option<bool>) -> (b: bool)
    ensures
        b == (marked_last == Some(false)),
{
    match marked_last {
        Some(last) => !last,
        None => false,
    }
}

} // verus!
