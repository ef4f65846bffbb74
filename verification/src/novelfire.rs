//! Novel Fire: its search, book pages, chapter lists and chapter pages.
use vstd::prelude::*;
use crate::content::{
    BlockView, ContentBlock, block_views, blocks_spec, opt_texts, paragraph_blocks, push_review_link,
    review_link_spec,
};
use crate::model::{
    Chapter, ChapterView, ContentRating, DateText, DateView, Novel, NovelStatus, NovelView,
    NumberText, NumberView, chapter_views, novel_views, opt_view, opt_views, summary_view,
};
use crate::text::{
    concat2, concat3, decimal, decimal_spec, join, join_spec, lemma_replace_absent,
    lemma_replace_leading, lemma_split_pieces_lack, occurs_at, owned, replace, replace_spec, split,
    split_spec, trim, trim_spec, views,
};

verus! {

broadcast use vstd::string::group_string_axioms;

/// The site's address.
pub const BASE_URL: &'static str = "https://novelfire.net";

// ---------------------------------------------------------------------------
// Search
// ---------------------------------------------------------------------------

/// The address of page `page` of the search for `query` (nothing when there
/// is no query). The query is put in as it is.
pub open spec fn search_url_spec(query: Option<Seq<char>>, page: int) -> Seq<char> {
    let q = match query {
        Some(q) => q,
        None => Seq::<char>::empty(),
    };
    BASE_URL@ + "/search?keyword="@ + q + "&page="@ + decimal_spec(page)
}

/// The address of page `page` of the search for `query`.
pub fn search_url(query: Option<String>, page: i32) -> (u: String)
    ensures
        u@ == search_url_spec(opt_view(query), page as int),
{
    let q = match query {
        Some(q) => q,
        None => String::new(),
    };
    let head = concat3(BASE_URL, "/search?keyword=", q.as_str());
    let tail = concat2("&page=", decimal(page).as_str());
    let u = concat2(head.as_str(), tail.as_str());
    assert(u@ =~= search_url_spec(opt_view(query), page as int));
    u
}

/// What one search result shows: the link and title of its anchor and the
/// source of its image; `None` where the page lacks one.
#[derive(Debug)]
pub struct SearchItem {
    pub href: Option<String>,
    pub title: Option<String>,
    pub img_src: Option<String>,
}

/// The key of a book: its link without `/book/`.
pub open spec fn book_key_spec(href: Seq<char>) -> Seq<char> {
    replace_spec(href, "/book/"@, Seq::<char>::empty())
}

/// The novel a search result shows, if it has a link, a title and an image;
/// its cover is the image taken relative to the site.
pub open spec fn search_entry_spec(item: SearchItem) -> Option<NovelView> {
    match (item.href, item.title, item.img_src) {
        (Some(h), Some(t), Some(src)) => Some(
            summary_view(book_key_spec(h@), t@, Some(BASE_URL@ + "/"@ + src@)),
        ),
        _ => None,
    }
}

/// The novels of the search results, skipping results that lack a part.
pub open spec fn search_entries_spec(items: Seq<SearchItem>) -> Seq<NovelView>
    decreases items.len(),
{
    if items.len() == 0 {
        Seq::<NovelView>::empty()
    } else {
        let init = search_entries_spec(items.drop_last());
        match search_entry_spec(items.last()) {
            Some(n) => init.push(n),
            None => init,
        }
    }
}

/// The key of a book from its link.
pub fn book_key(href: &str) -> (k: String)
    ensures
        k@ == book_key_spec(href@),
{
    proof {
        reveal_strlit("/book/");
        reveal_strlit("");
    }
    let k = replace(href, "/book/", "");
    assert(""@ =~= Seq::<char>::empty());
    k
}

/// The novel a search result shows.
pub fn search_entry(item: SearchItem) -> (r: Option<Novel>)
    ensures
        match r {
            Some(n) => search_entry_spec(item) == Some(n@),
            None => search_entry_spec(item) is None,
        },
{
    let ghost it = item;
    match (item.href, item.title, item.img_src) {
        (Some(h), Some(t), Some(src)) => {
            let key = book_key(h.as_str());
            let cover = concat3(BASE_URL, "/", src.as_str());
            let n = Novel::summary(key, t, Some(cover));
            Some(n)
        },
        _ => None,
    }
}

/// The novels of the search results.
pub fn search_entries(items: Vec<SearchItem>) -> (r: Vec<Novel>)
    ensures
        novel_views(r@) == search_entries_spec(items@),
{
    let mut r: Vec<Novel> = Vec::new();
    let ghost all = items@;
    for item in it: items
        invariant
            all == it.seq(),
            novel_views(r@) == search_entries_spec(all.take(it.index() as int)),
    {
        let ghost i = it.index() as int;
        assert(all.take(i + 1).drop_last() =~= all.take(i));
        assert(all.take(i + 1).last() == all[i]);
        let ghost before = novel_views(r@);
        match search_entry(item) {
            Some(n) => {
                r.push(n);
                assert(novel_views(r@) =~= before.push(n@));
            },
            None => {},
        }
    }
    assert(all.take(all.len() as int) =~= all);
    r
}

// ---------------------------------------------------------------------------
// Book pages
// ---------------------------------------------------------------------------

/// The address of the page of the book with key `key`.
pub open spec fn book_url_spec(key: Seq<char>) -> Seq<char> {
    BASE_URL@ + "/book/"@ + key
}

/// The address of page `page` of the chapter list of the book `key`.
pub open spec fn chapters_url_spec(key: Seq<char>, page: int) -> Seq<char> {
    BASE_URL@ + "/book/"@ + key + "/chapters?page="@ + decimal_spec(page)
}

/// The address of the page of the book with key `key`.
pub fn book_url(key: &str) -> (u: String)
    ensures
        u@ == book_url_spec(key@),
{
    concat3(BASE_URL, "/book/", key)
}

/// The address of page `page` of the chapter list of the book `key`.
pub fn chapters_url(key: &str, page: i32) -> (u: String)
    ensures
        u@ == chapters_url_spec(key@, page as int),
{
    let head = concat3(BASE_URL, "/book/", key);
    let tail = concat2("/chapters?page=", decimal(page).as_str());
    let u = concat2(head.as_str(), tail.as_str());
    assert(u@ =~= chapters_url_spec(key@, page as int));
    u
}

/// What a book page shows: the cover image, the title, the author, the
/// paragraphs of the description and the categories.
#[derive(Debug)]
pub struct BookDetails {
    pub cover_src: String,
    pub title: Option<String>,
    pub author: String,
    pub descriptions: Option<Vec<String>>,
    pub tags: Option<Vec<String>>,
}

/// What one entry of a chapter list shows: the title of its anchor, the
/// text of its number, the link of its anchor, and its update time (outer
/// `None`: no time element; inner `None`: the element has no time).
#[derive(Debug)]
pub struct ChapterItem {
    pub title_attr: Option<String>,
    pub number_text: Option<String>,
    pub href: Option<String>,
    pub time: Option<Option<String>>,
}

/// The pattern of chapter update times.
pub open spec fn chapter_date_format() -> Seq<char> {
    "yyyy-MM-dd HH:mm:ss"@
}

/// The title of a chapter from its anchor's title `Chapter n: Title`: the
/// second part between colons, trimmed; empty when there is no colon.
pub open spec fn chapter_title_spec(attr: Seq<char>) -> Seq<char> {
    let parts = split_spec(attr, ':');
    if parts.len() > 1 {
        trim_spec(parts[1])
    } else {
        Seq::<char>::empty()
    }
}

/// The chapter an entry shows, if it has a title, a number, a link and a
/// time element: keyed by the last segment of its link, numbered by its
/// trimmed number text.
pub open spec fn chapter_item_spec(item: ChapterItem) -> Option<ChapterView> {
    match (item.title_attr, item.number_text, item.href, item.time) {
        (Some(t), Some(num), Some(h), Some(time)) => Some(ChapterView {
            key: split_spec(h@, '/').last(),
            title: Some(chapter_title_spec(t@)),
            number: Some(NumberView::Decimal(trim_spec(num@))),
            volume: None,
            date: match time {
                Some(d) => Some(DateView { text: d@, format: chapter_date_format(), now_if_invalid: false }),
                None => None,
            },
            url: None,
        }),
        _ => None,
    }
}

/// The chapters of a chapter list, skipping entries that lack a part.
pub open spec fn chapter_items_spec(items: Seq<ChapterItem>) -> Seq<ChapterView>
    decreases items.len(),
{
    if items.len() == 0 {
        Seq::<ChapterView>::empty()
    } else {
        let init = chapter_items_spec(items.drop_last());
        match chapter_item_spec(items.last()) {
            Some(c) => init.push(c),
            None => init,
        }
    }
}

/// The description made of the paragraphs of the description block.
pub open spec fn description_spec(d: Option<Vec<String>>) -> Option<Seq<char>> {
    match d {
        Some(v) => Some(join_spec(views(v@), "\n\n"@)),
        None => None,
    }
}

/// A novel with what was read of its book page and chapter list: with its
/// details (the title kept when the page has none; always ongoing and safe),
/// then with one page of its chapters and whether a next page follows.
pub open spec fn novel_update_spec(
    novel: NovelView,
    details: Option<BookDetails>,
    chapters: Option<(Seq<ChapterItem>, Option<bool>)>,
) -> NovelView {
    let with_details = match details {
        Some(d) => NovelView {
            title: match d.title {
                Some(t) => t@,
                None => novel.title,
            },
            cover: Some(d.cover_src@),
            authors: Some(seq![d.author@]),
            description: description_spec(d.descriptions),
            status: NovelStatus::Ongoing,
            content_rating: ContentRating::Safe,
            tags: opt_views(d.tags),
            url: Some(book_url_spec(novel.key)),
            ..novel
        },
        None => novel,
    };
    match chapters {
        Some((items, marked_last)) => NovelView {
            chapters: Some(chapter_items_spec(items)),
            has_more_chapters: Some(marked_last == Some(false)),
            ..with_details
        },
        None => with_details,
    }
}

/// The title of a chapter from its anchor's title.
pub fn chapter_title(attr: &str) -> (t: String)
    ensures
        t@ == chapter_title_spec(attr@),
{
    let parts = split(attr, ':');
    if parts.len() > 1 {
        trim(parts[1].as_str())
    } else {
        String::new()
    }
}

/// The chapter an entry shows, if it has all its parts.
pub fn chapter_item(item: ChapterItem) -> (r: Option<Chapter>)
    ensures
        match r {
            Some(c) => chapter_item_spec(item) == Some(c@),
            None => chapter_item_spec(item) is None,
        },
{
    let ghost it = item;
    match (item.title_attr, item.number_text, item.href, item.time) {
        (Some(t), Some(num), Some(h), Some(time)) => {
            let parts = split(h.as_str(), '/');
            let last = parts.len() - 1;
            let key = owned(parts[last].as_str());
            let date = match time {
                Some(d) => Some(DateText { text: d, format: owned("yyyy-MM-dd HH:mm:ss"), now_if_invalid: false }),
                None => None,
            };
            let c = Chapter {
                key,
                title: Some(chapter_title(t.as_str())),
                number: Some(NumberText::Decimal(trim(num.as_str()))),
                volume: None,
                date,
                url: None,
            };
            assert(chapter_item_spec(it) =~= Some(c@));
            Some(c)
        },
        _ => None,
    }
}

/// The chapters of a chapter list.
pub fn chapter_items(items: Vec<ChapterItem>) -> (r: Vec<Chapter>)
    ensures
        chapter_views(r@) == chapter_items_spec(items@),
{
    let mut r: Vec<Chapter> = Vec::new();
    let ghost all = items@;
    for item in it: items
        invariant
            all == it.seq(),
            chapter_views(r@) == chapter_items_spec(all.take(it.index() as int)),
    {
        let ghost i = it.index() as int;
        assert(all.take(i + 1).drop_last() =~= all.take(i));
        assert(all.take(i + 1).last() == all[i]);
        let ghost before = chapter_views(r@);
        match chapter_item(item) {
            Some(c) => {
                r.push(c);
                assert(chapter_views(r@) =~= before.push(c@));
            },
            None => {},
        }
    }
    assert(all.take(all.len() as int) =~= all);
    r
}

/// A novel with its book page's details when `details` holds them, and
/// with one page of its chapters when `chapters` holds that page's entries
/// and the mark of its last pagination item.
pub fn novel_update(
    novel: Novel,
    details: Option<BookDetails>,
    chapters: Option<(Vec<ChapterItem>, Option<bool>)>,
) -> (r: Novel)
    ensures
        r@ == novel_update_spec(novel@, details, match chapters {
            Some((v, m)) => Some((v@, m)),
            None => None,
        }),
{
    let ghost n0 = novel@;
    let ghost d0 = details;
    let mut novel = novel;
    match details {
        Some(d) => {
            let BookDetails { cover_src, title, author, descriptions, tags } = d;
            match title {
                Some(t) => {
                    novel.title = t;
                },
                None => {},
            }
            novel.cover = Some(cover_src);
            let mut authors: Vec<String> = Vec::new();
            authors.push(author);
            novel.authors = Some(authors);
            novel.description = match descriptions {
                Some(v) => Some(join(&v, "\n\n")),
                None => None,
            };
            novel.status = NovelStatus::Ongoing;
            novel.content_rating = ContentRating::Safe;
            novel.tags = tags;
            novel.url = Some(book_url(novel.key.as_str()));
        },
        None => {},
    }
    assert(novel@ =~= novel_update_spec(n0, d0, None));
    match chapters {
        Some((items, marked_last)) => {
            novel.chapters = Some(chapter_items(items));
            novel.has_more_chapters = Some(crate::model::has_next_page(marked_last));
        },
        None => {},
    }
    novel
}

// ---------------------------------------------------------------------------
// Chapter pages
// ---------------------------------------------------------------------------

/// The address of a chapter's page.
pub open spec fn chapter_url_spec(novel_key: Seq<char>, chapter_key: Seq<char>) -> Seq<char> {
    BASE_URL@ + "/book/"@ + novel_key + "/"@ + chapter_key
}

/// The address of a chapter's page.
pub fn chapter_url(novel_key: &str, chapter_key: &str) -> (u: String)
    ensures
        u@ == chapter_url_spec(novel_key@, chapter_key@),
{
    let head = concat3(BASE_URL, "/book/", novel_key);
    concat3(head.as_str(), "/", chapter_key)
}

/// The blocks of a chapter page: one for each paragraph that has text,
/// then a divider and the link to the chapter's page.
pub open spec fn chapter_content_spec(
    texts: Seq<Option<Seq<char>>>,
    novel_key: Seq<char>,
    chapter_key: Seq<char>,
) -> Seq<BlockView> {
    blocks_spec(texts).push(BlockView::Divider).push(
        BlockView::Paragraph(review_link_spec("LINK: "@, chapter_url_spec(novel_key, chapter_key))),
    )
}

/// The blocks of a chapter page, from the texts of its paragraphs.
pub fn chapter_content(texts: Vec<Option<String>>, novel_key: &str, chapter_key: &str) -> (r: Vec<ContentBlock>)
    ensures
        block_views(r@) == chapter_content_spec(opt_texts(texts@), novel_key@, chapter_key@),
{
    let mut r = paragraph_blocks(texts);
    let url = chapter_url(novel_key, chapter_key);
    push_review_link(&mut r, "LINK: ", url.as_str());
    r
}


// ---------------------------------------------------------------------------
// Laws
// ---------------------------------------------------------------------------

/// A chapter's key is the last segment of its link, so it holds no `/`, and
/// the chapter's page is one segment below the book's.
pub proof fn lemma_chapter_key_is_one_segment(item: ChapterItem)
    requires
        chapter_item_spec(item) is Some,
    ensures
        forall|j: int| 0 <= j < chapter_item_spec(item).unwrap().key.len()
            ==> #[trigger] chapter_item_spec(item).unwrap().key[j] != '/',
{
    let h = item.href.unwrap();
    lemma_split_pieces_lack(h@, '/');
    let parts = split_spec(h@, '/');
    assert(parts.last() == parts[parts.len() - 1]);
}

/// A book found with the link `/book/{key}`, where `key` holds no other
/// `/book/`, has the key `key`, and its update reads the page at that link.
pub proof fn lemma_search_key_opens_book(item: SearchItem, key: Seq<char>)
    requires
        item.href matches Some(h) && h@ == "/book/"@ + key,
        item.title is Some,
        item.img_src is Some,
        forall|i: int| !occurs_at(key, "/book/"@, i),
    ensures
        search_entry_spec(item) matches Some(n) && n.key == key
            && book_url_spec(n.key) == BASE_URL@ + item.href.unwrap()@,
{
    reveal_strlit("/book/");
    lemma_replace_leading("/book/"@, key, Seq::<char>::empty());
    lemma_replace_absent(key, "/book/"@, Seq::<char>::empty());
    assert(Seq::<char>::empty() + key =~= key);
    assert(BASE_URL@ + "/book/"@ + key =~= BASE_URL@ + ("/book/"@ + key));
}


/// Updating a novel when neither its details nor its chapters are asked
/// for leaves it as it was.
pub proof fn lemma_update_without_parts_keeps_novel(n: NovelView)
    ensures
        novel_update_spec(n, None, None) == n,
{
}


/// What an update with a book page's details gives, field by field: the
/// page's title (the old one when it has none), its cover as it is, its
/// author alone, its description paragraphs joined by blank lines, exactly
/// the categories it shows, the book page's address, ongoing and safe; the
/// key, chapters and whether more chapters follow stay as they were.
pub proof fn lemma_update_details(n: NovelView, d: BookDetails)
    ensures
        ({
            let r = novel_update_spec(n, Some(d), None);
            &&& r.key == n.key
            &&& r.chapters == n.chapters
            &&& r.has_more_chapters == n.has_more_chapters
            &&& r.title == match d.title {
                Some(t) => t@,
                None => n.title,
            }
            &&& r.cover == Some(d.cover_src@)
            &&& r.authors == Some(seq![d.author@])
            &&& r.tags == opt_views(d.tags)
            &&& r.description == match d.descriptions {
                Some(v) => Some(join_spec(views(v@), "\n\n"@)),
                None => None,
            }
            &&& r.url == Some("https://novelfire.net"@ + "/book/"@ + n.key)
            &&& r.status == NovelStatus::Ongoing
            &&& r.content_rating == ContentRating::Safe
        }),
{
}

/// What an update with one page of the chapter list gives: the chapters of
/// its entries, and more chapters exactly when the last pagination item is
/// there and not disabled; the details stay as they were.
pub proof fn lemma_update_chapters(n: NovelView, items: Seq<ChapterItem>, marked_last: Option<bool>)
    ensures
        ({
            let r = novel_update_spec(n, None, Some((items, marked_last)));
            &&& r.chapters == Some(chapter_items_spec(items))
            &&& r.has_more_chapters == Some(marked_last == Some(false))
            &&& r.title == n.title
            &&& r.tags == n.tags
            &&& r.cover == n.cover
        }),
{
}


/// A chapter entry with all its parts gives the chapter keyed by the last
/// `/`-segment of its link, titled by what stands between its title's first
/// and second colons, trimmed (nothing without a colon), numbered by its
/// trimmed number text, and dated by its update time read as
/// `yyyy-MM-dd HH:mm:ss`.
pub proof fn lemma_chapter_item(item: ChapterItem)
    requires
        item.title_attr is Some,
        item.number_text is Some,
        item.href is Some,
        item.time is Some,
    ensures
        ({
            let c = chapter_item_spec(item).unwrap();
            let parts = split_spec(item.title_attr.unwrap()@, ':');
            let segs = split_spec(item.href.unwrap()@, '/');
            &&& chapter_item_spec(item) is Some
            &&& c.key == segs[segs.len() - 1]
            &&& parts.len() > 1 ==> c.title == Some(trim_spec(parts[1]))
            &&& parts.len() <= 1 ==> c.title == Some(Seq::<char>::empty())
            &&& c.number == Some(NumberView::Decimal(trim_spec(item.number_text.unwrap()@)))
            &&& match item.time.unwrap() {
                Some(d) => c.date == Some(DateView { text: d@, format: "yyyy-MM-dd HH:mm:ss"@, now_if_invalid: false }),
                None => c.date is None,
            }
        }),
{
}

} // verus!
