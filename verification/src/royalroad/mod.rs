//! Royal Road: its search, listings, fiction pages, chapters, home page
//! and settings.
use vstd::prelude::*;

pub mod dynamic;
pub mod home;
use crate::model::{
    Chapter, ChapterView, ContentRating, DateText, DateView, FilterValue, Novel, NovelStatus,
    NovelView, NumberText, NumberView, chapter_views, QueryOp, QueryOpView, QueryUrl,
    novel_views, op_views, opt_view, opt_views,
};
use crate::content::{
    BlockView, ContentBlock, block_spec, block_views, paragraph_block, push_review_link,
    review_link_spec,
};
use crate::text::{
    concat2, concat3, contains, contains_spec, decimal, lemma_replace_absent, lemma_replace_leading,
    occurs_at, decimal_spec, has_prefix, join, join_spec, lowercase, lowercase_of, owned,
    replace, replace_spec, same_text, split, split_spec, starts_with, trim, trim_spec, views,
};

verus! {

broadcast use vstd::string::group_string_axioms;

/// The site's address.
pub const BASE_URL: &'static str = "https://royalroad.com";

// ---------------------------------------------------------------------------
// Search
// ---------------------------------------------------------------------------

/// The view of a step that appends the parameter `name` with `value`.
pub open spec fn push_op(name: Seq<char>, value: Seq<char>) -> QueryOpView {
    QueryOpView { replaces: false, name, value: Some(value) }
}

/// The parameters that one search filter adds: each included tag (in
/// lowercase) as `tagsAdd`, each excluded one as `tagsRemove`, a sort by its
/// id as `orderBy`, a select by its id as `type`, and a text as `author`.
pub open spec fn filter_ops_spec(f: FilterValue) -> Seq<QueryOpView> {
    match f {
        FilterValue::MultiSelect { included, excluded, .. } =>
            views(included@).map_values(|t: Seq<char>| push_op("tagsAdd"@, lowercase_of(t)))
            + views(excluded@).map_values(|t: Seq<char>| push_op("tagsRemove"@, lowercase_of(t))),
        FilterValue::Sort { id, .. } => seq![push_op("orderBy"@, id@)],
        FilterValue::Select { id, .. } => seq![push_op("type"@, id@)],
        FilterValue::Text { value, .. } => seq![push_op("author"@, value@)],
        _ => Seq::<QueryOpView>::empty(),
    }
}

/// The parameters that a list of filters adds, in order.
pub open spec fn filters_ops_spec(fs: Seq<FilterValue>) -> Seq<QueryOpView>
    decreases fs.len(),
{
    if fs.len() == 0 {
        Seq::<QueryOpView>::empty()
    } else {
        filters_ops_spec(fs.drop_last()) + filter_ops_spec(fs.last())
    }
}

/// The query of a search: first `globalFilters=false`, the title searched
/// for and the page, then what the filters add.
pub open spec fn search_ops_spec(query: Option<Seq<char>>, page: int, fs: Seq<FilterValue>) -> Seq<QueryOpView> {
    seq![
        push_op("globalFilters"@, "false"@),
        QueryOpView { replaces: false, name: "title"@, value: query },
        push_op("page"@, decimal_spec(page)),
    ] + filters_ops_spec(fs)
}

/// Appends `name=lowercase(t)` for each `t` of `tags`.
fn push_tags(ops: &mut Vec<QueryOp>, name: &str, tags: Vec<String>)
    ensures
        op_views(final(ops)@) == op_views(old(ops)@) + views(tags@).map_values(
            |t: Seq<char>| push_op(name@, lowercase_of(t)),
        ),
{
    let ghost start = op_views(ops@);
    let ghost all = views(tags@);
    for t in it: tags
        invariant
            all == views(it.seq()),
            op_views(ops@) == start + all.take(it.index() as int).map_values(
                |t: Seq<char>| push_op(name@, lowercase_of(t)),
            ),
    {
        let ghost i = it.index() as int;
        let ghost before = op_views(ops@);
        assert(t@ == all[i]);
        let low = lowercase(t.as_str());
        ops.push(QueryOp::Push(owned(name), Some(low)));
        assert(op_views(ops@) =~= before.push(push_op(name@, lowercase_of(all[i]))));
        assert(all.take(i + 1) =~= all.take(i).push(all[i]));
        assert(op_views(ops@) =~= start + all.take(i + 1).map_values(
            |t: Seq<char>| push_op(name@, lowercase_of(t)),
        ));
    }
    assert(all.take(all.len() as int) =~= all);
}

/// The search URL: the search page of the site, with its query.
pub fn search_query(query: Option<String>, page: i32, filters: Vec<FilterValue>) -> (r: QueryUrl)
    ensures
        r.path@ == BASE_URL@ + "/fictions/search"@,
        op_views(r.ops@) == search_ops_spec(opt_view(query), page as int, filters@),
{
    let mut ops: Vec<QueryOp> = Vec::new();
    ops.push(QueryOp::Push(owned("globalFilters"), Some(owned("false"))));
    ops.push(QueryOp::Push(owned("title"), query));
    ops.push(QueryOp::Push(owned("page"), Some(decimal(page))));
    let ghost head = op_views(ops@);
    assert(head =~= search_ops_spec(opt_view(query), page as int, Seq::<FilterValue>::empty()));
    let ghost fs = filters@;
    for f in it: filters
        invariant
            fs == it.seq(),
            op_views(ops@) == head + filters_ops_spec(fs.take(it.index() as int)),
    {
        let ghost i = it.index() as int;
        let ghost before = op_views(ops@);
        assert(fs.take(i + 1).drop_last() =~= fs.take(i));
        assert(fs.take(i + 1).last() == fs[i]);
        let ghost fv = f;
        match f {
            FilterValue::MultiSelect { included, excluded, .. } => {
                push_tags(&mut ops, "tagsAdd", included);
                push_tags(&mut ops, "tagsRemove", excluded);
            },
            FilterValue::Sort { id, .. } => {
                ops.push(QueryOp::Push(owned("orderBy"), Some(id)));
            },
            FilterValue::Select { id, .. } => {
                ops.push(QueryOp::Push(owned("type"), Some(id)));
            },
            FilterValue::Text { value, .. } => {
                ops.push(QueryOp::Push(owned("author"), Some(value)));
            },
            _ => {},
        }
        assert(op_views(ops@) =~= before + filter_ops_spec(fv));
        assert(head + filters_ops_spec(fs.take(i + 1)) =~= before + filter_ops_spec(fv));
    }
    assert(fs.take(fs.len() as int) =~= fs);
    QueryUrl { path: concat2(BASE_URL, "/fictions/search"), ops }
}


// ---------------------------------------------------------------------------
// Fiction lists
// ---------------------------------------------------------------------------

/// What one item of a fiction list shows: the link of its first anchor, the
/// image inside that anchor, the text of the anchor without an image, the
/// tag labels, all labels, and the texts of its description block. A part
/// that the page lacks is `None`.
#[derive(Debug)]
pub struct FictionItem {
    pub href: Option<String>,
    pub cover_src: Option<String>,
    pub title_text: Option<String>,
    pub tags: Option<Vec<String>>,
    pub labels: Option<Vec<String>>,
    pub descriptions: Option<Vec<String>>,
}

/// The key of a fiction: its link without `/fiction/`.
pub open spec fn fiction_key_spec(href: Seq<char>) -> Seq<char> {
    replace_spec(href, "/fiction/"@, Seq::<char>::empty())
}

/// A cover address: kept when it is absolute (`https://`), else taken
/// relative to the site.
pub open spec fn cover_url_spec(src: Seq<char>) -> Seq<char> {
    if has_prefix(src, "https://"@) {
        src
    } else {
        BASE_URL@ + src
    }
}

/// The status that a label names, if it names one.
pub open spec fn status_word_spec(t: Seq<char>) -> Option<NovelStatus> {
    if t == "COMPLETED"@ {
        Some(NovelStatus::Completed)
    } else if t == "ONGOING"@ {
        Some(NovelStatus::Ongoing)
    } else if t == "INACTIVE"@ || t == "HIATUS"@ {
        Some(NovelStatus::Hiatus)
    } else if t == "CANCELLED"@ {
        Some(NovelStatus::Cancelled)
    } else {
        None
    }
}

/// The status named by the first label that names one, else unknown.
pub open spec fn first_status_spec(labels: Seq<Seq<char>>) -> NovelStatus
    decreases labels.len(),
{
    if labels.len() == 0 {
        NovelStatus::Unknown
    } else {
        match status_word_spec(labels[0]) {
            Some(s) => s,
            None => first_status_spec(labels.drop_first()),
        }
    }
}

/// The status shown by a list of labels, unknown when there is none.
pub open spec fn labels_status_spec(labels: Option<Vec<String>>) -> NovelStatus {
    match labels {
        Some(v) => first_status_spec(views(v@)),
        None => NovelStatus::Unknown,
    }
}

/// The description made of the paragraphs of a description block.
pub open spec fn description_spec(d: Option<Vec<String>>) -> Option<Seq<char>> {
    match d {
        Some(v) => Some(join_spec(views(v@), "\n\n"@)),
        None => None,
    }
}

/// The novel that a list item shows, if it has a link, a cover and a title.
/// A listing also records the novel's page; a search does not.
pub open spec fn fiction_entry_spec(item: FictionItem, listed: bool) -> Option<NovelView> {
    match (item.href, item.cover_src, item.title_text) {
        (Some(href), Some(src), Some(title)) => Some(NovelView {
            key: fiction_key_spec(href@),
            title: trim_spec(title@),
            cover: Some(cover_url_spec(src@)),
            authors: None,
            description: description_spec(item.descriptions),
            tags: opt_views(item.tags),
            status: labels_status_spec(item.labels),
            content_rating: ContentRating::Unknown,
            url: if listed { Some(BASE_URL@ + href@) } else { None },
            chapters: None,
            has_more_chapters: None,
        }),
        _ => None,
    }
}

/// The novels of a list of items, skipping items that lack a part.
pub open spec fn fiction_entries_spec(items: Seq<FictionItem>, listed: bool) -> Seq<NovelView>
    decreases items.len(),
{
    if items.len() == 0 {
        Seq::<NovelView>::empty()
    } else {
        let init = fiction_entries_spec(items.drop_last(), listed);
        match fiction_entry_spec(items.last(), listed) {
            Some(n) => init.push(n),
            None => init,
        }
    }
}

/// The key of a fiction from its link.
pub fn fiction_key(href: &str) -> (k: String)
    ensures
        k@ == fiction_key_spec(href@),
{
    proof {
        reveal_strlit("/fiction/");
        reveal_strlit("");
    }
    let k = replace(href, "/fiction/", "");
    assert(""@ =~= Seq::<char>::empty());
    k
}

/// A cover address made absolute.
pub fn cover_url(src: String) -> (c: String)
    ensures
        c@ == cover_url_spec(src@),
{
    if starts_with(src.as_str(), "https://") {
        src
    } else {
        concat2(BASE_URL, src.as_str())
    }
}

/// The status that a label names, if it names one.
pub fn status_word(t: &str) -> (s: Option<NovelStatus>)
    ensures
        s == status_word_spec(t@),
{
    if same_text(t, "COMPLETED") {
        Some(NovelStatus::Completed)
    } else if same_text(t, "ONGOING") {
        Some(NovelStatus::Ongoing)
    } else if same_text(t, "INACTIVE") || same_text(t, "HIATUS") {
        Some(NovelStatus::Hiatus)
    } else if same_text(t, "CANCELLED") {
        Some(NovelStatus::Cancelled)
    } else {
        None
    }
}

/// The status shown by a list of labels: that of the first label naming one.
pub fn labels_status(labels: &Option<Vec<String>>) -> (s: NovelStatus)
    ensures
        s == labels_status_spec(*labels),
{
    match labels {
        None => NovelStatus::Unknown,
        Some(v) => {
            let ghost all = views(v@);
            let n = v.len();
            let mut i: usize = 0;
            assert(all.skip(0) =~= all);
            while i < n
                invariant
                    n == v@.len(),
                    all == views(v@),
                    labels_status_spec(*labels) == first_status_spec(all),
                    i <= n,
                    first_status_spec(all) == first_status_spec(all.skip(i as int)),
                decreases n - i,
            {
                let w = status_word(v[i].as_str());
                assert(all.skip(i as int)[0] == all[i as int]);
                match w {
                    Some(s) => {
                        return s;
                    },
                    None => {
                        assert(all.skip(i as int).drop_first() =~= all.skip(i + 1));
                    },
                }
                i = i + 1;
            }
            assert(all.skip(n as int).len() == 0);
            NovelStatus::Unknown
        },
    }
}

/// The description made of the paragraphs of a description block.
pub fn description_of(d: Option<Vec<String>>) -> (r: Option<String>)
    ensures
        opt_view(r) == description_spec(d),
{
    match d {
        Some(v) => Some(join(&v, "\n\n")),
        None => None,
    }
}

/// The selector of the description block of the fiction with key `key`:
/// `#description-` and the first segment of the key.
pub fn description_selector(key: &str) -> (s: String)
    ensures
        s@ == "#description-"@ + split_spec(key@, '/')[0],
{
    let parts = split(key, '/');
    concat2("#description-", parts[0].as_str())
}

/// The novel that a list item shows, if it has a link, a cover and a title.
pub fn fiction_entry(item: FictionItem, listed: bool) -> (r: Option<Novel>)
    ensures
        match r {
            Some(n) => fiction_entry_spec(item, listed) == Some(n@),
            None => fiction_entry_spec(item, listed) is None,
        },
{
    let ghost it = item;
    let FictionItem { href, cover_src, title_text, tags, labels, descriptions } = item;
    match (href, cover_src, title_text) {
        (Some(href), Some(src), Some(title)) => {
            let key = fiction_key(href.as_str());
            let status = labels_status(&labels);
            let url = if listed { Some(concat2(BASE_URL, href.as_str())) } else { None };
            let n = Novel {
                key,
                title: trim(title.as_str()),
                cover: Some(cover_url(src)),
                authors: None,
                description: description_of(descriptions),
                tags,
                status,
                content_rating: ContentRating::Unknown,
                url,
                chapters: None,
                has_more_chapters: None,
            };
            assert(fiction_entry_spec(it, listed) =~= Some(n@));
            Some(n)
        },
        _ => None,
    }
}

/// The novels of a list of items, skipping items that lack a part.
pub fn fiction_entries(items: Vec<FictionItem>, listed: bool) -> (r: Vec<Novel>)
    ensures
        novel_views(r@) == fiction_entries_spec(items@, listed),
{
    let mut r: Vec<Novel> = Vec::new();
    let ghost all = items@;
    for item in it: items
        invariant
            all == it.seq(),
            novel_views(r@) == fiction_entries_spec(all.take(it.index() as int), listed),
    {
        let ghost i = it.index() as int;
        assert(all.take(i + 1).drop_last() =~= all.take(i));
        assert(all.take(i + 1).last() == all[i]);
        let ghost before = novel_views(r@);
        match fiction_entry(item, listed) {
            Some(n) => {
                r.push(n);
                assert(novel_views(r@) =~= before.push(n@));
            },
            None => {},
        }
    }
    assert(all.take(all.len() as int) =~= all);
    r
}

// ---------------------------------------------------------------------------
// Listings
// ---------------------------------------------------------------------------

/// The page of the site that a listing shows; the best rated fictions for
/// an id that names no listing.
pub open spec fn listing_path_spec(id: Seq<char>) -> Seq<char> {
    if id == "best-rated"@ {
        "/fictions/best-rated"@
    } else if id == "new-releases"@ {
        "/fictions/new"@
    } else if id == "rising-stars"@ {
        "/fictions/rising-stars"@
    } else if id == "trending"@ {
        "/fictions/trending"@
    } else if id == "latest-updates"@ {
        "/fictions/latest-updates"@
    } else {
        "/fictions/best-rated"@
    }
}

/// The address of page `page` of the listing `id`.
pub fn listing_url(id: &str, page: i32) -> (u: String)
    ensures
        u@ == BASE_URL@ + listing_path_spec(id@) + "?page="@ + decimal_spec(page as int),
{
    let path = if same_text(id, "best-rated") {
        "/fictions/best-rated"
    } else if same_text(id, "new-releases") {
        "/fictions/new"
    } else if same_text(id, "rising-stars") {
        "/fictions/rising-stars"
    } else if same_text(id, "trending") {
        "/fictions/trending"
    } else if same_text(id, "latest-updates") {
        "/fictions/latest-updates"
    } else {
        "/fictions/best-rated"
    };
    let head = concat3(BASE_URL, path, "?page=");
    let num = decimal(page);
    concat2(head.as_str(), num.as_str())
}

// ---------------------------------------------------------------------------
// Fiction pages
// ---------------------------------------------------------------------------

/// The address of the page of the fiction with key `key`.
pub open spec fn fiction_url_spec(key: Seq<char>) -> Seq<char> {
    BASE_URL@ + "/fiction/"@ + key
}

/// The address of a chapter's page.
pub open spec fn chapter_url_spec(novel_key: Seq<char>, chapter_key: Seq<char>) -> Seq<char> {
    BASE_URL@ + "/fiction/"@ + novel_key + "/chapter/"@ + chapter_key
}

/// The address of the page of the fiction with key `key`.
pub fn fiction_url(key: &str) -> (u: String)
    ensures
        u@ == fiction_url_spec(key@),
{
    concat3(BASE_URL, "/fiction/", key)
}

/// The address of a chapter's page.
pub fn chapter_url(novel_key: &str, chapter_key: &str) -> (u: String)
    ensures
        u@ == chapter_url_spec(novel_key@, chapter_key@),
{
    let head = concat3(BASE_URL, "/fiction/", novel_key);
    concat3(head.as_str(), "/chapter/", chapter_key)
}

/// What the header and information block of a fiction page show: the
/// cover image, the title, the author, the paragraphs of the description,
/// the text of the content warnings, the tag labels and all labels.
#[derive(Debug)]
pub struct FictionDetails {
    pub cover_src: String,
    pub title: Option<String>,
    pub author: String,
    pub descriptions: Option<Vec<String>>,
    pub warnings: Option<String>,
    pub tags: Option<Vec<String>>,
    pub labels: Option<Vec<String>>,
}

/// One row of a fiction's table of chapters: its link, its title and the
/// time it was published.
#[derive(Debug)]
pub struct ChapterRow {
    pub href: String,
    pub title: String,
    pub datetime: String,
}

/// The rating that the content warnings give: sexual content makes it
/// adult, graphic violence or sensitive content suggestive, anything else
/// safe; with no warnings block it is unknown.
pub open spec fn rating_spec(warnings: Option<Seq<char>>) -> ContentRating {
    match warnings {
        None => ContentRating::Unknown,
        Some(w) => if contains_spec(w, "Sexual Content"@) {
            ContentRating::NSFW
        } else if contains_spec(w, "Graphic Violence"@) || contains_spec(w, "Sensitive Content"@) {
            ContentRating::Suggestive
        } else {
            ContentRating::Safe
        },
    }
}

/// The pattern of the publication times of chapters.
pub open spec fn chapter_date_format() -> Seq<char> {
    "yyyy-MM-dd'T'HH:mm:ss.SSSSSSZ"@
}

/// The chapter that the row at index `i` of the table of the fiction
/// `novel_key` stands for: its key is the link without the fiction's chapter
/// path, and it is numbered from 1 in the order of the table.
pub open spec fn chapter_row_spec(novel_key: Seq<char>, row: ChapterRow, i: int) -> ChapterView {
    let key = replace_spec(row.href@, "/fiction/"@ + novel_key + "/chapter/"@, Seq::<char>::empty());
    ChapterView {
        key,
        title: Some(row.title@),
        number: Some(NumberView::Count((i + 1) as nat)),
        volume: None,
        date: Some(DateView { text: row.datetime@, format: chapter_date_format(), now_if_invalid: false }),
        url: Some(chapter_url_spec(novel_key, key)),
    }
}

/// The chapters of a table of rows.
pub open spec fn chapter_rows_spec(novel_key: Seq<char>, rows: Seq<ChapterRow>) -> Seq<ChapterView> {
    Seq::new(rows.len(), |i: int| chapter_row_spec(novel_key, rows[i], i))
}

/// A novel with what its page shows: its details when they were read
/// (the title kept when the page has none), then its chapters when they
/// were read, with no more chapters to load.
pub open spec fn novel_update_spec(
    novel: NovelView,
    details: Option<FictionDetails>,
    rows: Option<Seq<ChapterRow>>,
) -> NovelView {
    let with_details = match details {
        Some(d) => NovelView {
            title: match d.title {
                Some(t) => t@,
                None => novel.title,
            },
            cover: Some(cover_url_spec(d.cover_src@)),
            authors: Some(seq![d.author@]),
            description: description_spec(d.descriptions),
            status: labels_status_spec(d.labels),
            content_rating: rating_spec(opt_view(d.warnings)),
            tags: opt_views(d.tags),
            url: Some(fiction_url_spec(novel.key)),
            ..novel
        },
        None => novel,
    };
    match rows {
        Some(r) => NovelView {
            chapters: Some(chapter_rows_spec(novel.key, r)),
            has_more_chapters: Some(false),
            ..with_details
        },
        None => with_details,
    }
}

/// The rating that the content warnings give.
pub fn content_rating(warnings: &Option<String>) -> (r: ContentRating)
    ensures
        r == rating_spec(opt_view(*warnings)),
{
    match warnings {
        None => ContentRating::Unknown,
        Some(w) => if contains(w.as_str(), "Sexual Content") {
            ContentRating::NSFW
        } else if contains(w.as_str(), "Graphic Violence") || contains(w.as_str(), "Sensitive Content") {
            ContentRating::Suggestive
        } else {
            ContentRating::Safe
        },
    }
}

/// The chapters of the table of the fiction `novel_key`.
pub fn fiction_chapters(novel_key: &str, rows: Vec<ChapterRow>) -> (r: Vec<Chapter>)
    ensures
        chapter_views(r@) == chapter_rows_spec(novel_key@, rows@),
{
    let prefix = concat3("/fiction/", novel_key, "/chapter/");
    proof {
        reveal_strlit("/fiction/");
        reveal_strlit("");
    }
    assert(prefix@.len() > 0);
    assert(""@ =~= Seq::<char>::empty());
    let mut r: Vec<Chapter> = Vec::new();
    let ghost all = rows@;
    let mut count: usize = 0;
    let n = rows.len();
    for row in it: rows
        invariant
            all == it.seq(),
            all.len() == n,
            prefix@ == "/fiction/"@ + novel_key@ + "/chapter/"@,
            prefix@.len() > 0,
            ""@ == Seq::<char>::empty(),
            count as int == it.index(),
            chapter_views(r@) == chapter_rows_spec(novel_key@, all.take(it.index() as int)),
    {
        let ghost i = it.index() as int;
        let ghost rowg = row;
        assert(rowg == all[i]);
        let key = replace(row.href.as_str(), prefix.as_str(), "");
        let url = chapter_url(novel_key, key.as_str());
        count = count + 1;
        let c = Chapter {
            key,
            title: Some(row.title),
            number: Some(NumberText::Count(count)),
            volume: None,
            date: Some(DateText {
                text: row.datetime,
                format: owned("yyyy-MM-dd'T'HH:mm:ss.SSSSSSZ"),
                now_if_invalid: false,
            }),
            url: Some(url),
        };
        let ghost before = chapter_views(r@);
        assert(c@ == chapter_row_spec(novel_key@, rowg, i));
        r.push(c);
        assert(chapter_views(r@) =~= before.push(c@));
        assert(chapter_views(r@) =~= chapter_rows_spec(novel_key@, all.take(i + 1)));
    }
    assert(all.take(all.len() as int) =~= all);
    r
}


/// A novel with what its page shows: its details when `details` holds
/// them, its chapters when `rows` holds the table of chapters.
pub fn novel_update(novel: Novel, details: Option<FictionDetails>, rows: Option<Vec<ChapterRow>>) -> (r: Novel)
    ensures
        r@ == novel_update_spec(novel@, details, match rows {
            Some(v) => Some(v@),
            None => None,
        }),
{
    let ghost n0 = novel@;
    let ghost d0 = details;
    let mut novel = novel;
    match details {
        Some(d) => {
            let FictionDetails { cover_src, title, author, descriptions, warnings, tags, labels } = d;
            let status = labels_status(&labels);
            let rating = content_rating(&warnings);
            match title {
                Some(t) => {
                    novel.title = t;
                },
                None => {},
            }
            novel.cover = Some(cover_url(cover_src));
            let mut authors: Vec<String> = Vec::new();
            authors.push(author);
            novel.authors = Some(authors);
            novel.description = description_of(descriptions);
            novel.status = status;
            novel.content_rating = rating;
            novel.tags = tags;
            novel.url = Some(fiction_url(novel.key.as_str()));
        },
        None => {},
    }
    let ghost mid = novel@;
    assert(mid =~= novel_update_spec(n0, d0, None));
    match rows {
        Some(rs) => {
            let chapters = fiction_chapters(novel.key.as_str(), rs);
            novel.chapters = Some(chapters);
            novel.has_more_chapters = Some(false);
        },
        None => {},
    }
    novel
}

// ---------------------------------------------------------------------------
// Chapter pages
// ---------------------------------------------------------------------------

/// The author's note under a chapter: its heading and its text.
#[derive(Debug)]
pub struct AuthorNote {
    pub title: String,
    pub text: String,
}

/// The blocks of a chapter page: one for each paragraph, then the
/// author's note as a quote when there is one, then a divider and the link
/// to the chapter's page.
pub open spec fn chapter_content_spec(
    paragraphs: Seq<Seq<char>>,
    note: Option<AuthorNote>,
    novel_key: Seq<char>,
    chapter_key: Seq<char>,
) -> Seq<BlockView> {
    let body = paragraphs.map_values(|t: Seq<char>| block_spec(t));
    let with_note = match note {
        Some(n) => body.push(BlockView::BlockQuote(n.title@ + "\n"@ + n.text@)),
        None => body,
    };
    with_note.push(BlockView::Divider).push(
        BlockView::Paragraph(review_link_spec("LINK: "@, chapter_url_spec(novel_key, chapter_key))),
    )
}

/// The blocks of a chapter page.
pub fn chapter_content(
    paragraphs: Vec<String>,
    note: Option<AuthorNote>,
    novel_key: &str,
    chapter_key: &str,
) -> (r: Vec<ContentBlock>)
    ensures
        block_views(r@) == chapter_content_spec(views(paragraphs@), note, novel_key@, chapter_key@),
{
    let ghost texts = views(paragraphs@);
    let mut r: Vec<ContentBlock> = Vec::new();
    for p in it: paragraphs
        invariant
            texts == views(it.seq()),
            block_views(r@) == texts.take(it.index() as int).map_values(|t: Seq<char>| block_spec(t)),
    {
        let ghost i = it.index() as int;
        assert(p@ == texts[i]);
        let ghost before = block_views(r@);
        let b = paragraph_block(p);
        assert(b@ == block_spec(texts[i]));
        r.push(b);
        assert(block_views(r@) =~= before.push(block_spec(texts[i])));
        assert(texts.take(i + 1) =~= texts.take(i).push(texts[i]));
        assert(block_views(r@) =~= texts.take(i + 1).map_values(|t: Seq<char>| block_spec(t)));
    }
    assert(texts.take(texts.len() as int) =~= texts);
    let ghost body = block_views(r@);
    let ghost n0 = note;
    match note {
        Some(n) => {
            let q = concat3(n.title.as_str(), "\n", n.text.as_str());
            r.push(ContentBlock::BlockQuote(q));
            assert(block_views(r@) =~= body.push(BlockView::BlockQuote(n.title@ + "\n"@ + n.text@)));
        },
        None => {},
    }
    let url = chapter_url(novel_key, chapter_key);
    push_review_link(&mut r, "LINK: ", url.as_str());
    r
}


// ---------------------------------------------------------------------------
// Laws
// ---------------------------------------------------------------------------

/// Every chapter listed on a fiction's page links to the page that the
/// chapter's content is read from (and that its review link points to).
pub proof fn lemma_chapter_links_open_chapter_pages(novel_key: Seq<char>, rows: Seq<ChapterRow>, i: int)
    requires
        0 <= i < rows.len(),
    ensures
        chapter_rows_spec(novel_key, rows)[i].url
            == Some(chapter_url_spec(novel_key, chapter_rows_spec(novel_key, rows)[i].key)),
        chapter_rows_spec(novel_key, rows)[i].number == Some(NumberView::Count((i + 1) as nat)),
{
}

/// A listed fiction whose link is `/fiction/` and a path without another
/// `/fiction/` is recorded with the address of the very page that its
/// update reads, which is found from its key.
pub proof fn lemma_listed_url_is_fiction_page(item: FictionItem, rest: Seq<char>)
    requires
        item.href matches Some(h) && h@ == "/fiction/"@ + rest,
        item.cover_src is Some,
        item.title_text is Some,
        forall|i: int| !occurs_at(rest, "/fiction/"@, i),
    ensures
        fiction_entry_spec(item, true) matches Some(n) && n.key == rest
            && n.url == Some(fiction_url_spec(n.key)),
{
    reveal_strlit("/fiction/");
    lemma_replace_leading("/fiction/"@, rest, Seq::<char>::empty());
    lemma_replace_absent(rest, "/fiction/"@, Seq::<char>::empty());
    assert(Seq::<char>::empty() + rest =~= rest);
    let h = item.href.unwrap();
    assert(BASE_URL@ + h@ =~= BASE_URL@ + "/fiction/"@ + rest);
}


/// Updating a novel when neither its details nor its chapters are asked
/// for leaves it as it was.
pub proof fn lemma_update_without_parts_keeps_novel(n: NovelView)
    ensures
        novel_update_spec(n, None, None) == n,
{
}


/// The names of the statuses that labels show.
pub open spec fn is_status_label(t: Seq<char>) -> bool {
    t == "COMPLETED"@ || t == "ONGOING"@ || t == "INACTIVE"@ || t == "HIATUS"@ || t == "CANCELLED"@
}

/// The status a list of labels shows is given by its first status label:
/// `COMPLETED` completed, `ONGOING` ongoing, `INACTIVE` and `HIATUS` on
/// hiatus, `CANCELLED` cancelled; with no status label it is unknown.
pub proof fn lemma_first_status_label(labels: Seq<Seq<char>>, k: int)
    requires
        0 <= k <= labels.len(),
        forall|j: int| 0 <= j < k ==> !is_status_label(#[trigger] labels[j]),
        k == labels.len() || is_status_label(labels[k]),
    ensures
        k == labels.len() ==> first_status_spec(labels) == NovelStatus::Unknown,
        k < labels.len() && labels[k] == "COMPLETED"@ ==> first_status_spec(labels) == NovelStatus::Completed,
        k < labels.len() && labels[k] == "ONGOING"@ ==> first_status_spec(labels) == NovelStatus::Ongoing,
        k < labels.len() && labels[k] == "INACTIVE"@ ==> first_status_spec(labels) == NovelStatus::Hiatus,
        k < labels.len() && labels[k] == "HIATUS"@ ==> first_status_spec(labels) == NovelStatus::Hiatus,
        k < labels.len() && labels[k] == "CANCELLED"@ ==> first_status_spec(labels) == NovelStatus::Cancelled,
    decreases k,
{
    if k > 0 {
        let rest = labels.drop_first();
        assert(!is_status_label(labels[0]));
        assert forall|j: int| 0 <= j < k - 1 implies !is_status_label(#[trigger] rest[j]) by {
            assert(rest[j] == labels[j + 1]);
        }
        if k < labels.len() {
            assert(rest[k - 1] == labels[k]);
        }
        lemma_first_status_label(rest, k - 1);
    } else if labels.len() > 0 {
        reveal_strlit("COMPLETED");
        reveal_strlit("ONGOING");
        reveal_strlit("INACTIVE");
        reveal_strlit("HIATUS");
        reveal_strlit("CANCELLED");
        assert("ONGOING"@ != "COMPLETED"@) by {
            assert("ONGOING"@.len() != "COMPLETED"@.len());
        }
        assert("INACTIVE"@ != "COMPLETED"@) by {
            assert("INACTIVE"@.len() != "COMPLETED"@.len());
        }
        assert("INACTIVE"@ != "ONGOING"@) by {
            assert("INACTIVE"@.len() != "ONGOING"@.len());
        }
        assert("HIATUS"@ != "COMPLETED"@) by {
            assert("HIATUS"@.len() != "COMPLETED"@.len());
        }
        assert("HIATUS"@ != "ONGOING"@) by {
            assert("HIATUS"@.len() != "ONGOING"@.len());
        }
        assert("CANCELLED"@ != "COMPLETED"@) by {
            assert("CANCELLED"@[1] != "COMPLETED"@[1]);
        }
        assert("CANCELLED"@ != "ONGOING"@) by {
            assert("CANCELLED"@.len() != "ONGOING"@.len());
        }
        assert("CANCELLED"@ != "INACTIVE"@) by {
            assert("CANCELLED"@.len() != "INACTIVE"@.len());
        }
        assert("CANCELLED"@ != "HIATUS"@) by {
            assert("CANCELLED"@.len() != "HIATUS"@.len());
        }
    }
}

/// What an update with a fiction page's details gives, field by field: the
/// page's title (the old one when it has none), its cover (made absolute
/// when relative), its author alone, its tags, the fiction page's address;
/// and the rating of its content warnings: adult with sexual content, else
/// suggestive with graphic violence or sensitive content, else safe, and
/// unknown without a warnings block. The key and chapters stay as they were
/// unless chapters were read.
pub proof fn lemma_update_details(n: NovelView, d: FictionDetails)
    ensures
        ({
            let r = novel_update_spec(n, Some(d), None);
            &&& r.key == n.key
            &&& r.chapters == n.chapters
            &&& r.title == match d.title {
                Some(t) => t@,
                None => n.title,
            }
            &&& has_prefix(d.cover_src@, "https://"@) ==> r.cover == Some(d.cover_src@)
            &&& !has_prefix(d.cover_src@, "https://"@) ==> r.cover == Some("https://royalroad.com"@ + d.cover_src@)
            &&& r.authors == Some(seq![d.author@])
            &&& r.tags == opt_views(d.tags)
            &&& r.url == Some("https://royalroad.com"@ + "/fiction/"@ + n.key)
            &&& d.warnings is None ==> r.content_rating == ContentRating::Unknown
            &&& forall|w: String| d.warnings == Some(w) ==> {
                &&& contains_spec(w@, "Sexual Content"@) ==> r.content_rating == ContentRating::NSFW
                &&& !contains_spec(w@, "Sexual Content"@) && contains_spec(w@, "Graphic Violence"@)
                    ==> r.content_rating == ContentRating::Suggestive
                &&& !contains_spec(w@, "Sexual Content"@) && contains_spec(w@, "Sensitive Content"@)
                    ==> r.content_rating == ContentRating::Suggestive
                &&& !contains_spec(w@, "Sexual Content"@) && !contains_spec(w@, "Graphic Violence"@)
                    && !contains_spec(w@, "Sensitive Content"@) ==> r.content_rating == ContentRating::Safe
            }
        }),
{
}

/// What an update with a chapter table gives: one chapter per row, in the
/// table's order, the row at `i` numbered `i + 1`, titled and dated by the
/// row, keyed by its link without `/fiction/{key}/chapter/`, and linking to
/// `{site}/fiction/{key}/chapter/{chapter key}`; no more chapters follow.
pub proof fn lemma_update_chapters(n: NovelView, rows: Seq<ChapterRow>, i: int)
    requires
        0 <= i < rows.len(),
    ensures
        ({
            let r = novel_update_spec(n, None, Some(rows));
            let c = r.chapters.unwrap()[i];
            &&& r.chapters is Some
            &&& r.chapters.unwrap().len() == rows.len()
            &&& r.has_more_chapters == Some(false)
            &&& c.number == Some(NumberView::Count((i + 1) as nat))
            &&& c.title == Some(rows[i].title@)
            &&& c.date == Some(DateView {
                text: rows[i].datetime@,
                format: "yyyy-MM-dd'T'HH:mm:ss.SSSSSSZ"@,
                now_if_invalid: false,
            })
            &&& c.key == replace_spec(rows[i].href@, "/fiction/"@ + n.key + "/chapter/"@, Seq::<char>::empty())
            &&& c.url == Some("https://royalroad.com"@ + "/fiction/"@ + n.key + "/chapter/"@ + c.key)
        }),
{
}


/// The listing ids name pages of the site: `best-rated` the best rated,
/// `new-releases` the new, `rising-stars`, `trending` and `latest-updates`
/// their own pages, and any other id the best rated.
pub proof fn lemma_listing_pages(id: Seq<char>)
    ensures
        id == "best-rated"@ ==> listing_path_spec(id) == "/fictions/best-rated"@,
        id == "new-releases"@ ==> listing_path_spec(id) == "/fictions/new"@,
        id == "rising-stars"@ ==> listing_path_spec(id) == "/fictions/rising-stars"@,
        id == "trending"@ ==> listing_path_spec(id) == "/fictions/trending"@,
        id == "latest-updates"@ ==> listing_path_spec(id) == "/fictions/latest-updates"@,
        id != "best-rated"@ && id != "new-releases"@ && id != "rising-stars"@ && id != "trending"@
            && id != "latest-updates"@ ==> listing_path_spec(id) == "/fictions/best-rated"@,
{
    reveal_strlit("best-rated");
    reveal_strlit("new-releases");
    reveal_strlit("rising-stars");
    reveal_strlit("trending");
    reveal_strlit("latest-updates");
    assert("new-releases"@ != "best-rated"@) by {
        assert("new-releases"@.len() != "best-rated"@.len());
    }
    assert("rising-stars"@ != "best-rated"@) by {
        assert("rising-stars"@.len() != "best-rated"@.len());
    }
    assert("rising-stars"@ != "new-releases"@) by {
        assert("rising-stars"@[0] != "new-releases"@[0]);
    }
    assert("trending"@ != "best-rated"@) by {
        assert("trending"@.len() != "best-rated"@.len());
    }
    assert("trending"@ != "new-releases"@) by {
        assert("trending"@.len() != "new-releases"@.len());
    }
    assert("trending"@ != "rising-stars"@) by {
        assert("trending"@.len() != "rising-stars"@.len());
    }
    assert("latest-updates"@ != "best-rated"@) by {
        assert("latest-updates"@.len() != "best-rated"@.len());
    }
    assert("latest-updates"@ != "new-releases"@) by {
        assert("latest-updates"@.len() != "new-releases"@.len());
    }
    assert("latest-updates"@ != "rising-stars"@) by {
        assert("latest-updates"@.len() != "rising-stars"@.len());
    }
    assert("latest-updates"@ != "trending"@) by {
        assert("latest-updates"@.len() != "trending"@.len());
    }
}

/// A search asks first for `globalFilters=false`, then the title searched
/// for, then the page in decimal; each filter then appends its steps after
/// those of the filters before it: a sort its id as `orderBy`, a select its
/// id as `type`, a text its value as `author`, a multi-select each included
/// tag in lowercase as `tagsAdd` and then each excluded one as `tagsRemove`,
/// and any other filter nothing.
pub proof fn lemma_search_steps(query: Option<Seq<char>>, page: int, fs: Seq<FilterValue>, f: FilterValue)
    ensures
        ({
            let before = search_ops_spec(query, page, fs);
            let after = search_ops_spec(query, page, fs.push(f));
            &&& before.len() >= 3
            &&& before[0] == push_op("globalFilters"@, "false"@)
            &&& before[1] == (QueryOpView { replaces: false, name: "title"@, value: query })
            &&& before[2] == push_op("page"@, decimal_spec(page))
            &&& after.subrange(0, before.len() as int) == before
            &&& match f {
                FilterValue::Sort { id, .. } => after.len() == before.len() + 1
                    && after.last() == push_op("orderBy"@, id@),
                FilterValue::Select { id, .. } => after.len() == before.len() + 1
                    && after.last() == push_op("type"@, id@),
                FilterValue::Text { value, .. } => after.len() == before.len() + 1
                    && after.last() == push_op("author"@, value@),
                FilterValue::MultiSelect { included, excluded, .. } => {
                    &&& after.len() == before.len() + included@.len() + excluded@.len()
                    &&& forall|i: int| 0 <= i < included@.len()
                        ==> after[before.len() + i] == push_op("tagsAdd"@, lowercase_of(#[trigger] included@[i]@))
                    &&& forall|i: int| 0 <= i < excluded@.len()
                        ==> after[before.len() + included@.len() + i]
                            == push_op("tagsRemove"@, lowercase_of(#[trigger] excluded@[i]@))
                },
                _ => after == before,
            }
        }),
{
    assert(fs.push(f).drop_last() =~= fs);
    assert(fs.push(f).last() == f);
    let head = seq![
        push_op("globalFilters"@, "false"@),
        QueryOpView { replaces: false, name: "title"@, value: query },
        push_op("page"@, decimal_spec(page)),
    ];
    let before = search_ops_spec(query, page, fs);
    let after = search_ops_spec(query, page, fs.push(f));
    assert(after =~= before + filter_ops_spec(f));
    assert(after.subrange(0, before.len() as int) =~= before);
}

/// A listed fiction, when its item has a link, a cover and a title: its key
/// is the link without `/fiction/`, its title the trimmed title text, its
/// cover the image kept when absolute and taken on the site otherwise, its
/// tags the tag labels, its status that of its first status label, and in a
/// listing its address is the site's followed by the link.
pub proof fn lemma_fiction_entry(item: FictionItem, listed: bool)
    requires
        item.href is Some,
        item.cover_src is Some,
        item.title_text is Some,
    ensures
        ({
            let h = item.href.unwrap()@;
            let src = item.cover_src.unwrap()@;
            let n = fiction_entry_spec(item, listed).unwrap();
            &&& fiction_entry_spec(item, listed) is Some
            &&& n.key == replace_spec(h, "/fiction/"@, Seq::<char>::empty())
            &&& n.title == trim_spec(item.title_text.unwrap()@)
            &&& has_prefix(src, "https://"@) ==> n.cover == Some(src)
            &&& !has_prefix(src, "https://"@) ==> n.cover == Some("https://royalroad.com"@ + src)
            &&& n.tags == opt_views(item.tags)
            &&& n.status == labels_status_spec(item.labels)
            &&& n.content_rating == ContentRating::Unknown
            &&& listed ==> n.url == Some("https://royalroad.com"@ + h)
            &&& !listed ==> n.url is None
        }),
{
}

} // verus!
