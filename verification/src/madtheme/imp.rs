//! How the template reads a site's pages: its search, novel pages,
//! chapter lists (from the site's API, or from the page when that fails),
//! chapter pages and listings.
use vstd::prelude::*;
use crate::content::{
    BlockView, ContentBlock, block_views, blocks_spec, opt_texts, paragraph_blocks, push_review_link,
    review_link_spec,
};
use crate::json::{JsonValue, as_array_spec, as_str, as_str_spec, index_spec, json_parse, member, parse_json};
use crate::madtheme::{Params, ParamsView};
use crate::model::{
    Chapter, ChapterView, ContentRating, DateText, DateView, FilterValue, Novel, NovelStatus,
    NovelView, NumberText, NumberView, QueryOp, QueryOpView, QueryUrl, chapter_views, novel_views,
    op_views, opt_number, opt_view, summary_view,
};
use crate::text::{
    chars_of, concat2, first_number, lemma_find_first_at, occurs_at, first_number_spec, has_prefix, lemma_find_in_bounds, lemma_strip_prefix_concat, concat3, contains, contains_spec, decimal, decimal_spec, find, find_spec,
    lowercase, lowercase_of, owned, replace, replace_spec, same_text, string_of_range,
    strip_prefix_or_self, strip_prefix_or_self_spec, trim, trim_end_char, trim_end_char_spec,
    trim_spec, views,
};

verus! {

broadcast use vstd::string::group_string_axioms;

// ---------------------------------------------------------------------------
// Search
// ---------------------------------------------------------------------------

/// The sort order that the index of a sort filter picks; by views for an
/// index out of range.
pub open spec fn sort_value_spec(index: int) -> Seq<char> {
    if index == 1 {
        "updated_at"@
    } else if index == 2 {
        "created_at"@
    } else if index == 3 {
        "name"@
    } else if index == 4 {
        "rating"@
    } else {
        "views"@
    }
}

/// The parameters that one filter sets: a sort appends its order under its
/// id, a select replaces the parameter named by its id with its value, and
/// a multi-select appends each included item under its id.
pub open spec fn filter_ops_spec(f: FilterValue) -> Seq<QueryOpView> {
    match f {
        FilterValue::Sort { id, index, .. } => seq![
            QueryOpView { replaces: false, name: id@, value: Some(sort_value_spec(index as int)) },
        ],
        FilterValue::Select { id, value } => seq![
            QueryOpView { replaces: true, name: id@, value: Some(value@) },
        ],
        FilterValue::MultiSelect { id, included, .. } => views(included@).map_values(
            |t: Seq<char>| QueryOpView { replaces: false, name: id@, value: Some(t) },
        ),
        _ => Seq::<QueryOpView>::empty(),
    }
}

/// The parameters that a list of filters sets, in order.
pub open spec fn filters_ops_spec(fs: Seq<FilterValue>) -> Seq<QueryOpView>
    decreases fs.len(),
{
    if fs.len() == 0 {
        Seq::<QueryOpView>::empty()
    } else {
        filters_ops_spec(fs.drop_last()) + filter_ops_spec(fs.last())
    }
}

/// The query of a search: the page, the query text and `status=all`, then
/// what the filters set.
pub open spec fn search_ops_spec(query: Option<Seq<char>>, page: int, fs: Seq<FilterValue>) -> Seq<QueryOpView> {
    seq![
        QueryOpView { replaces: false, name: "page"@, value: Some(decimal_spec(page)) },
        QueryOpView { replaces: false, name: "q"@, value: query },
        QueryOpView { replaces: false, name: "status"@, value: Some("all"@) },
    ] + filters_ops_spec(fs)
}

/// The sort order that the index of a sort filter picks.
pub fn sort_value(index: i32) -> (s: String)
    ensures
        s@ == sort_value_spec(index as int),
{
    if index == 1 {
        owned("updated_at")
    } else if index == 2 {
        owned("created_at")
    } else if index == 3 {
        owned("name")
    } else if index == 4 {
        owned("rating")
    } else {
        owned("views")
    }
}

/// The search URL: the site's search page, with its query.
pub fn search_query(params: &Params, query: Option<String>, page: i32, filters: Vec<FilterValue>) -> (r: QueryUrl)
    ensures
        r.path@ == params.base_url@ + "/search"@,
        op_views(r.ops@) == search_ops_spec(opt_view(query), page as int, filters@),
{
    let mut ops: Vec<QueryOp> = Vec::new();
    ops.push(QueryOp::Push(owned("page"), Some(decimal(page))));
    ops.push(QueryOp::Push(owned("q"), query));
    ops.push(QueryOp::Push(owned("status"), Some(owned("all"))));
    let ghost head = op_views(ops@);
    assert(head =~= search_ops_spec(opt_view(query), page as int, Seq::<FilterValue>::empty()));
    let ghost fs = filters@;
    for f in it: filters
        invariant
            fs == it.seq(),
            op_views(ops@) == head + filters_ops_spec(fs.take(it.index() as int)),
    {
        let ghost i = it.index() as int;
        let ghost before = op_views(ops@);
        assert(fs.take(i + 1).drop_last() =~= fs.take(i));
        assert(fs.take(i + 1).last() == fs[i]);
        let ghost fv = f;
        match f {
            FilterValue::Sort { id, index, .. } => {
                ops.push(QueryOp::Push(id, Some(sort_value(index))));
            },
            FilterValue::Select { id, value } => {
                ops.push(QueryOp::Replace(id, Some(value)));
            },
            FilterValue::MultiSelect { id, included, .. } => {
                let ghost all = views(included@);
                let ghost start = op_views(ops@);
                for item in jt: included
                    invariant
                        all == views(jt.seq()),
                        op_views(ops@) == start + all.take(jt.index() as int).map_values(
                            |t: Seq<char>| QueryOpView { replaces: false, name: id@, value: Some(t) },
                        ),
                {
                    let ghost j = jt.index() as int;
                    assert(item@ == all[j]);
                    let ghost pre = op_views(ops@);
                    ops.push(QueryOp::Push(owned(id.as_str()), Some(item)));
                    assert(op_views(ops@) =~= pre.push(
                        QueryOpView { replaces: false, name: id@, value: Some(all[j]) },
                    ));
                    assert(all.take(j + 1) =~= all.take(j).push(all[j]));
                    assert(op_views(ops@) =~= start + all.take(j + 1).map_values(
                        |t: Seq<char>| QueryOpView { replaces: false, name: id@, value: Some(t) },
                    ));
                }
                assert(all.take(all.len() as int) =~= all);
            },
            _ => {},
        }
        assert(op_views(ops@) =~= before + filter_ops_spec(fv));
        assert(head + filters_ops_spec(fs.take(i + 1)) =~= before + filter_ops_spec(fv));
    }
    assert(fs.take(fs.len() as int) =~= fs);
    QueryUrl { path: concat2(params.base_url.as_str(), "/search"), ops }
}

/// The key of a novel from its link: without the site's address, then
/// without `/{novel_path}/`.
pub open spec fn novel_key_spec(p: ParamsView, href: Seq<char>) -> Seq<char> {
    strip_prefix_or_self_spec(
        strip_prefix_or_self_spec(href, p.base_url),
        "/"@ + p.novel_path + "/"@,
    )
}

/// The key of a novel from its link.
pub fn novel_key(params: &Params, href: &str) -> (k: String)
    ensures
        k@ == novel_key_spec(params@, href@),
{
    let a = strip_prefix_or_self(href, params.base_url.as_str());
    let path = concat3("/", params.novel_path.as_str(), "/");
    strip_prefix_or_self(a.as_str(), path.as_str())
}

/// What one search result shows: its anchor's link and title, and its image
/// (outer `None`: no image; inner: the image's lazy source).
#[derive(Debug)]
pub struct SearchItem {
    pub href: Option<String>,
    pub title: Option<String>,
    pub image: Option<Option<String>>,
}

/// The novel a search result shows, if it has a link, a title and an image.
pub open spec fn search_entry_spec(p: ParamsView, item: SearchItem) -> Option<NovelView> {
    match (item.href, item.title, item.image) {
        (Some(h), Some(t), Some(cover)) => Some(summary_view(novel_key_spec(p, h@), t@, opt_view(cover))),
        _ => None,
    }
}

/// The novels of the search results, skipping results that lack a part.
pub open spec fn search_entries_spec(p: ParamsView, items: Seq<SearchItem>) -> Seq<NovelView>
    decreases items.len(),
{
    if items.len() == 0 {
        Seq::<NovelView>::empty()
    } else {
        let init = search_entries_spec(p, items.drop_last());
        match search_entry_spec(p, items.last()) {
            Some(n) => init.push(n),
            None => init,
        }
    }
}

/// The novel a search result shows.
pub fn search_entry(params: &Params, item: SearchItem) -> (r: Option<Novel>)
    ensures
        match r {
            Some(n) => search_entry_spec(params@, item) == Some(n@),
            None => search_entry_spec(params@, item) is None,
        },
{
    match (item.href, item.title, item.image) {
        (Some(h), Some(t), Some(cover)) => Some(Novel::summary(novel_key(params, h.as_str()), t, cover)),
        _ => None,
    }
}

/// The novels of the search results.
pub fn search_entries(params: &Params, items: Vec<SearchItem>) -> (r: Vec<Novel>)
    ensures
        novel_views(r@) == search_entries_spec(params@, items@),
{
    let mut r: Vec<Novel> = Vec::new();
    let ghost all = items@;
    for item in it: items
        invariant
            all == it.seq(),
            novel_views(r@) == search_entries_spec(params@, all.take(it.index() as int)),
    {
        let ghost i = it.index() as int;
        assert(all.take(i + 1).drop_last() =~= all.take(i));
        assert(all.take(i + 1).last() == all[i]);
        let ghost before = novel_views(r@);
        match search_entry(params, item) {
            Some(n) => {
                r.push(n);
                assert(novel_views(r@) =~= before.push(n@));
            },
            None => {},
        }
    }
    assert(all.take(all.len() as int) =~= all);
    r
}

// ---------------------------------------------------------------------------
// Listings
// ---------------------------------------------------------------------------

/// The address of a listing: the site's address and the listing's id.
pub fn listing_url(params: &Params, id: &str) -> (u: String)
    ensures
        u@ == params.base_url@ + "/"@ + id@,
{
    concat3(params.base_url.as_str(), "/", id)
}

/// What one card of a listing shows: its link, the source of its image and
/// the text of its first link.
#[derive(Debug)]
pub struct ListingItem {
    pub href: Option<String>,
    pub img_src: Option<String>,
    pub title: Option<String>,
}

/// The novel a card shows, if it has a link, an image and a title.
pub open spec fn listing_entry_spec(p: ParamsView, item: ListingItem) -> Option<NovelView> {
    match (item.href, item.img_src, item.title) {
        (Some(h), Some(src), Some(t)) => Some(summary_view(novel_key_spec(p, h@), t@, Some(src@))),
        _ => None,
    }
}

/// The novels of a listing, skipping cards that lack a part.
pub open spec fn listing_entries_spec(p: ParamsView, items: Seq<ListingItem>) -> Seq<NovelView>
    decreases items.len(),
{
    if items.len() == 0 {
        Seq::<NovelView>::empty()
    } else {
        let init = listing_entries_spec(p, items.drop_last());
        match listing_entry_spec(p, items.last()) {
            Some(n) => init.push(n),
            None => init,
        }
    }
}

/// The novels of a listing.
pub fn listing_entries(params: &Params, items: Vec<ListingItem>) -> (r: Vec<Novel>)
    ensures
        novel_views(r@) == listing_entries_spec(params@, items@),
{
    let mut r: Vec<Novel> = Vec::new();
    let ghost all = items@;
    for item in it: items
        invariant
            all == it.seq(),
            novel_views(r@) == listing_entries_spec(params@, all.take(it.index() as int)),
    {
        let ghost i = it.index() as int;
        assert(all.take(i + 1).drop_last() =~= all.take(i));
        assert(all.take(i + 1).last() == all[i]);
        let ghost before = novel_views(r@);
        match (item.href, item.img_src, item.title) {
            (Some(h), Some(src), Some(t)) => {
                let n = Novel::summary(novel_key(params, h.as_str()), t, Some(src));
                r.push(n);
                assert(novel_views(r@) =~= before.push(n@));
            },
            _ => {},
        }
    }
    assert(all.take(all.len() as int) =~= all);
    r
}


// ---------------------------------------------------------------------------
// Novel pages
// ---------------------------------------------------------------------------

/// The address of the page of the novel with key `key`.
pub open spec fn novel_url_spec(p: ParamsView, key: Seq<char>) -> Seq<char> {
    p.base_url + "/"@ + key
}

/// The address of the page of the novel with key `key`.
pub fn novel_url(params: &Params, key: &str) -> (u: String)
    ensures
        u@ == novel_url_spec(params@, key@),
{
    concat3(params.base_url.as_str(), "/", key)
}

/// What a novel page shows: its heading, the lazy source of its cover, the
/// texts of its author entries, the text of its description, the texts of
/// its genre links and of its stat items. A part the page lacks is `None`.
#[derive(Debug)]
pub struct NovelDetails {
    pub title: Option<String>,
    pub cover: Option<String>,
    pub authors: Option<Vec<String>>,
    pub description: Option<String>,
    pub tags: Option<Vec<String>>,
    pub stats: Option<Vec<String>>,
}

/// An author's name: trimmed, without trailing commas, trimmed again.
pub open spec fn author_spec(t: Seq<char>) -> Seq<char> {
    trim_spec(trim_end_char_spec(trim_spec(t), ','))
}

/// A genre: trimmed, without trailing commas.
pub open spec fn tag_spec(t: Seq<char>) -> Seq<char> {
    trim_end_char_spec(trim_spec(t), ',')
}

/// The status that a lowercase stat names, if it names one.
pub open spec fn status_word_spec(lower: Seq<char>) -> Option<NovelStatus> {
    if lower == "ongoing"@ {
        Some(NovelStatus::Ongoing)
    } else if lower == "completed"@ {
        Some(NovelStatus::Completed)
    } else if lower == "on-hold"@ {
        Some(NovelStatus::Hiatus)
    } else if lower == "canceled"@ {
        Some(NovelStatus::Cancelled)
    } else {
        None
    }
}

/// The status that a stat names once trimmed and in lowercase.
pub open spec fn stat_status_spec(t: Seq<char>) -> Option<NovelStatus> {
    status_word_spec(lowercase_of(trim_spec(t)))
}

/// The status named by the first stat that names one, else unknown.
pub open spec fn first_stat_status_spec(stats: Seq<Seq<char>>) -> NovelStatus
    decreases stats.len(),
{
    if stats.len() == 0 {
        NovelStatus::Unknown
    } else {
        match stat_status_spec(stats[0]) {
            Some(s) => s,
            None => first_stat_status_spec(stats.drop_first()),
        }
    }
}

/// The genre marks adult content.
pub open spec fn is_adult_tag(t: Seq<char>) -> bool {
    t == "Adult"@ || t == "Hentai"@ || t == "Mature"@ || t == "Smut"@
}

/// The rating that a novel's genres give: adult when a genre marks adult
/// content, suggestive when one is `Ecchi`, else the site's own rating, or
/// safe when the site has none.
pub open spec fn rating_spec(tags: Seq<Seq<char>>, default: ContentRating) -> ContentRating {
    if exists|i: int| 0 <= i < tags.len() && is_adult_tag(#[trigger] tags[i]) {
        ContentRating::NSFW
    } else if exists|i: int| 0 <= i < tags.len() && #[trigger] tags[i] == "Ecchi"@ {
        ContentRating::Suggestive
    } else if default != ContentRating::Unknown {
        default
    } else {
        ContentRating::Safe
    }
}

/// The genres of a novel, none when the page shows none.
pub open spec fn tags_or_empty(tags: Option<Seq<Seq<char>>>) -> Seq<Seq<char>> {
    match tags {
        Some(t) => t,
        None => Seq::<Seq<char>>::empty(),
    }
}

/// A novel with what its page shows: the title and cover kept when the page
/// lacks them, the cleaned authors and genres, the description, the status
/// of its stats, and the rating its genres give.
pub open spec fn details_spec(p: ParamsView, n: NovelView, d: NovelDetails) -> NovelView {
    let tags = match d.tags {
        Some(v) => Some(views(v@).map_values(|t: Seq<char>| tag_spec(t))),
        None => None,
    };
    NovelView {
        title: match d.title {
            Some(t) => t@,
            None => n.title,
        },
        cover: match d.cover {
            Some(c) => Some(c@),
            None => n.cover,
        },
        authors: match d.authors {
            Some(v) => Some(views(v@).map_values(|t: Seq<char>| author_spec(t))),
            None => None,
        },
        description: opt_view(d.description),
        tags,
        status: match d.stats {
            Some(v) => first_stat_status_spec(views(v@)),
            None => NovelStatus::Unknown,
        },
        content_rating: rating_spec(tags_or_empty(tags), p.default_rating),
        ..n
    }
}

/// An author's name, cleaned.
pub fn author_name(t: &str) -> (r: String)
    ensures
        r@ == author_spec(t@),
{
    let a = trim(t);
    let b = trim_end_char(a.as_str(), ',');
    trim(b.as_str())
}

/// A genre, cleaned.
pub fn tag_name(t: &str) -> (r: String)
    ensures
        r@ == tag_spec(t@),
{
    let a = trim(t);
    trim_end_char(a.as_str(), ',')
}

/// Each text cleaned as an author's name (`authors`) or as a genre.
fn clean_all(texts: Vec<String>, authors: bool) -> (r: Vec<String>)
    ensures
        views(r@) == views(texts@).map_values(
            |t: Seq<char>| if authors { author_spec(t) } else { tag_spec(t) },
        ),
{
    let ghost all = views(texts@);
    let mut r: Vec<String> = Vec::new();
    for t in it: texts
        invariant
            all == views(it.seq()),
            views(r@) == all.take(it.index() as int).map_values(
                |t: Seq<char>| if authors { author_spec(t) } else { tag_spec(t) },
            ),
    {
        let ghost i = it.index() as int;
        assert(t@ == all[i]);
        let ghost before = views(r@);
        let c = if authors { author_name(t.as_str()) } else { tag_name(t.as_str()) };
        r.push(c);
        assert(views(r@) =~= before.push(if authors { author_spec(all[i]) } else { tag_spec(all[i]) }));
        assert(all.take(i + 1) =~= all.take(i).push(all[i]));
        assert(views(r@) =~= all.take(i + 1).map_values(
            |t: Seq<char>| if authors { author_spec(t) } else { tag_spec(t) },
        ));
    }
    assert(all.take(all.len() as int) =~= all);
    r
}

/// The status that a lowercase stat names, if it names one.
pub fn status_word(lower: &str) -> (s: Option<NovelStatus>)
    ensures
        s == status_word_spec(lower@),
{
    if same_text(lower, "ongoing") {
        Some(NovelStatus::Ongoing)
    } else if same_text(lower, "completed") {
        Some(NovelStatus::Completed)
    } else if same_text(lower, "on-hold") {
        Some(NovelStatus::Hiatus)
    } else if same_text(lower, "canceled") {
        Some(NovelStatus::Cancelled)
    } else {
        None
    }
}

/// The status that a stat names.
pub fn stat_status(t: &str) -> (s: Option<NovelStatus>)
    ensures
        s == stat_status_spec(t@),
{
    let trimmed = trim(t);
    let lower = lowercase(trimmed.as_str());
    status_word(lower.as_str())
}

/// The status named by the first stat that names one.
pub fn first_stat_status(stats: &Vec<String>) -> (s: NovelStatus)
    ensures
        s == first_stat_status_spec(views(stats@)),
{
    let ghost all = views(stats@);
    let n = stats.len();
    let mut i: usize = 0;
    assert(all.skip(0) =~= all);
    while i < n
        invariant
            n == stats@.len(),
            all == views(stats@),
            i <= n,
            first_stat_status_spec(all) == first_stat_status_spec(all.skip(i as int)),
        decreases n - i,
    {
        let w = stat_status(stats[i].as_str());
        assert(all.skip(i as int)[0] == all[i as int]);
        match w {
            Some(s) => {
                return s;
            },
            None => {
                assert(all.skip(i as int).drop_first() =~= all.skip(i + 1));
            },
        }
        i = i + 1;
    }
    assert(all.skip(n as int).len() == 0);
    NovelStatus::Unknown
}

/// The rating that a novel's genres give.
pub fn content_rating(tags: &Vec<String>, default: ContentRating) -> (r: ContentRating)
    ensures
        r == rating_spec(views(tags@), default),
{
    let ghost all = views(tags@);
    let n = tags.len();
    let mut i: usize = 0;
    let mut adult = false;
    let mut ecchi = false;
    while i < n
        invariant
            n == tags@.len(),
            all == views(tags@),
            i <= n,
            adult == exists|j: int| 0 <= j < i && is_adult_tag(#[trigger] all[j]),
            ecchi == exists|j: int| 0 <= j < i && #[trigger] all[j] == "Ecchi"@,
        decreases n - i,
    {
        let t = tags[i].as_str();
        assert(t@ == all[i as int]);
        let a = same_text(t, "Adult") || same_text(t, "Hentai") || same_text(t, "Mature")
            || same_text(t, "Smut");
        let e = same_text(t, "Ecchi");
        proof {
            if adult {
                let j = choose|j: int| 0 <= j < i && is_adult_tag(#[trigger] all[j]);
                assert(0 <= j < i + 1 && is_adult_tag(all[j]));
            }
            if a {
                assert(0 <= i < i + 1 && is_adult_tag(all[i as int]));
            }
            if ecchi {
                let j = choose|j: int| 0 <= j < i && #[trigger] all[j] == "Ecchi"@;
                assert(0 <= j < i + 1 && all[j] == "Ecchi"@);
            }
            if e {
                assert(0 <= i < i + 1 && all[i as int] == "Ecchi"@);
            }
        }
        adult = adult || a;
        ecchi = ecchi || e;
        i = i + 1;
    }
    if adult {
        ContentRating::NSFW
    } else if ecchi {
        ContentRating::Suggestive
    } else {
        match default {
            ContentRating::Unknown => ContentRating::Safe,
            _ => default,
        }
    }
}

/// A novel with what its page shows.
pub fn apply_details(params: &Params, novel: Novel, d: NovelDetails) -> (r: Novel)
    ensures
        r@ == details_spec(params@, novel@, d),
{
    let ghost n0 = novel@;
    let ghost d0 = d;
    let mut novel = novel;
    let NovelDetails { title, cover, authors, description, tags, stats } = d;
    match title {
        Some(t) => {
            novel.title = t;
        },
        None => {},
    }
    match cover {
        Some(c) => {
            novel.cover = Some(c);
        },
        None => {},
    }
    novel.authors = match authors {
        Some(v) => Some(clean_all(v, true)),
        None => None,
    };
    novel.description = description;
    let cleaned = match tags {
        Some(v) => Some(clean_all(v, false)),
        None => None,
    };
    novel.status = match stats {
        Some(v) => first_stat_status(&v),
        None => NovelStatus::Unknown,
    };
    let rating = match &cleaned {
        Some(v) => content_rating(v, params.default_rating),
        None => {
            let empty: Vec<String> = Vec::new();
            assert(views(empty@) =~= Seq::<Seq<char>>::empty());
            content_rating(&empty, params.default_rating)
        },
    };
    novel.content_rating = rating;
    novel.tags = cleaned;
    let ghost spec = details_spec(params@, n0, d0);
    assert(novel@.title == spec.title);
    assert(novel@.cover == spec.cover);
    assert(novel@.authors == spec.authors);
    assert(novel@.tags == spec.tags);
    assert(novel@.status == spec.status);
    assert(novel@.content_rating == spec.content_rating);
    assert(novel@ =~= details_spec(params@, n0, d0));
    novel
}


// ---------------------------------------------------------------------------
// Chapter lists
// ---------------------------------------------------------------------------

/// A chapter's number: the first number written in its title, if any.
pub open spec fn first_number_view(t: Seq<char>) -> Option<NumberView> {
    match first_number_spec(t) {
        Some(d) => Some(NumberView::Decimal(d)),
        None => None,
    }
}

/// A chapter's number from its title.
pub fn first_number_text(t: &str) -> (r: Option<NumberText>)
    ensures
        opt_number(r) == first_number_view(t@),
{
    match first_number(t) {
        Some(d) => Some(NumberText::Decimal(d)),
        None => None,
    }
}

/// What one entry of a novel page's chapter list shows: the text of its
/// heading, its link, and the texts of its spans.
#[derive(Debug)]
pub struct ChapterRow {
    pub title: Option<String>,
    pub href: Option<String>,
    pub spans: Option<Vec<String>>,
}

/// The first text that says how long `ago` something happened.
pub open spec fn first_ago_spec(texts: Seq<Seq<char>>) -> Option<Seq<char>>
    decreases texts.len(),
{
    if texts.len() == 0 {
        None
    } else if contains_spec(texts[0], "ago"@) {
        Some(texts[0])
    } else {
        first_ago_spec(texts.drop_first())
    }
}

/// The chapter an entry of the page's list shows, if it has a heading and
/// a link: keyed by the link without the site's address, numbered by the
/// first number in its heading, dated by its first span that says `ago`
/// (the current date when that text is no date).
pub open spec fn row_chapter_spec(p: ParamsView, row: ChapterRow) -> Option<ChapterView> {
    match (row.title, row.href) {
        (Some(t), Some(h)) => Some(ChapterView {
            key: strip_prefix_or_self_spec(h@, p.base_url),
            title: Some(t@),
            number: first_number_view(t@),
            volume: None,
            date: match row.spans {
                Some(v) => match first_ago_spec(views(v@)) {
                    Some(s) => Some(DateView { text: s, format: p.date_format, now_if_invalid: true }),
                    None => None,
                },
                None => None,
            },
            url: Some(p.base_url + h@),
        }),
        _ => None,
    }
}

/// The chapters of the page's list, skipping entries that lack a part.
pub open spec fn row_chapters_spec(p: ParamsView, rows: Seq<ChapterRow>) -> Seq<ChapterView>
    decreases rows.len(),
{
    if rows.len() == 0 {
        Seq::<ChapterView>::empty()
    } else {
        let init = row_chapters_spec(p, rows.drop_last());
        match row_chapter_spec(p, rows.last()) {
            Some(c) => init.push(c),
            None => init,
        }
    }
}

/// The first text that says how long ago something happened.
pub fn first_ago(texts: &Vec<String>) -> (r: Option<String>)
    ensures
        opt_view(r) == first_ago_spec(views(texts@)),
{
    let ghost all = views(texts@);
    let n = texts.len();
    let mut i: usize = 0;
    assert(all.skip(0) =~= all);
    while i < n
        invariant
            n == texts@.len(),
            all == views(texts@),
            i <= n,
            first_ago_spec(all) == first_ago_spec(all.skip(i as int)),
        decreases n - i,
    {
        assert(all.skip(i as int)[0] == all[i as int]);
        if contains(texts[i].as_str(), "ago") {
            return Some(owned(texts[i].as_str()));
        }
        assert(all.skip(i as int).drop_first() =~= all.skip(i + 1));
        i = i + 1;
    }
    assert(all.skip(n as int).len() == 0);
    None
}

/// The chapter an entry of the page's list shows.
pub fn row_chapter(params: &Params, row: ChapterRow) -> (r: Option<Chapter>)
    ensures
        match r {
            Some(c) => row_chapter_spec(params@, row) == Some(c@),
            None => row_chapter_spec(params@, row) is None,
        },
{
    let ghost r0 = row;
    match (row.title, row.href) {
        (Some(t), Some(h)) => {
            let date = match row.spans {
                Some(v) => match first_ago(&v) {
                    Some(s) => Some(DateText { text: s, format: owned(params.date_format.as_str()), now_if_invalid: true }),
                    None => None,
                },
                None => None,
            };
            let c = Chapter {
                key: strip_prefix_or_self(h.as_str(), params.base_url.as_str()),
                title: Some(owned(t.as_str())),
                number: first_number_text(t.as_str()),
                volume: None,
                date,
                url: Some(concat2(params.base_url.as_str(), h.as_str())),
            };
            assert(row_chapter_spec(params@, r0) =~= Some(c@));
            Some(c)
        },
        _ => None,
    }
}

/// The chapters of the page's list.
pub fn row_chapters(params: &Params, rows: Vec<ChapterRow>) -> (r: Vec<Chapter>)
    ensures
        chapter_views(r@) == row_chapters_spec(params@, rows@),
{
    let mut r: Vec<Chapter> = Vec::new();
    let ghost all = rows@;
    for row in it: rows
        invariant
            all == it.seq(),
            chapter_views(r@) == row_chapters_spec(params@, all.take(it.index() as int)),
    {
        let ghost i = it.index() as int;
        assert(all.take(i + 1).drop_last() =~= all.take(i));
        assert(all.take(i + 1).last() == all[i]);
        let ghost before = chapter_views(r@);
        match row_chapter(params, row) {
            Some(c) => {
                r.push(c);
                assert(chapter_views(r@) =~= before.push(c@));
            },
            None => {},
        }
    }
    assert(all.take(all.len() as int) =~= all);
    r
}

/// The mark in a page's data that precedes the novel's id in the API.
pub open spec fn hsid_mark() -> Seq<char> {
    "\"mangaHsid\":\""@
}

/// The novel's id in the API, from the data of its page: what stands between
/// the first mark and the next double quote.
pub open spec fn hsid_spec(data: Seq<char>) -> Option<Seq<char>> {
    match find_spec(data, hsid_mark()) {
        Some(i) => {
            let rest = data.subrange(i + hsid_mark().len(), data.len() as int);
            match find_spec(rest, "\""@) {
                Some(j) => Some(rest.subrange(0, j)),
                None => None,
            }
        },
        None => None,
    }
}

/// The novel's id in the API, from the data of its page.
pub fn manga_hsid(data: &str) -> (r: Option<String>)
    ensures
        opt_view(r) == hsid_spec(data@),
{
    let v = chars_of(data);
    let len = v.len();
    match find(data, "\"mangaHsid\":\"") {
        Some(i) => {
            proof {
                lemma_find_in_bounds(data@, hsid_mark(), 0);
                reveal_strlit("\"mangaHsid\":\"");
            }
            assert(i + 13 <= len);
            let start = i + 13;
            let rest = string_of_range(&v, start, len);
            match find(rest.as_str(), "\"") {
                Some(j) => {
                    proof {
                        lemma_find_in_bounds(rest@, "\""@, 0);
                        reveal_strlit("\"");
                    }
                    let w = chars_of(rest.as_str());
                    Some(string_of_range(&w, 0, j))
                },
                None => None,
            }
        },
        None => None,
    }
}

/// The address of the site's API: the site's address with `novelbuddy.com`
/// made `api.novelbuddy.com`.
pub open spec fn api_base_spec(p: ParamsView) -> Seq<char> {
    replace_spec(p.base_url, "novelbuddy.com"@, "api.novelbuddy.com"@)
}

/// The API address of the chapters of the novel with id `id`.
pub open spec fn chapters_api_url_spec(p: ParamsView, id: Seq<char>) -> Seq<char> {
    api_base_spec(p) + "/titles/"@ + id + "/chapters"@
}

/// The API address of the chapters of the novel with id `id`.
pub fn chapters_api_url(params: &Params, id: &str) -> (u: String)
    ensures
        u@ == chapters_api_url_spec(params@, id@),
{
    proof {
        reveal_strlit("novelbuddy.com");
    }
    let base = replace(params.base_url.as_str(), "novelbuddy.com", "api.novelbuddy.com");
    let head = concat3(base.as_str(), "/titles/", id);
    concat2(head.as_str(), "/chapters")
}

/// One chapter of the API's answer: its name, address and update time,
/// each as a string if it is one.
#[derive(Debug)]
pub struct ApiChapter {
    pub name: Option<String>,
    pub url: Option<String>,
    pub updated_at: Option<String>,
}

/// The view of an `ApiChapter`.
pub open spec fn api_chapter_view(c: ApiChapter) -> (Option<Seq<char>>, Option<Seq<char>>, Option<Seq<char>>) {
    (opt_view(c.name), opt_view(c.url), opt_view(c.updated_at))
}

/// The views of the API's chapters.
pub open spec fn api_chapter_views(v: Seq<ApiChapter>) -> Seq<(Option<Seq<char>>, Option<Seq<char>>, Option<Seq<char>>)> {
    v.map_values(|c: ApiChapter| api_chapter_view(c))
}

/// The fields of the API's answer as a JSON document: for each element of
/// its `data.chapters` array, the string values of `name`, `url` and
/// `updated_at`; `None` when there is no such array.
pub open spec fn api_fields_spec(
    j: JsonValue,
) -> Option<Seq<(Option<Seq<char>>, Option<Seq<char>>, Option<Seq<char>>)>> {
    match as_array_spec(index_spec(index_spec(j, "data"@), "chapters"@)) {
        Some(items) => Some(items.map_values(
            |ch: JsonValue| (
                as_str_spec(index_spec(ch, "name"@)),
                as_str_spec(index_spec(ch, "url"@)),
                as_str_spec(index_spec(ch, "updated_at"@)),
            ),
        )),
        None => None,
    }
}

/// The fields of the API's answer `text`: `None` when it is not JSON or
/// has no chapter array.
pub open spec fn api_text_fields(
    text: Seq<char>,
) -> Option<Seq<(Option<Seq<char>>, Option<Seq<char>>, Option<Seq<char>>)>> {
    match json_parse(text) {
        Some(j) => api_fields_spec(j),
        None => None,
    }
}

/// The fields of one chapter of the API's answer.
fn api_chapter_of(ch: &JsonValue) -> (c: ApiChapter)
    ensures
        api_chapter_view(c) == (
            as_str_spec(index_spec(*ch, "name"@)),
            as_str_spec(index_spec(*ch, "url"@)),
            as_str_spec(index_spec(*ch, "updated_at"@)),
        ),
{
    ApiChapter {
        name: as_str(member(ch, "name")),
        url: as_str(member(ch, "url")),
        updated_at: as_str(member(ch, "updated_at")),
    }
}

/// The fields of the API's answer, given as a JSON document.
pub fn api_fields(j: &JsonValue) -> (r: Option<Vec<ApiChapter>>)
    ensures
        match r {
            Some(v) => api_fields_spec(*j) == Some(api_chapter_views(v@)),
            None => api_fields_spec(*j) is None,
        },
{
    let chapters = match member(j, "data") {
        Some(d) => member(d, "chapters"),
        None => None,
    };
    match chapters {
        Some(JsonValue::Array(items)) => {
            let n = items.len();
            let mut r: Vec<ApiChapter> = Vec::new();
            let mut i: usize = 0;
            while i < n
                invariant
                    n == items@.len(),
                    i <= n,
                    api_chapter_views(r@) == items@.take(i as int).map_values(
                        |ch: JsonValue| (
                            as_str_spec(index_spec(ch, "name"@)),
                            as_str_spec(index_spec(ch, "url"@)),
                            as_str_spec(index_spec(ch, "updated_at"@)),
                        ),
                    ),
                decreases n - i,
            {
                let c = api_chapter_of(&items[i]);
                let ghost before = api_chapter_views(r@);
                r.push(c);
                assert(api_chapter_views(r@) =~= before.push(api_chapter_view(c)));
                assert(items@.take(i + 1) =~= items@.take(i as int).push(items@[i as int]));
                assert(api_chapter_views(r@) =~= items@.take(i + 1).map_values(
                    |ch: JsonValue| (
                        as_str_spec(index_spec(ch, "name"@)),
                        as_str_spec(index_spec(ch, "url"@)),
                        as_str_spec(index_spec(ch, "updated_at"@)),
                    ),
                ));
                i = i + 1;
            }
            assert(items@.take(n as int) =~= items@);
            Some(r)
        },
        _ => None,
    }
}

/// A string field, or nothing when it is absent.
pub open spec fn or_empty(o: Option<Seq<char>>) -> Seq<char> {
    match o {
        Some(s) => s,
        None => Seq::<char>::empty(),
    }
}

/// The chapter the API gives by its fields: named by its name (or nothing),
/// keyed by its address without the site's, numbered by the first number in
/// its name, dated by its update time (no date when that is none).
pub open spec fn api_chapter_spec(
    p: ParamsView,
    f: (Option<Seq<char>>, Option<Seq<char>>, Option<Seq<char>>),
) -> ChapterView {
    let name = or_empty(f.0);
    let link = or_empty(f.1);
    ChapterView {
        key: strip_prefix_or_self_spec(link, p.base_url),
        title: Some(name),
        number: first_number_view(name),
        volume: None,
        date: match f.2 {
            Some(d) => Some(DateView { text: d, format: p.date_format, now_if_invalid: false }),
            None => None,
        },
        url: Some(p.base_url + link),
    }
}

/// The chapters of the API's answer, in reverse order (the API lists the
/// newest last).
pub open spec fn api_chapters_spec(
    p: ParamsView,
    fields: Seq<(Option<Seq<char>>, Option<Seq<char>>, Option<Seq<char>>)>,
) -> Seq<ChapterView> {
    Seq::new(fields.len(), |i: int| api_chapter_spec(p, fields[fields.len() - 1 - i]))
}

/// The chapters of the API's answer, given its fields.
pub fn chapters_from_api(params: &Params, entries: Vec<ApiChapter>) -> (r: Vec<Chapter>)
    ensures
        chapter_views(r@) == api_chapters_spec(params@, api_chapter_views(entries@)),
{
    let ghost fields = api_chapter_views(entries@);
    let mut entries = entries;
    let n = entries.len();
    let mut r: Vec<Chapter> = Vec::new();
    let mut k: usize = n;
    while k > 0
        invariant
            k <= n,
            k == entries@.len(),
            n == fields.len(),
            forall|j: int| 0 <= j < k ==> #[trigger] api_chapter_view(entries@[j]) == fields[j],
            chapter_views(r@) == Seq::new(
                (n - k) as nat,
                |i: int| api_chapter_spec(params@, fields[n - 1 - i]),
            ),
        decreases k,
    {
        let e = entries.pop().unwrap();
        k = k - 1;
        assert(api_chapter_view(e) == fields[k as int]);
        let name = match e.name {
            Some(s) => s,
            None => String::new(),
        };
        let link = match e.url {
            Some(s) => s,
            None => String::new(),
        };
        let date = match e.updated_at {
            Some(d) => Some(DateText { text: d, format: owned(params.date_format.as_str()), now_if_invalid: false }),
            None => None,
        };
        let c = Chapter {
            key: strip_prefix_or_self(link.as_str(), params.base_url.as_str()),
            title: Some(owned(name.as_str())),
            number: first_number_text(name.as_str()),
            volume: None,
            date,
            url: Some(concat2(params.base_url.as_str(), link.as_str())),
        };
        assert(c@ == api_chapter_spec(params@, fields[k as int]));
        let ghost before = chapter_views(r@);
        r.push(c);
        assert(chapter_views(r@) =~= before.push(c@));
        assert(chapter_views(r@) =~= Seq::new(
            (n - k) as nat,
            |i: int| api_chapter_spec(params@, fields[n - 1 - i]),
        ));
    }
    r
}

/// The chapters of the API's answer `text`, if it reads as one.
pub fn api_chapters(params: &Params, text: &str) -> (r: Option<Vec<Chapter>>)
    ensures
        match r {
            Some(v) => api_text_fields(text@) matches Some(f)
                && chapter_views(v@) == api_chapters_spec(params@, f),
            None => api_text_fields(text@) is None,
        },
{
    match parse_json(text) {
        Some(j) => match api_fields(&j) {
            Some(entries) => Some(chapters_from_api(params, entries)),
            None => None,
        },
        None => None,
    }
}

/// A novel's chapters: those of the API's answer when there is one that
/// reads, else those of its page's list (none when the page has no list).
pub open spec fn novel_chapters_spec(
    p: ParamsView,
    api_text: Option<Seq<char>>,
    rows: Option<Seq<ChapterRow>>,
) -> Seq<ChapterView> {
    let from_page = match rows {
        Some(r) => row_chapters_spec(p, r),
        None => Seq::<ChapterView>::empty(),
    };
    match api_text {
        Some(t) => match api_text_fields(t) {
            Some(f) => api_chapters_spec(p, f),
            None => from_page,
        },
        None => from_page,
    }
}

/// A novel's chapters, from the API's answer (`None` when the page's data,
/// the id in it or the request failed) and the page's list.
pub fn novel_chapters(params: &Params, api_text: Option<String>, rows: Option<Vec<ChapterRow>>) -> (r: Vec<Chapter>)
    ensures
        chapter_views(r@) == novel_chapters_spec(params@, opt_view(api_text), match rows {
            Some(v) => Some(v@),
            None => None,
        }),
{
    let from_api = match &api_text {
        Some(t) => api_chapters(params, t.as_str()),
        None => None,
    };
    match from_api {
        Some(v) => v,
        None => match rows {
            Some(rs) => row_chapters(params, rs),
            None => Vec::new(),
        },
    }
}

/// A novel with its chapters.
pub fn with_chapters(novel: Novel, chapters: Vec<Chapter>) -> (r: Novel)
    ensures
        r@ == (NovelView { chapters: Some(chapter_views(chapters@)), ..novel@ }),
{
    let mut novel = novel;
    novel.chapters = Some(chapters);
    novel
}

// ---------------------------------------------------------------------------
// Chapter pages
// ---------------------------------------------------------------------------

/// The address of a chapter's page: the site's address and the chapter's key.
pub open spec fn chapter_url_spec(p: ParamsView, chapter_key: Seq<char>) -> Seq<char> {
    p.base_url + chapter_key
}

/// The address of a chapter's page.
pub fn chapter_url(params: &Params, chapter_key: &str) -> (u: String)
    ensures
        u@ == chapter_url_spec(params@, chapter_key@),
{
    concat2(params.base_url.as_str(), chapter_key)
}

/// The blocks of a chapter page: one for each paragraph that has text,
/// then a divider and the link to the chapter's page.
pub open spec fn chapter_content_spec(
    p: ParamsView,
    texts: Seq<Option<Seq<char>>>,
    chapter_key: Seq<char>,
) -> Seq<BlockView> {
    blocks_spec(texts).push(BlockView::Divider).push(
        BlockView::Paragraph(review_link_spec("LINK: "@, chapter_url_spec(p, chapter_key))),
    )
}

/// The blocks of a chapter page, from the texts of its paragraphs.
pub fn chapter_content(params: &Params, texts: Vec<Option<String>>, chapter_key: &str) -> (r: Vec<ContentBlock>)
    ensures
        block_views(r@) == chapter_content_spec(params@, opt_texts(texts@), chapter_key@),
{
    let mut r = paragraph_blocks(texts);
    let url = chapter_url(params, chapter_key);
    push_review_link(&mut r, "LINK: ", url.as_str());
    r
}


// ---------------------------------------------------------------------------
// Laws
// ---------------------------------------------------------------------------

/// The key of a link to a novel, `{base}/{novel_path}/{key}`, is `key`; the
/// template then reads the novel from `{base}/{key}`.
pub proof fn lemma_novel_link_key(p: ParamsView, key: Seq<char>)
    ensures
        novel_key_spec(p, p.base_url + "/"@ + p.novel_path + "/"@ + key) == key,
        novel_url_spec(p, novel_key_spec(p, p.base_url + "/"@ + p.novel_path + "/"@ + key))
            == p.base_url + "/"@ + key,
{
    let mid = "/"@ + p.novel_path + "/"@;
    assert(p.base_url + "/"@ + p.novel_path + "/"@ + key =~= p.base_url + (mid + key));
    lemma_strip_prefix_concat(p.base_url, mid + key);
    lemma_strip_prefix_concat(mid, key);
}

/// A chapter read from the page's list links to the page its content is
/// read from, when its link is relative to the site.
pub proof fn lemma_row_chapter_links_its_page(p: ParamsView, row: ChapterRow)
    requires
        row.title is Some,
        row.href matches Some(h) && !has_prefix(h@, p.base_url),
    ensures
        row_chapter_spec(p, row) matches Some(c) && c.url == Some(chapter_url_spec(p, c.key)),
{
}

/// A chapter read from the API links to the page its content is read from,
/// when its address is relative to the site.
pub proof fn lemma_api_chapter_links_its_page(
    p: ParamsView,
    f: (Option<Seq<char>>, Option<Seq<char>>, Option<Seq<char>>),
)
    requires
        !has_prefix(or_empty(f.1), p.base_url),
    ensures
        api_chapter_spec(p, f).url == Some(chapter_url_spec(p, api_chapter_spec(p, f).key)),
{
}

/// The chapters read from the API come in the reverse of the API's order.
pub proof fn lemma_api_chapters_reversed(
    p: ParamsView,
    fields: Seq<(Option<Seq<char>>, Option<Seq<char>>, Option<Seq<char>>)>,
    i: int,
)
    requires
        0 <= i < fields.len(),
    ensures
        api_chapters_spec(p, fields).len() == fields.len(),
        api_chapters_spec(p, fields)[fields.len() - 1 - i] == api_chapter_spec(p, fields[i]),
{
}


/// A sort filter appends its id with the order its index picks: 1 sorts by
/// last update, 2 by creation, 3 by name, 4 by rating, and any other index
/// by views; the filters before it keep their steps.
pub proof fn lemma_sort_filter_order(
    query: Option<Seq<char>>,
    page: int,
    fs: Seq<FilterValue>,
    id: String,
    index: i32,
    ascending: bool,
)
    ensures
        ({
            let all = search_ops_spec(query, page, fs.push(FilterValue::Sort { id, index, ascending }));
            let last = all.last();
            &&& all.drop_last() == search_ops_spec(query, page, fs)
            &&& !last.replaces
            &&& last.name == id@
            &&& index == 1 ==> last.value == Some("updated_at"@)
            &&& index == 2 ==> last.value == Some("created_at"@)
            &&& index == 3 ==> last.value == Some("name"@)
            &&& index == 4 ==> last.value == Some("rating"@)
            &&& (index < 1 || index > 4) ==> last.value == Some("views"@)
        }),
{
    let f = FilterValue::Sort { id, index, ascending };
    assert(fs.push(f).drop_last() =~= fs);
    assert(fs.push(f).last() == f);
    let head = seq![
        QueryOpView { replaces: false, name: "page"@, value: Some(decimal_spec(page)) },
        QueryOpView { replaces: false, name: "q"@, value: query },
        QueryOpView { replaces: false, name: "status"@, value: Some("all"@) },
    ];
    assert(search_ops_spec(query, page, fs.push(f)) =~= head + filters_ops_spec(fs) + filter_ops_spec(f));
    assert((head + filters_ops_spec(fs) + filter_ops_spec(f)).drop_last() =~= head + filters_ops_spec(fs));
}

/// The statuses that stats name, once trimmed and in lowercase.
pub open spec fn is_status_stat(lower: Seq<char>) -> bool {
    lower == "ongoing"@ || lower == "completed"@ || lower == "on-hold"@ || lower == "canceled"@
}

/// Distinct status words are distinct texts.
proof fn lemma_status_words_differ()
    ensures
        "ongoing"@ != "completed"@,
        "ongoing"@ != "on-hold"@,
        "ongoing"@ != "canceled"@,
        "completed"@ != "on-hold"@,
        "completed"@ != "canceled"@,
        "on-hold"@ != "canceled"@,
{
    reveal_strlit("ongoing");
    reveal_strlit("completed");
    reveal_strlit("on-hold");
    reveal_strlit("canceled");
    assert("ongoing"@.len() != "completed"@.len());
    assert("ongoing"@[2] != "on-hold"@[2]);
    assert("ongoing"@[0] != "canceled"@[0]);
    assert("completed"@.len() != "on-hold"@.len());
    assert("completed"@.len() != "canceled"@.len());
    assert("on-hold"@.len() != "canceled"@.len());
}

/// The status of a novel's details is named by its first stat that, trimmed
/// and in lowercase, is a status: `ongoing`, `completed`, `on-hold`
/// (hiatus) or `canceled`; with no such stat it is unknown.
pub proof fn lemma_first_status_stat(p: ParamsView, n: NovelView, d: NovelDetails, k: int)
    requires
        d.stats is Some,
        0 <= k <= d.stats.unwrap()@.len(),
        forall|j: int| 0 <= j < k
            ==> !is_status_stat(lowercase_of(trim_spec(#[trigger] d.stats.unwrap()@[j]@))),
        k == d.stats.unwrap()@.len() || is_status_stat(lowercase_of(trim_spec(d.stats.unwrap()@[k]@))),
    ensures
        ({
            let status = details_spec(p, n, d).status;
            let stats = d.stats.unwrap()@;
            let w = lowercase_of(trim_spec(stats[k]@));
            &&& k == stats.len() ==> status == NovelStatus::Unknown
            &&& k < stats.len() && w == "ongoing"@ ==> status == NovelStatus::Ongoing
            &&& k < stats.len() && w == "completed"@ ==> status == NovelStatus::Completed
            &&& k < stats.len() && w == "on-hold"@ ==> status == NovelStatus::Hiatus
            &&& k < stats.len() && w == "canceled"@ ==> status == NovelStatus::Cancelled
        }),
{
    lemma_status_words_differ();
    let all = views(d.stats.unwrap()@);
    assert forall|j: int| 0 <= j < k implies !is_status_stat(lowercase_of(trim_spec(#[trigger] all[j]))) by {
        assert(all[j] == d.stats.unwrap()@[j]@);
    }
    if k < all.len() {
        assert(all[k] == d.stats.unwrap()@[k]@);
    }
    lemma_first_stat_at(all, k);
}

/// The first status-naming stat decides.
proof fn lemma_first_stat_at(stats: Seq<Seq<char>>, k: int)
    requires
        0 <= k <= stats.len(),
        forall|j: int| 0 <= j < k ==> !is_status_stat(lowercase_of(trim_spec(#[trigger] stats[j]))),
    ensures
        first_stat_status_spec(stats) == first_stat_status_spec(stats.skip(k)),
    decreases k,
{
    lemma_status_words_differ();
    if k == 0 {
        assert(stats.skip(0) =~= stats);
    } else {
        let rest = stats.drop_first();
        assert(!is_status_stat(lowercase_of(trim_spec(stats[0]))));
        assert forall|j: int| 0 <= j < k - 1 implies !is_status_stat(lowercase_of(trim_spec(#[trigger] rest[j]))) by {
            assert(rest[j] == stats[j + 1]);
        }
        lemma_first_stat_at(rest, k - 1);
        assert(rest.skip(k - 1) =~= stats.skip(k));
    }
}


/// The genres rate a novel: adult when one of them is `Adult`, `Hentai`,
/// `Mature` or `Smut`; else suggestive when one is `Ecchi`; else the site's
/// own rating, or safe when the site has none.
pub proof fn lemma_rating_by_genres(tags: Seq<Seq<char>>, default: ContentRating)
    ensures
        tags.contains("Adult"@) || tags.contains("Hentai"@) || tags.contains("Mature"@)
            || tags.contains("Smut"@) ==> rating_spec(tags, default) == ContentRating::NSFW,
        !(tags.contains("Adult"@) || tags.contains("Hentai"@) || tags.contains("Mature"@)
            || tags.contains("Smut"@)) && tags.contains("Ecchi"@)
            ==> rating_spec(tags, default) == ContentRating::Suggestive,
        !(tags.contains("Adult"@) || tags.contains("Hentai"@) || tags.contains("Mature"@)
            || tags.contains("Smut"@) || tags.contains("Ecchi"@)) && default != ContentRating::Unknown
            ==> rating_spec(tags, default) == default,
        !(tags.contains("Adult"@) || tags.contains("Hentai"@) || tags.contains("Mature"@)
            || tags.contains("Smut"@) || tags.contains("Ecchi"@)) && default == ContentRating::Unknown
            ==> rating_spec(tags, default) == ContentRating::Safe,
{
    if tags.contains("Adult"@) || tags.contains("Hentai"@) || tags.contains("Mature"@) || tags.contains("Smut"@) {
        let i = choose|i: int| 0 <= i < tags.len() && is_adult_tag(tags[i]);
        assert(0 <= i < tags.len() && is_adult_tag(tags[i]));
    }
    if tags.contains("Ecchi"@) {
        let i = choose|i: int| 0 <= i < tags.len() && tags[i] == "Ecchi"@;
        assert(0 <= i < tags.len() && tags[i] == "Ecchi"@);
    }
    if exists|i: int| 0 <= i < tags.len() && is_adult_tag(#[trigger] tags[i]) {
        let i = choose|i: int| 0 <= i < tags.len() && is_adult_tag(#[trigger] tags[i]);
        assert(tags.contains(tags[i]));
    }
    if exists|i: int| 0 <= i < tags.len() && #[trigger] tags[i] == "Ecchi"@ {
        let i = choose|i: int| 0 <= i < tags.len() && #[trigger] tags[i] == "Ecchi"@;
        assert(tags.contains(tags[i]));
    }
}

/// A search asks first for the page in decimal, the query text and
/// `status=all`; each filter then appends its steps after those of the
/// filters before it: a select replaces the parameter named by its id with
/// its value, a multi-select appends each included item under its id (its
/// excluded items add nothing), a text or any other filter adds nothing.
pub proof fn lemma_search_steps(query: Option<Seq<char>>, page: int, fs: Seq<FilterValue>, f: FilterValue)
    ensures
        ({
            let before = search_ops_spec(query, page, fs);
            let after = search_ops_spec(query, page, fs.push(f));
            &&& before.len() >= 3
            &&& before[0] == (QueryOpView { replaces: false, name: "page"@, value: Some(decimal_spec(page)) })
            &&& before[1] == (QueryOpView { replaces: false, name: "q"@, value: query })
            &&& before[2] == (QueryOpView { replaces: false, name: "status"@, value: Some("all"@) })
            &&& after.subrange(0, before.len() as int) == before
            &&& match f {
                FilterValue::Select { id, value } => after.len() == before.len() + 1
                    && after.last() == (QueryOpView { replaces: true, name: id@, value: Some(value@) }),
                FilterValue::MultiSelect { id, included, .. } => {
                    &&& after.len() == before.len() + included@.len()
                    &&& forall|i: int| 0 <= i < included@.len() ==> after[before.len() + i]
                        == (QueryOpView { replaces: false, name: id@, value: Some(#[trigger] included@[i]@) })
                },
                FilterValue::Sort { .. } => after.len() == before.len() + 1,
                _ => after == before,
            }
        }),
{
    assert(fs.push(f).drop_last() =~= fs);
    assert(fs.push(f).last() == f);
    let before = search_ops_spec(query, page, fs);
    let after = search_ops_spec(query, page, fs.push(f));
    assert(after =~= before + filter_ops_spec(f));
    assert(after.subrange(0, before.len() as int) =~= before);
}


/// What a novel page's details give, field by field: the page's heading or
/// the old title, its cover or the old cover, each author's name trimmed,
/// without trailing commas and trimmed again, each genre trimmed and without
/// trailing commas, the description as the page has it, and the rating of
/// the cleaned genres; the key and chapters stay as they were.
pub proof fn lemma_details_fields(p: ParamsView, n: NovelView, d: NovelDetails)
    ensures
        ({
            let r = details_spec(p, n, d);
            &&& r.key == n.key
            &&& r.chapters == n.chapters
            &&& r.title == match d.title {
                Some(t) => t@,
                None => n.title,
            }
            &&& r.cover == match d.cover {
                Some(c) => Some(c@),
                None => n.cover,
            }
            &&& r.description == opt_view(d.description)
            &&& match d.authors {
                Some(v) => r.authors matches Some(a) && a.len() == v@.len() && forall|i: int| 0 <= i < v@.len()
                    ==> a[i] == trim_spec(trim_end_char_spec(trim_spec(#[trigger] v@[i]@), ',')),
                None => r.authors is None,
            }
            &&& match d.tags {
                Some(v) => r.tags matches Some(t) && t.len() == v@.len() && forall|i: int| 0 <= i < v@.len()
                    ==> t[i] == trim_end_char_spec(trim_spec(#[trigger] v@[i]@), ','),
                None => r.tags is None,
            }
            &&& r.content_rating == rating_spec(tags_or_empty(r.tags), p.default_rating)
        }),
{
}

/// A chapter of the page's list with a heading and a link: keyed by the link
/// without the site's address, titled by the heading, numbered by the first
/// number in it, dated by the first span saying `ago` read with the site's
/// date pattern (the current date when that is no date), and linking to the
/// site's address followed by the link.
pub proof fn lemma_row_chapter(p: ParamsView, row: ChapterRow)
    requires
        row.title is Some,
        row.href is Some,
    ensures
        ({
            let t = row.title.unwrap()@;
            let h = row.href.unwrap()@;
            let c = row_chapter_spec(p, row).unwrap();
            &&& row_chapter_spec(p, row) is Some
            &&& c.key == strip_prefix_or_self_spec(h, p.base_url)
            &&& c.title == Some(t)
            &&& c.number == match first_number_spec(t) {
                Some(d) => Some(NumberView::Decimal(d)),
                None => None,
            }
            &&& c.url == Some(p.base_url + h)
            &&& match row.spans {
                Some(v) => match first_ago_spec(views(v@)) {
                    Some(s) => c.date == Some(DateView { text: s, format: p.date_format, now_if_invalid: true }),
                    None => c.date is None,
                },
                None => c.date is None,
            }
        }),
{
}

/// A chapter of the API: named by its name (nothing when it has none),
/// keyed by its address without the site's, numbered by the first number in
/// its name, dated by its update time with no date when that does not read
/// (no current date), and linking to the site's address followed by its own.
pub proof fn lemma_api_chapter(
    p: ParamsView,
    f: (Option<Seq<char>>, Option<Seq<char>>, Option<Seq<char>>),
)
    ensures
        ({
            let c = api_chapter_spec(p, f);
            let name = match f.0 {
                Some(x) => x,
                None => Seq::<char>::empty(),
            };
            let link = match f.1 {
                Some(x) => x,
                None => Seq::<char>::empty(),
            };
            &&& c.title == Some(name)
            &&& c.key == strip_prefix_or_self_spec(link, p.base_url)
            &&& c.url == Some(p.base_url + link)
            &&& c.number == match first_number_spec(name) {
                Some(d) => Some(NumberView::Decimal(d)),
                None => None,
            }
            &&& match f.2 {
                Some(d) => c.date == Some(DateView { text: d, format: p.date_format, now_if_invalid: false }),
                None => c.date is None,
            }
        }),
{
}

/// A page's data `{before}"mangaHsid":"{id}"{after}`, where the mark first
/// occurs right after `before` and `id` holds no double quote, gives the id
/// `id`.
pub proof fn lemma_hsid(before: Seq<char>, id: Seq<char>, after: Seq<char>)
    requires
        forall|i: int| 0 <= i < before.len() ==> !occurs_at(before + hsid_mark(), hsid_mark(), i),
        forall|i: int| 0 <= i < id.len() ==> id[i] != '"',
    ensures
        hsid_spec(before + hsid_mark() + id + "\""@ + after) == Some(id),
{
    reveal_strlit("\"");
    let m = hsid_mark();
    let head = before + m;
    let tail = id + "\""@ + after;
    let data = before + m + id + "\""@ + after;
    assert(data =~= head + tail);
    assert forall|i: int| 0 <= i < before.len() implies !occurs_at(data, m, i) by {
        if occurs_at(data, m, i) {
            assert(head.subrange(i, i + m.len()) =~= data.subrange(i, i + m.len()));
            assert(occurs_at(head, m, i));
        }
    }
    assert(data.subrange(before.len() as int, (before.len() + m.len()) as int) =~= m);
    lemma_find_first_at(data, m, before.len() as int);
    let rest = data.subrange((before.len() + m.len()) as int, data.len() as int);
    assert(rest =~= tail);
    assert forall|i: int| 0 <= i < id.len() implies !occurs_at(rest, "\""@, i) by {
        if occurs_at(rest, "\""@, i) {
            assert(rest.subrange(i, i + 1)[0] == rest[i]);
            assert(rest[i] == id[i]);
        }
    }
    assert(rest.subrange(id.len() as int, (id.len() + 1) as int) =~= "\""@);
    lemma_find_first_at(rest, "\""@, id.len() as int);
    assert(rest.subrange(0, id.len() as int) =~= id);
}

} // verus!
