//! Novels Online: its search form, listings, novel pages with volumes of
//! chapters, and chapter pages.
use vstd::prelude::*;
use crate::content::{
    BlockView, ContentBlock, block_views, blocks_spec, opt_texts, paragraph_blocks, push_review_link,
    review_link_spec,
};
use crate::model::{
    Chapter, ChapterView, Novel, NovelStatus, NovelView, NumberText, NumberView, chapter_views,
    novel_views, opt_view, summary_view,
};
use crate::text::{
    concat2, concat3, contains, contains_spec, has_prefix, lemma_strip_prefix_concat, owned, same_text, split, split_spec,
    strip_prefix_or_self, strip_prefix_or_self_spec, trim, trim_spec, views,
};

verus! {

broadcast use vstd::string::group_string_axioms;

/// The site's address.
pub const BASE_URL: &'static str = "https://novelsonline.org";

// ---------------------------------------------------------------------------
// Search and listings
// ---------------------------------------------------------------------------

/// A search is a form posted to the detailed search page with a keyword.
#[derive(Debug)]
pub struct SearchForm {
    pub url: String,
    pub keyword: String,
}

/// The search form for `query`: the keyword is the query, or nothing.
pub fn search_form(query: Option<String>) -> (f: SearchForm)
    ensures
        f.url@ == BASE_URL@ + "/detailed-search"@,
        f.keyword@ == match opt_view(query) {
            Some(q) => q,
            None => Seq::<char>::empty(),
        },
{
    let keyword = match query {
        Some(q) => q,
        None => String::new(),
    };
    SearchForm { url: concat2(BASE_URL, "/detailed-search"), keyword }
}

/// The page a listing shows: the top novels for `top-novel`, the ranking
/// for any other id.
pub open spec fn listing_url_spec(id: Seq<char>) -> Seq<char> {
    if id == "top-novel"@ {
        BASE_URL@ + "/top-novel"@
    } else {
        BASE_URL@ + "/ranking"@
    }
}

/// The page a listing shows.
pub fn listing_url(id: &str) -> (u: String)
    ensures
        u@ == listing_url_spec(id@),
{
    if same_text(id, "top-novel") {
        concat2(BASE_URL, "/top-novel")
    } else {
        concat2(BASE_URL, "/ranking")
    }
}

/// What one novel block of a search or listing page shows: the link of its
/// anchor, the source of its image and its title (the anchor's text on a
/// search page, the image's alternative text on a listing).
#[derive(Debug)]
pub struct NovelBlock {
    pub href: Option<String>,
    pub img_src: Option<String>,
    pub title: Option<String>,
}

/// The key of a novel: its link without the site's address.
pub open spec fn novel_key_spec(href: Seq<char>) -> Seq<char> {
    strip_prefix_or_self_spec(href, BASE_URL@ + "/"@)
}

/// The novel a block shows, if it has a link, an image and a title; the
/// site lists only ongoing novels.
pub open spec fn block_entry_spec(b: NovelBlock) -> Option<NovelView> {
    match (b.href, b.img_src, b.title) {
        (Some(h), Some(src), Some(t)) => Some(NovelView {
            status: NovelStatus::Ongoing,
            ..summary_view(novel_key_spec(h@), t@, Some(src@))
        }),
        _ => None,
    }
}

/// The novels of a page of blocks, skipping blocks that lack a part.
pub open spec fn block_entries_spec(blocks: Seq<NovelBlock>) -> Seq<NovelView>
    decreases blocks.len(),
{
    if blocks.len() == 0 {
        Seq::<NovelView>::empty()
    } else {
        let init = block_entries_spec(blocks.drop_last());
        match block_entry_spec(blocks.last()) {
            Some(n) => init.push(n),
            None => init,
        }
    }
}

/// The key of a novel from its link.
pub fn novel_key(href: &str) -> (k: String)
    ensures
        k@ == novel_key_spec(href@),
{
    let prefix = concat2(BASE_URL, "/");
    strip_prefix_or_self(href, prefix.as_str())
}

/// The novel a block shows.
pub fn block_entry(b: NovelBlock) -> (r: Option<Novel>)
    ensures
        match r {
            Some(n) => block_entry_spec(b) == Some(n@),
            None => block_entry_spec(b) is None,
        },
{
    let ghost b0 = b;
    match (b.href, b.img_src, b.title) {
        (Some(h), Some(src), Some(t)) => {
            let mut n = Novel::summary(novel_key(h.as_str()), t, Some(src));
            n.status = NovelStatus::Ongoing;
            assert(block_entry_spec(b0) =~= Some(n@));
            Some(n)
        },
        _ => None,
    }
}

/// The novels of a page of blocks.
pub fn block_entries(blocks: Vec<NovelBlock>) -> (r: Vec<Novel>)
    ensures
        novel_views(r@) == block_entries_spec(blocks@),
{
    let mut r: Vec<Novel> = Vec::new();
    let ghost all = blocks@;
    for b in it: blocks
        invariant
            all == it.seq(),
            novel_views(r@) == block_entries_spec(all.take(it.index() as int)),
    {
        let ghost i = it.index() as int;
        assert(all.take(i + 1).drop_last() =~= all.take(i));
        assert(all.take(i + 1).last() == all[i]);
        let ghost before = novel_views(r@);
        match block_entry(b) {
            Some(n) => {
                r.push(n);
                assert(novel_views(r@) =~= before.push(n@));
            },
            None => {},
        }
    }
    assert(all.take(all.len() as int) =~= all);
    r
}

// ---------------------------------------------------------------------------
// Novel pages
// ---------------------------------------------------------------------------

/// The address of the page of the novel with key `key`.
pub open spec fn novel_url_spec(key: Seq<char>) -> Seq<char> {
    BASE_URL@ + "/"@ + key
}

/// The address of the page of the novel with key `key`.
pub fn novel_url(key: &str) -> (u: String)
    ensures
        u@ == novel_url_spec(key@),
{
    concat3(BASE_URL, "/", key)
}

/// A detail of a novel page: a header and a body, either of which the page
/// may lack.
#[derive(Debug)]
pub struct DetailItem {
    pub header: Option<String>,
    pub body: Option<String>,
}

/// What the cover and details of a novel page show.
#[derive(Debug)]
pub struct NovelDetails {
    pub cover_src: String,
    pub title: String,
    pub items: Vec<DetailItem>,
}

/// The words of a detail body, split at spaces and trimmed.
pub open spec fn words_spec(body: Seq<char>) -> Seq<Seq<char>> {
    split_spec(body, ' ').map_values(|w: Seq<char>| trim_spec(w))
}

/// A novel with one detail applied: authors, description, genres or
/// status (which changes only when the body says ongoing or completed); a
/// detail that lacks its header or body, or has another header, changes
/// nothing.
pub open spec fn apply_detail_spec(n: NovelView, d: DetailItem) -> NovelView {
    match (d.header, d.body) {
        (Some(h), Some(b)) => if h@ == "Author(s)"@ {
            NovelView { authors: Some(words_spec(b@)), ..n }
        } else if h@ == "Description"@ {
            NovelView { description: Some(b@), ..n }
        } else if h@ == "Genre"@ {
            NovelView { tags: Some(words_spec(b@)), ..n }
        } else if h@ == "Status"@ {
            if contains_spec(b@, "Ongoing"@) {
                NovelView { status: NovelStatus::Ongoing, ..n }
            } else if contains_spec(b@, "Completed"@) {
                NovelView { status: NovelStatus::Completed, ..n }
            } else {
                n
            }
        } else {
            n
        },
        _ => n,
    }
}

/// A novel with the details applied in order.
pub open spec fn apply_details_spec(n: NovelView, items: Seq<DetailItem>) -> NovelView
    decreases items.len(),
{
    if items.len() == 0 {
        n
    } else {
        apply_detail_spec(apply_details_spec(n, items.drop_last()), items.last())
    }
}

/// Applying details keeps a novel's key and chapters.
proof fn lemma_details_keep_key(n: NovelView, items: Seq<DetailItem>)
    ensures
        apply_details_spec(n, items).key == n.key,
        apply_details_spec(n, items).chapters == n.chapters,
        apply_details_spec(n, items).title == n.title,
        apply_details_spec(n, items).cover == n.cover,
        apply_details_spec(n, items).url == n.url,
        apply_details_spec(n, items).content_rating == n.content_rating,
    decreases items.len(),
{
    if items.len() > 0 {
        lemma_details_keep_key(n, items.drop_last());
    }
}

/// The words of a detail body.
pub fn words(body: &str) -> (r: Vec<String>)
    ensures
        views(r@) == words_spec(body@),
{
    let parts = split(body, ' ');
    let ghost ps = views(parts@);
    let mut r: Vec<String> = Vec::new();
    for p in it: parts
        invariant
            ps == views(it.seq()),
            views(r@) == ps.take(it.index() as int).map_values(|w: Seq<char>| trim_spec(w)),
    {
        let ghost i = it.index() as int;
        assert(p@ == ps[i]);
        let ghost before = views(r@);
        r.push(trim(p.as_str()));
        assert(views(r@) =~= before.push(trim_spec(ps[i])));
        assert(ps.take(i + 1) =~= ps.take(i).push(ps[i]));
        assert(views(r@) =~= ps.take(i + 1).map_values(|w: Seq<char>| trim_spec(w)));
    }
    assert(ps.take(ps.len() as int) =~= ps);
    r
}

/// A novel with one detail applied.
pub fn apply_detail(novel: &mut Novel, d: DetailItem)
    ensures
        final(novel)@ == apply_detail_spec(old(novel)@, d),
{
    let ghost d0 = d;
    let ghost n0 = novel@;
    match (d.header, d.body) {
        (Some(h), Some(b)) => {
            if same_text(h.as_str(), "Author(s)") {
                novel.authors = Some(words(b.as_str()));
            } else if same_text(h.as_str(), "Description") {
                novel.description = Some(b);
            } else if same_text(h.as_str(), "Genre") {
                novel.tags = Some(words(b.as_str()));
            } else if same_text(h.as_str(), "Status") {
                if contains(b.as_str(), "Ongoing") {
                    novel.status = NovelStatus::Ongoing;
                } else if contains(b.as_str(), "Completed") {
                    novel.status = NovelStatus::Completed;
                }
            }
        },
        _ => {},
    }
    assert(novel@ =~= apply_detail_spec(n0, d0));
}

/// A volume of a novel's chapters: the text of its heading, and the link
/// text and address of each of its chapters (`None` when the volume has no
/// chapter list).
#[derive(Debug)]
pub struct VolumePanel {
    pub heading: Option<String>,
    pub chapters: Option<Vec<ChapterLink>>,
}

/// A link to a chapter: its text and its address.
#[derive(Debug)]
pub struct ChapterLink {
    pub text: String,
    pub href: String,
}

/// The number of a volume as its heading writes it: what follows `Volume `,
/// or nothing when the heading is missing or does not start so. The number
/// is `-1` when that is no number.
pub open spec fn volume_text_spec(heading: Option<Seq<char>>) -> Seq<char> {
    match heading {
        Some(h) => if has_prefix(h, "Volume "@) {
            h.subrange(7, h.len() as int)
        } else {
            Seq::<char>::empty()
        },
        None => Seq::<char>::empty(),
    }
}

/// The chapter that the link at index `j` of a volume stands for: its title
/// is the trimmed link text without `CH `, its key the address without the
/// novel's address, and it is numbered from 1 within its volume.
pub open spec fn chapter_link_spec(novel_key: Seq<char>, volume: Seq<char>, link: ChapterLink, j: int) -> ChapterView {
    ChapterView {
        key: strip_prefix_or_self_spec(link.href@, BASE_URL@ + "/"@ + novel_key + "/"@),
        title: Some(strip_prefix_or_self_spec(trim_spec(link.text@), "CH "@)),
        number: Some(NumberView::Count((j + 1) as nat)),
        volume: Some(NumberView::DecimalOrMinusOne(volume)),
        date: None,
        url: None,
    }
}

/// The chapters of one volume.
pub open spec fn volume_chapters_spec(novel_key: Seq<char>, panel: VolumePanel) -> Seq<ChapterView> {
    let volume = volume_text_spec(opt_view(panel.heading));
    match panel.chapters {
        Some(links) => Seq::new(
            links@.len(),
            |j: int| chapter_link_spec(novel_key, volume, links@[j], j),
        ),
        None => Seq::<ChapterView>::empty(),
    }
}

/// The chapters of all volumes, volume after volume.
pub open spec fn volumes_spec(novel_key: Seq<char>, panels: Seq<VolumePanel>) -> Seq<ChapterView>
    decreases panels.len(),
{
    if panels.len() == 0 {
        Seq::<ChapterView>::empty()
    } else {
        volumes_spec(novel_key, panels.drop_last()) + volume_chapters_spec(novel_key, panels.last())
    }
}

/// A novel with what its page shows: the cover, title, address and details
/// when they were read, and the chapters of its volumes when they were read.
pub open spec fn novel_update_spec(
    novel: NovelView,
    details: Option<NovelDetails>,
    panels: Option<Seq<VolumePanel>>,
) -> NovelView {
    let with_details = match details {
        Some(d) => apply_details_spec(
            NovelView {
                title: d.title@,
                cover: Some(d.cover_src@),
                url: Some(novel_url_spec(novel.key)),
                ..novel
            },
            d.items@,
        ),
        None => novel,
    };
    match panels {
        Some(p) => NovelView { chapters: Some(volumes_spec(novel.key, p)), ..with_details },
        None => with_details,
    }
}

/// The number text of a volume from its heading.
pub fn volume_text(heading: Option<String>) -> (t: String)
    ensures
        t@ == volume_text_spec(opt_view(heading)),
{
    match heading {
        Some(h) => {
            proof {
                reveal_strlit("Volume ");
            }
            if crate::text::starts_with(h.as_str(), "Volume ") {
                strip_prefix_or_self(h.as_str(), "Volume ")
            } else {
                String::new()
            }
        },
        None => String::new(),
    }
}

/// The chapters of one volume.
pub fn volume_chapters(novel_key: &str, panel: VolumePanel) -> (r: Vec<Chapter>)
    ensures
        chapter_views(r@) == volume_chapters_spec(novel_key@, panel),
{
    let ghost p0 = panel;
    let VolumePanel { heading, chapters } = panel;
    let volume = volume_text(heading);
    let mut r: Vec<Chapter> = Vec::new();
    match chapters {
        Some(links) => {
            let key_prefix = concat3(BASE_URL, "/", novel_key);
            let prefix = concat2(key_prefix.as_str(), "/");
            let ghost all = links@;
            let n = links.len();
            let mut count: usize = 0;
            for link in it: links
                invariant
                    all == it.seq(),
                    all.len() == n,
                    count as int == it.index(),
                    prefix@ == BASE_URL@ + "/"@ + novel_key@ + "/"@,
                    chapter_views(r@) == Seq::new(
                        it.index() as nat,
                        |j: int| chapter_link_spec(novel_key@, volume@, all[j], j),
                    ),
            {
                let ghost j = it.index() as int;
                let ghost lg = link;
                assert(lg == all[j]);
                let title = strip_prefix_or_self(trim(link.text.as_str()).as_str(), "CH ");
                let key = strip_prefix_or_self(link.href.as_str(), prefix.as_str());
                count = count + 1;
                let c = Chapter {
                    key,
                    title: Some(title),
                    number: Some(NumberText::Count(count)),
                    volume: Some(NumberText::DecimalOrMinusOne(owned(volume.as_str()))),
                    date: None,
                    url: None,
                };
                let ghost before = chapter_views(r@);
                assert(c@ == chapter_link_spec(novel_key@, volume@, lg, j));
                r.push(c);
                assert(chapter_views(r@) =~= before.push(c@));
                assert(chapter_views(r@) =~= Seq::new(
                    (j + 1) as nat,
                    |k: int| chapter_link_spec(novel_key@, volume@, all[k], k),
                ));
            }
        },
        None => {},
    }
    assert(chapter_views(r@) =~= volume_chapters_spec(novel_key@, p0));
    r
}

/// The chapters of all volumes.
pub fn volumes_chapters(novel_key: &str, panels: Vec<VolumePanel>) -> (r: Vec<Chapter>)
    ensures
        chapter_views(r@) == volumes_spec(novel_key@, panels@),
{
    let mut r: Vec<Chapter> = Vec::new();
    let ghost all = panels@;
    for panel in it: panels
        invariant
            all == it.seq(),
            chapter_views(r@) == volumes_spec(novel_key@, all.take(it.index() as int)),
    {
        let ghost i = it.index() as int;
        assert(all.take(i + 1).drop_last() =~= all.take(i));
        assert(all.take(i + 1).last() == all[i]);
        let ghost before = chapter_views(r@);
        let mut more = volume_chapters(novel_key, panel);
        let ghost added = chapter_views(more@);
        r.append(&mut more);
        assert(chapter_views(r@) =~= before + added);
    }
    assert(all.take(all.len() as int) =~= all);
    r
}

/// A novel with what its page shows: its details when `details` holds
/// them, its chapters when `panels` holds its volumes.
pub fn novel_update(novel: Novel, details: Option<NovelDetails>, panels: Option<Vec<VolumePanel>>) -> (r: Novel)
    ensures
        r@ == novel_update_spec(novel@, details, match panels {
            Some(v) => Some(v@),
            None => None,
        }),
{
    let ghost n0 = novel@;
    let ghost d0 = details;
    let mut novel = novel;
    match details {
        Some(d) => {
            let NovelDetails { cover_src, title, items } = d;
            novel.title = title;
            novel.cover = Some(cover_src);
            novel.url = Some(novel_url(novel.key.as_str()));
            let ghost start = novel@;
            let ghost all = items@;
            for item in it: items
                invariant
                    all == it.seq(),
                    novel@ == apply_details_spec(start, all.take(it.index() as int)),
            {
                let ghost i = it.index() as int;
                assert(all.take(i + 1).drop_last() =~= all.take(i));
                assert(all.take(i + 1).last() == all[i]);
                apply_detail(&mut novel, item);
            }
            assert(all.take(all.len() as int) =~= all);
        },
        None => {},
    }
    assert(novel@ == novel_update_spec(n0, d0, None));
    proof {
        match d0 {
            Some(d) => {
                lemma_details_keep_key(
                    NovelView { title: d.title@, cover: Some(d.cover_src@), url: Some(novel_url_spec(n0.key)), ..n0 },
                    d.items@,
                );
            },
            None => {},
        }
    }
    assert(novel@.key == n0.key);
    match panels {
        Some(ps) => {
            novel.chapters = Some(volumes_chapters(novel.key.as_str(), ps));
        },
        None => {},
    }
    novel
}

// ---------------------------------------------------------------------------
// Chapter pages
// ---------------------------------------------------------------------------

/// The address of a chapter's page.
pub open spec fn chapter_url_spec(novel_key: Seq<char>, chapter_key: Seq<char>) -> Seq<char> {
    BASE_URL@ + "/"@ + novel_key + "/"@ + chapter_key
}

/// The address of a chapter's page.
pub fn chapter_url(novel_key: &str, chapter_key: &str) -> (u: String)
    ensures
        u@ == chapter_url_spec(novel_key@, chapter_key@),
{
    let head = concat3(BASE_URL, "/", novel_key);
    concat3(head.as_str(), "/", chapter_key)
}

/// The blocks of a chapter page: one for each paragraph that has text of
/// its own, then a divider and the link to the chapter's page.
pub open spec fn chapter_content_spec(
    texts: Seq<Option<Seq<char>>>,
    novel_key: Seq<char>,
    chapter_key: Seq<char>,
) -> Seq<BlockView> {
    blocks_spec(texts).push(BlockView::Divider).push(
        BlockView::Paragraph(review_link_spec("CHAPTER LINK: "@, chapter_url_spec(novel_key, chapter_key))),
    )
}

/// The blocks of a chapter page, from the own texts of its paragraphs.
pub fn chapter_content(texts: Vec<Option<String>>, novel_key: &str, chapter_key: &str) -> (r: Vec<ContentBlock>)
    ensures
        block_views(r@) == chapter_content_spec(opt_texts(texts@), novel_key@, chapter_key@),
{
    let mut r = paragraph_blocks(texts);
    let url = chapter_url(novel_key, chapter_key);
    push_review_link(&mut r, "CHAPTER LINK: ", url.as_str());
    r
}


// ---------------------------------------------------------------------------
// Laws
// ---------------------------------------------------------------------------

/// A novel listed with the link `{site}/{key}` has the key `key`, and its
/// update reads the very page it was listed with.
pub proof fn lemma_novel_link_key(key: Seq<char>)
    ensures
        novel_key_spec(BASE_URL@ + "/"@ + key) == key,
        novel_url_spec(novel_key_spec(BASE_URL@ + "/"@ + key)) == BASE_URL@ + "/"@ + key,
{
    lemma_strip_prefix_concat(BASE_URL@ + "/"@, key);
}

/// A chapter listed with the link `{site}/{novel}/{key}` has the key `key`,
/// and its content is read from the very page it was listed with.
pub proof fn lemma_chapter_link_key(novel_key: Seq<char>, volume: Seq<char>, text: String, key: Seq<char>, href: String, j: int)
    requires
        href@ == BASE_URL@ + "/"@ + novel_key + "/"@ + key,
    ensures
        chapter_link_spec(novel_key, volume, ChapterLink { text, href }, j).key == key,
        chapter_url_spec(novel_key, chapter_link_spec(novel_key, volume, ChapterLink { text, href }, j).key)
            == href@,
{
    lemma_strip_prefix_concat(BASE_URL@ + "/"@ + novel_key + "/"@, key);
}


/// Updating a novel when neither its details nor its chapters are asked
/// for leaves it as it was.
pub proof fn lemma_update_without_parts_keeps_novel(n: NovelView)
    ensures
        novel_update_spec(n, None, None) == n,
{
}


/// What an update with a novel page's details gives: the title of its cover
/// image, its cover image's address exactly as the page has it, the novel
/// page's address; its details change nothing else (and no rating); the key
/// and chapters stay as they were.
pub proof fn lemma_update_details(n: NovelView, d: NovelDetails)
    ensures
        ({
            let r = novel_update_spec(n, Some(d), None);
            &&& r.title == d.title@
            &&& r.cover == Some(d.cover_src@)
            &&& r.url == Some("https://novelsonline.org"@ + "/"@ + n.key)
            &&& r.key == n.key
            &&& r.chapters == n.chapters
            &&& r.content_rating == n.content_rating
        }),
{
    lemma_details_keep_key(
        NovelView { title: d.title@, cover: Some(d.cover_src@), url: Some(novel_url_spec(n.key)), ..n },
        d.items@,
    );
}

/// A detail changes only the field its header names: the authors (the
/// body's words, trimmed), the description (the body), the genres (the
/// body's words) or the status (ongoing when the body says `Ongoing`, else
/// completed when it says `Completed`, else unchanged).
pub proof fn lemma_detail_by_header(n: NovelView, h: String, b: String)
    ensures
        ({
            let r = apply_detail_spec(n, DetailItem { header: Some(h), body: Some(b) });
            &&& h@ == "Author(s)"@ ==> r == NovelView { authors: Some(words_spec(b@)), ..n }
            &&& h@ == "Description"@ ==> r == NovelView { description: Some(b@), ..n }
            &&& h@ == "Genre"@ ==> r == NovelView { tags: Some(words_spec(b@)), ..n }
            &&& h@ == "Status"@ && contains_spec(b@, "Ongoing"@) ==> r == NovelView { status: NovelStatus::Ongoing, ..n }
            &&& h@ == "Status"@ && !contains_spec(b@, "Ongoing"@) && contains_spec(b@, "Completed"@)
                ==> r == NovelView { status: NovelStatus::Completed, ..n }
            &&& h@ == "Status"@ && !contains_spec(b@, "Ongoing"@) && !contains_spec(b@, "Completed"@) ==> r == n
            &&& h@ != "Author(s)"@ && h@ != "Description"@ && h@ != "Genre"@ && h@ != "Status"@ ==> r == n
        }),
{
    reveal_strlit("Author(s)");
    reveal_strlit("Description");
    reveal_strlit("Genre");
    reveal_strlit("Status");
    assert("Author(s)"@ != "Description"@) by {
        assert("Author(s)"@.len() != "Description"@.len());
    }
    assert("Author(s)"@ != "Genre"@) by {
        assert("Author(s)"@.len() != "Genre"@.len());
    }
    assert("Author(s)"@ != "Status"@) by {
        assert("Author(s)"@.len() != "Status"@.len());
    }
    assert("Description"@ != "Genre"@) by {
        assert("Description"@.len() != "Genre"@.len());
    }
    assert("Description"@ != "Status"@) by {
        assert("Description"@.len() != "Status"@.len());
    }
    assert("Genre"@ != "Status"@) by {
        assert("Genre"@.len() != "Status"@.len());
    }
}


/// The chapters of the volumes come volume after volume, and within a
/// volume in the order of its links: the link at `j` of a volume is
/// numbered `j + 1`, carries the volume's number text (what follows
/// `Volume ` in its heading), is titled by its trimmed text without `CH `,
/// and is keyed by its address without `{site}/{novel}/`.
pub proof fn lemma_volume_chapters(novel_key: Seq<char>, panels: Seq<VolumePanel>, panel: VolumePanel, j: int)
    requires
        panel.chapters is Some,
        0 <= j < panel.chapters.unwrap()@.len(),
    ensures
        ({
            let before = volumes_spec(novel_key, panels);
            let all = volumes_spec(novel_key, panels.push(panel));
            let link = panel.chapters.unwrap()@[j];
            let c = all[before.len() + j];
            &&& all.len() == before.len() + panel.chapters.unwrap()@.len()
            &&& all.subrange(0, before.len() as int) == before
            &&& c.number == Some(NumberView::Count((j + 1) as nat))
            &&& c.volume == Some(NumberView::DecimalOrMinusOne(volume_text_spec(opt_view(panel.heading))))
            &&& c.title == Some(strip_prefix_or_self_spec(trim_spec(link.text@), "CH "@))
            &&& c.key == strip_prefix_or_self_spec(link.href@, "https://novelsonline.org"@ + "/"@ + novel_key + "/"@)
        }),
{
    assert(panels.push(panel).drop_last() =~= panels);
    assert(panels.push(panel).last() == panel);
    let before = volumes_spec(novel_key, panels);
    let all = volumes_spec(novel_key, panels.push(panel));
    assert(all.subrange(0, before.len() as int) =~= before);
}

/// A volume heading `Volume {n}` gives the number text `n`; a heading that
/// does not start so, or no heading, gives no text (which reads as -1).
pub proof fn lemma_volume_heading(rest: Seq<char>, other: Seq<char>)
    ensures
        volume_text_spec(Some("Volume "@ + rest)) == rest,
        !has_prefix(other, "Volume "@) ==> volume_text_spec(Some(other)) == Seq::<char>::empty(),
        volume_text_spec(None) == Seq::<char>::empty(),
{
    reveal_strlit("Volume ");
    let h = "Volume "@ + rest;
    assert(h.subrange(0, 7) =~= "Volume "@);
    assert(h.subrange(7, h.len() as int) =~= rest);
}

} // verus!
