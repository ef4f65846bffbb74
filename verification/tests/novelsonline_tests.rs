use novel_sources::content::ContentBlock;
use novel_sources::model::{Novel, NovelStatus, NumberText};
use novel_sources::novelsonline::{
    apply_detail, block_entries, chapter_content, chapter_url, listing_url, novel_update, search_form, volume_text,
    volumes_chapters, ChapterLink, DetailItem, NovelBlock, NovelDetails, VolumePanel,
};

fn s(t: &str) -> String {
    t.to_string()
}

#[test]
fn search_form_and_listing_urls() {
    let f = search_form(Some(s("martial peak")));
    assert_eq!(f.url, "https://novelsonline.org/detailed-search");
    assert_eq!(f.keyword, "martial peak");
    assert_eq!(search_form(None).keyword, "");
    assert_eq!(listing_url("top-novel"), "https://novelsonline.org/top-novel");
    assert_eq!(listing_url("other"), "https://novelsonline.org/ranking");
}

#[test]
fn blocks_give_ongoing_novels_keyed_by_their_path() {
    let r = block_entries(vec![
        NovelBlock { href: Some(s("https://novelsonline.org/martial-peak")), img_src: Some(s("c.jpg")), title: Some(s("Martial Peak")) },
        NovelBlock { href: Some(s("/elsewhere")), img_src: Some(s("c.jpg")), title: Some(s("E")) },
        NovelBlock { href: None, img_src: Some(s("c.jpg")), title: Some(s("E")) },
    ]);
    assert_eq!(r.len(), 2);
    assert_eq!(r[0].key, "martial-peak");
    assert_eq!(novel_sources::novelsonline::novel_url(&r[0].key), "https://novelsonline.org/martial-peak");
    assert_eq!(r[0].status, NovelStatus::Ongoing);
    assert_eq!(r[1].key, "/elsewhere");
}

#[test]
fn details_are_applied_by_their_header() {
    let mut n = Novel::summary(s("k"), s("t"), None);
    apply_detail(&mut n, DetailItem { header: Some(s("Author(s)")), body: Some(s("Momo Yi")) });
    assert_eq!(n.authors, Some(vec![s("Momo"), s("Yi")]));
    apply_detail(&mut n, DetailItem { header: Some(s("Genre")), body: Some(s("Action Fantasy")) });
    assert_eq!(n.tags, Some(vec![s("Action"), s("Fantasy")]));
    apply_detail(&mut n, DetailItem { header: Some(s("Status")), body: Some(s("Completed")) });
    assert_eq!(n.status, NovelStatus::Completed);
    apply_detail(&mut n, DetailItem { header: Some(s("Status")), body: Some(s("Paused")) });
    assert_eq!(n.status, NovelStatus::Completed);
    apply_detail(&mut n, DetailItem { header: Some(s("Description")), body: Some(s("About it.")) });
    assert_eq!(n.description.as_deref(), Some("About it."));
    apply_detail(&mut n, DetailItem { header: Some(s("Description")), body: None });
    assert_eq!(n.description.as_deref(), Some("About it."));
    apply_detail(&mut n, DetailItem { header: Some(s("Year")), body: Some(s("2020")) });
    assert_eq!(n.description.as_deref(), Some("About it."));
}

#[test]
fn volumes_number_their_chapters_from_one() {
    assert_eq!(volume_text(Some(s("Volume 2"))), "2");
    assert_eq!(volume_text(Some(s("Vol 2"))), "");
    assert_eq!(volume_text(None), "");
    let panels = vec![
        VolumePanel {
            heading: Some(s("Volume 1")),
            chapters: Some(vec![
                ChapterLink { text: s(" CH 1 "), href: s("https://novelsonline.org/k/chapter-1") },
                ChapterLink { text: s("Prologue"), href: s("https://novelsonline.org/k/prologue") },
            ]),
        },
        VolumePanel { heading: None, chapters: None },
        VolumePanel {
            heading: Some(s("Volume 2")),
            chapters: Some(vec![ChapterLink { text: s("CH 3"), href: s("/other/chapter-3") }]),
        },
    ];
    let c = volumes_chapters("k", panels);
    assert_eq!(c.len(), 3);
    assert_eq!(c[0].title.as_deref(), Some("1"));
    assert_eq!(c[0].key, "chapter-1");
    assert_eq!(chapter_url("k", &c[0].key), "https://novelsonline.org/k/chapter-1");
    assert!(matches!(c[1].number, Some(NumberText::Count(2))));
    assert!(matches!(&c[1].volume, Some(NumberText::DecimalOrMinusOne(t)) if t == "1"));
    assert!(matches!(c[2].number, Some(NumberText::Count(1))));
    assert_eq!(c[2].key, "/other/chapter-3");
}

#[test]
fn novel_update_reads_cover_title_details_and_chapters() {
    let details = NovelDetails {
        cover_src: s("c.jpg"),
        title: s("Martial Peak"),
        items: vec![DetailItem { header: Some(s("Status")), body: Some(s("Ongoing")) }],
    };
    let n = novel_update(Novel::summary(s("martial-peak"), s("x"), None), Some(details), Some(vec![]));
    assert_eq!(n.title, "Martial Peak");
    assert_eq!(n.url.as_deref(), Some("https://novelsonline.org/martial-peak"));
    assert_eq!(n.status, NovelStatus::Ongoing);
    assert_eq!(n.chapters.map(|c| c.len()), Some(0));
}

#[test]
fn chapter_content_uses_the_chapter_link_label() {
    let b = chapter_content(vec![Some(s("[x]"))], "k", "c");
    assert!(matches!(&b[0], ContentBlock::BlockQuote(t) if t == "x"));
    assert!(matches!(&b[2], ContentBlock::Paragraph(t)
        if t == "CHAPTER LINK: [click here for chapter reviews.](https://novelsonline.org/k/c)"));
}
