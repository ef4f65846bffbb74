use novel_sources::content::ContentBlock;
use novel_sources::madtheme::imp::{
    api_chapters, apply_details, chapter_content, chapter_url, chapters_api_url, chapters_from_api, content_rating,
    listing_entries, listing_url, manga_hsid, novel_chapters, novel_key, novel_url, search_entries,
    search_query, stat_status, status_word, ApiChapter, ChapterRow, ListingItem, NovelDetails, SearchItem,
};
use novel_sources::madtheme::{Impl, MadTheme, Params};
use novel_sources::model::{ContentRating, FilterValue, Novel, NovelStatus, NumberText, QueryOp};
use novel_sources::novelbuddy::NovelBuddy;

fn s(t: &str) -> String {
    t.to_string()
}

fn buddy() -> Params {
    NovelBuddy::new().params()
}

#[test]
fn default_and_site_parameters() {
    let d = Params::default();
    assert_eq!(d.base_url, "");
    assert_eq!(d.api_url, "");
    assert_eq!(d.novel_path, "novel");
    assert!(!d.use_slug_search);
    assert_eq!(d.default_rating, ContentRating::Unknown);
    assert_eq!(d.date_format, "MMM dd, yyyy");
    let p = buddy();
    assert_eq!(p.base_url, "https://novelbuddy.com");
    assert_eq!(p.api_url, "https://api.novelbuddy.com");
    assert_eq!(p.novel_path, "novel");
    let m: MadTheme<NovelBuddy> = MadTheme::new();
    assert_eq!(m.params().base_url, "https://novelbuddy.com");
}

#[test]
fn search_query_sorts_selects_and_multi_selects() {
    let filters = vec![
        FilterValue::Sort { id: s("sort"), index: 3, ascending: true },
        FilterValue::Sort { id: s("sort2"), index: 9, ascending: true },
        FilterValue::Select { id: s("status"), value: s("completed") },
        FilterValue::MultiSelect { id: s("genre[]"), included: vec![s("action"), s("drama")], excluded: vec![s("x")] },
        FilterValue::Text { id: s("t"), value: s("ignored") },
    ];
    let q = search_query(&buddy(), Some(s("abc")), 2, filters);
    assert_eq!(q.path, "https://novelbuddy.com/search");
    let ops: Vec<(bool, String, Option<String>)> = q
        .ops
        .iter()
        .map(|o| match o {
            QueryOp::Push(n, v) => (false, n.clone(), v.clone()),
            QueryOp::Replace(n, v) => (true, n.clone(), v.clone()),
        })
        .collect();
    assert_eq!(
        ops,
        vec![
            (false, s("page"), Some(s("2"))),
            (false, s("q"), Some(s("abc"))),
            (false, s("status"), Some(s("all"))),
            (false, s("sort"), Some(s("name"))),
            (false, s("sort2"), Some(s("views"))),
            (true, s("status"), Some(s("completed"))),
            (false, s("genre[]"), Some(s("action"))),
            (false, s("genre[]"), Some(s("drama"))),
        ]
    );
}

#[test]
fn keys_strip_the_site_and_the_novel_path() {
    let p = buddy();
    assert_eq!(novel_key(&p, "https://novelbuddy.com/novel/shadow-slave"), "shadow-slave");
    assert_eq!(novel_key(&p, "/novel/shadow-slave"), "shadow-slave");
    assert_eq!(novel_key(&p, "/other/x"), "/other/x");
    assert_eq!(novel_url(&p, "shadow-slave"), "https://novelbuddy.com/shadow-slave");
    assert_eq!(listing_url(&p, "popular"), "https://novelbuddy.com/popular");
    let r = search_entries(&p, vec![
        SearchItem { href: Some(s("/novel/a")), title: Some(s("A")), image: Some(None) },
        SearchItem { href: Some(s("/novel/b")), title: Some(s("B")), image: None },
    ]);
    assert_eq!(r.len(), 1);
    assert_eq!(r[0].key, "a");
    assert!(r[0].cover.is_none());
    let l = listing_entries(&p, vec![ListingItem { href: Some(s("/novel/c")), img_src: Some(s("i.png")), title: Some(s("C")) }]);
    assert_eq!(l[0].cover.as_deref(), Some("i.png"));
}

#[test]
fn details_clean_names_and_rate_by_genre() {
    let p = buddy();
    let d = NovelDetails {
        title: None,
        cover: Some(s("cover.jpg")),
        authors: Some(vec![s(" Alice ,, "), s("Bob")]),
        description: Some(s("Desc")),
        tags: Some(vec![s(" Action,"), s("Ecchi ")]),
        stats: Some(vec![s("Chapters 10"), s(" Completed "), s("ongoing")]),
    };
    let n = apply_details(&p, Novel::summary(s("k"), s("Keep"), None), d);
    assert_eq!(n.title, "Keep");
    assert_eq!(n.cover.as_deref(), Some("cover.jpg"));
    assert_eq!(n.authors, Some(vec![s("Alice"), s("Bob")]));
    assert_eq!(n.tags, Some(vec![s("Action"), s("Ecchi")]));
    assert_eq!(n.status, NovelStatus::Completed);
    assert_eq!(n.content_rating, ContentRating::Suggestive);
    assert_eq!(stat_status("On-Hold"), Some(NovelStatus::Hiatus));
    assert_eq!(status_word("canceled"), Some(NovelStatus::Cancelled));
    assert_eq!(status_word("Ongoing"), None);
    assert_eq!(content_rating(&vec![s("Ecchi"), s("Smut")], ContentRating::Safe), ContentRating::NSFW);
    assert_eq!(content_rating(&vec![], ContentRating::Suggestive), ContentRating::Suggestive);
    assert_eq!(content_rating(&vec![s("Action")], ContentRating::Unknown), ContentRating::Safe);
}

#[test]
fn api_id_and_address() {
    let data = r#"{"props":{"mangaHsid":"abc123","x":1}}"#;
    assert_eq!(manga_hsid(data).as_deref(), Some("abc123"));
    assert_eq!(manga_hsid("nothing here"), None);
    assert_eq!(manga_hsid(r#""mangaHsid":"unterminated"#), None);
    assert_eq!(chapters_api_url(&buddy(), "abc123"), "https://api.novelbuddy.com/titles/abc123/chapters");
}

#[test]
fn api_chapters_are_read_from_json_in_reverse() {
    let p = buddy();
    let text = r#"{"data":{"chapters":[
        {"name":"Chapter 2","url":"/novel/x/chapter-2","updated_at":"2024-01-02"},
        {"name":"Chapter 1","url":"/novel/x/chapter-1"},
        {"url":5}
    ]}}"#;
    let c = api_chapters(&p, text).unwrap();
    assert_eq!(c.len(), 3);
    assert_eq!(c[0].key, "");
    assert_eq!(c[0].title.as_deref(), Some(""));
    assert_eq!(c[1].key, "/novel/x/chapter-1");
    assert!(c[1].date.is_none());
    assert_eq!(c[2].key, "/novel/x/chapter-2");
    assert_eq!(c[2].url.as_deref(), Some("https://novelbuddy.com/novel/x/chapter-2"));
    assert_eq!(c[2].url.as_deref().unwrap(), chapter_url(&p, &c[2].key));
    assert!(matches!(&c[2].number, Some(NumberText::Decimal(t)) if t == "2"));
    assert!(c[0].number.is_none());
    assert_eq!(c[2].date.as_ref().unwrap().text, "2024-01-02");
    assert!(api_chapters(&p, "not json").is_none());
    assert!(api_chapters(&p, r#"{"data":{}}"#).is_none());
    let direct = chapters_from_api(&p, vec![ApiChapter { name: Some(s("A")), url: Some(s("https://novelbuddy.com/a")), updated_at: None }]);
    assert_eq!(direct[0].key, "/a");
}

#[test]
fn page_list_is_the_fallback() {
    let p = buddy();
    let rows = vec![
        ChapterRow { title: Some(s("Chapter 5")), href: Some(s("/novel/x/chapter-5")), spans: Some(vec![s("new"), s("2 days ago")]) },
        ChapterRow { title: None, href: Some(s("/novel/x/chapter-4")), spans: None },
    ];
    let c = novel_chapters(&p, Some(s("garbage")), Some(rows));
    assert_eq!(c.len(), 1);
    let d = c[0].date.as_ref().unwrap();
    assert_eq!(d.text, "2 days ago");
    assert_eq!(c[0].url.as_deref().unwrap(), chapter_url(&p, &c[0].key));
    assert_eq!(d.format, "MMM dd, yyyy");
    assert!(matches!(&c[0].number, Some(NumberText::Decimal(t)) if t == "5"));
    assert!(d.now_if_invalid);
    assert!(novel_chapters(&p, None, None).is_empty());
    let from_api = novel_chapters(&p, Some(s(r#"{"data":{"chapters":[]}}"#)), Some(vec![
        ChapterRow { title: Some(s("x")), href: Some(s("y")), spans: None },
    ]));
    assert!(from_api.is_empty());
}

#[test]
fn chapter_content_reads_from_the_site_and_links_back() {
    let b = chapter_content(&buddy(), vec![Some(s("Hi"))], "/novel/x/chapter-1");
    assert!(matches!(&b[2], ContentBlock::Paragraph(t)
        if t == "LINK: [click here for chapter reviews.](https://novelbuddy.com/novel/x/chapter-1)"));
}
