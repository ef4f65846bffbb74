use novel_sources::content::ContentBlock;
use novel_sources::model::{ContentRating, FilterValue, HomeValue, ListingKind, Novel, NovelStatus, QueryOp};
use novel_sources::royalroad::dynamic::{dynamic_listings, dynamic_settings, handle_deep_link, DeepLink};
use novel_sources::royalroad::home::{home_layout, home_listings, initial_layout};
use novel_sources::royalroad::{
    chapter_content, chapter_url, content_rating, description_selector, fiction_entries, fiction_entry,
    fiction_url, labels_status, listing_url, novel_update, search_query, AuthorNote, ChapterRow,
    FictionDetails, FictionItem,
};

fn s(t: &str) -> String {
    t.to_string()
}

fn push(op: &QueryOp) -> (String, Option<String>) {
    match op {
        QueryOp::Push(n, v) => (n.clone(), v.clone()),
        QueryOp::Replace(_, _) => panic!("unexpected replace"),
    }
}

#[test]
fn search_query_adds_fixed_parameters_then_filters() {
    let filters = vec![
        FilterValue::MultiSelect { id: s("genres"), included: vec![s("Fantasy"), s("LitRPG")], excluded: vec![s("Horror")] },
        FilterValue::Sort { id: s("popularity"), index: 2, ascending: false },
        FilterValue::Select { id: s("fiction"), value: s("ignored") },
        FilterValue::Text { id: s("author"), value: s("Someone") },
        FilterValue::Check { id: s("c"), value: 1 },
        FilterValue::Other,
    ];
    let q = search_query(Some(s("shadow slave")), 3, filters);
    assert_eq!(q.path, "https://royalroad.com/fictions/search");
    let ops: Vec<(String, Option<String>)> = q.ops.iter().map(push).collect();
    assert_eq!(
        ops,
        vec![
            (s("globalFilters"), Some(s("false"))),
            (s("title"), Some(s("shadow slave"))),
            (s("page"), Some(s("3"))),
            (s("tagsAdd"), Some(s("fantasy"))),
            (s("tagsAdd"), Some(s("litrpg"))),
            (s("tagsRemove"), Some(s("horror"))),
            (s("orderBy"), Some(s("popularity"))),
            (s("type"), Some(s("fiction"))),
            (s("author"), Some(s("Someone"))),
        ]
    );
    let empty = search_query(None, -1, vec![]);
    let ops: Vec<(String, Option<String>)> = empty.ops.iter().map(push).collect();
    assert_eq!(ops[1], (s("title"), None));
    assert_eq!(ops[2], (s("page"), Some(s("-1"))));
}

fn item(href: Option<&str>, cover: Option<&str>, title: Option<&str>) -> FictionItem {
    FictionItem {
        href: href.map(s),
        cover_src: cover.map(s),
        title_text: title.map(s),
        tags: Some(vec![s("Fantasy")]),
        labels: Some(vec![s("Fan Fiction"), s("ONGOING"), s("COMPLETED")]),
        descriptions: Some(vec![s("First."), s("Second.")]),
    }
}

#[test]
fn fiction_entries_read_key_title_cover_status_and_description() {
    let n = fiction_entry(item(Some("/fiction/123/my-story"), Some("/covers/a.jpg"), Some("  My Story \n")), false).unwrap();
    assert_eq!(n.key, "123/my-story");
    assert_eq!(n.title, "My Story");
    assert_eq!(n.cover.as_deref(), Some("https://royalroad.com/covers/a.jpg"));
    assert_eq!(n.status, NovelStatus::Ongoing);
    assert_eq!(n.description.as_deref(), Some("First.\n\nSecond."));
    assert_eq!(n.tags, Some(vec![s("Fantasy")]));
    assert_eq!(n.url, None);

    let listed = fiction_entry(item(Some("/fiction/123/my-story"), Some("https://cdn/x.png"), Some("T")), true).unwrap();
    assert_eq!(listed.cover.as_deref(), Some("https://cdn/x.png"));
    assert_eq!(listed.url.as_deref(), Some("https://royalroad.com/fiction/123/my-story"));
    assert_eq!(listed.url.as_deref().unwrap(), fiction_url(&listed.key));

    let all = fiction_entries(
        vec![item(None, Some("c"), Some("t")), item(Some("/fiction/9"), Some("c"), Some("t")), item(Some("/fiction/1"), None, Some("t"))],
        false,
    );
    assert_eq!(all.len(), 1);
    assert_eq!(all[0].key, "9");
    assert_eq!(description_selector("123/my-story"), "#description-123");
}

#[test]
fn labels_and_warnings_decide_status_and_rating() {
    assert_eq!(labels_status(&Some(vec![s("x"), s("INACTIVE"), s("ONGOING")])), NovelStatus::Hiatus);
    assert_eq!(labels_status(&Some(vec![s("HIATUS")])), NovelStatus::Hiatus);
    assert_eq!(labels_status(&Some(vec![s("CANCELLED")])), NovelStatus::Cancelled);
    assert_eq!(labels_status(&Some(vec![s("ongoing")])), NovelStatus::Unknown);
    assert_eq!(labels_status(&None), NovelStatus::Unknown);
    assert_eq!(content_rating(&Some(s("Graphic Violence Sexual Content"))), ContentRating::NSFW);
    assert_eq!(content_rating(&Some(s("Sensitive Content"))), ContentRating::Suggestive);
    assert_eq!(content_rating(&Some(s("Profanity"))), ContentRating::Safe);
    assert_eq!(content_rating(&None), ContentRating::Unknown);
}

#[test]
fn listing_urls_name_the_listing_page() {
    assert_eq!(listing_url("best-rated", 1), "https://royalroad.com/fictions/best-rated?page=1");
    assert_eq!(listing_url("new-releases", 2), "https://royalroad.com/fictions/new?page=2");
    assert_eq!(listing_url("rising-stars", 1), "https://royalroad.com/fictions/rising-stars?page=1");
    assert_eq!(listing_url("trending", 5), "https://royalroad.com/fictions/trending?page=5");
    assert_eq!(listing_url("latest-updates", 1), "https://royalroad.com/fictions/latest-updates?page=1");
    assert_eq!(listing_url("anything", 1), "https://royalroad.com/fictions/best-rated?page=1");
}

fn blank(key: &str) -> Novel {
    Novel::summary(s(key), s("Old title"), None)
}

#[test]
fn novel_update_applies_details_and_numbers_chapters() {
    let details = FictionDetails {
        cover_src: s("/c.jpg"),
        title: None,
        author: s("Author"),
        descriptions: Some(vec![s("d1")]),
        warnings: Some(s("Gore")),
        tags: None,
        labels: Some(vec![s("COMPLETED")]),
    };
    let rows = vec![
        ChapterRow { href: s("/fiction/12/name/chapter/100/one"), title: s("One"), datetime: s("2024-01-01T00:00:00.000000Z") },
        ChapterRow { href: s("/fiction/12/name/chapter/101/two"), title: s("Two"), datetime: s("t") },
    ];
    let n = novel_update(blank("12/name"), Some(details), Some(rows));
    assert_eq!(n.title, "Old title");
    assert_eq!(n.cover.as_deref(), Some("https://royalroad.com/c.jpg"));
    assert_eq!(n.authors, Some(vec![s("Author")]));
    assert_eq!(n.status, NovelStatus::Completed);
    assert_eq!(n.content_rating, ContentRating::Safe);
    assert_eq!(n.url.as_deref(), Some("https://royalroad.com/fiction/12/name"));
    assert_eq!(n.has_more_chapters, Some(false));
    let chapters = n.chapters.unwrap();
    assert_eq!(chapters.len(), 2);
    assert_eq!(chapters[0].key, "100/one");
    assert_eq!(chapters[1].key, "101/two");
    assert!(matches!(chapters[1].number, Some(novel_sources::model::NumberText::Count(2))));
    assert_eq!(chapters[0].url.as_deref(), Some("https://royalroad.com/fiction/12/name/chapter/100/one"));
    assert_eq!(chapters[0].url.as_deref().unwrap(), chapter_url("12/name", &chapters[0].key));
    assert_eq!(chapters[0].date.as_ref().unwrap().format, "yyyy-MM-dd'T'HH:mm:ss.SSSSSSZ");

    let untouched = novel_update(blank("k"), None, None);
    assert_eq!(untouched.title, "Old title");
    assert!(untouched.chapters.is_none());
    assert!(untouched.url.is_none());
}

#[test]
fn chapter_content_ends_with_note_divider_and_link() {
    let blocks = chapter_content(
        vec![s("Hello"), s("[System]"), s("***")],
        Some(AuthorNote { title: s("A/N"), text: s("Thanks") }),
        "12/name",
        "100/one",
    );
    assert_eq!(blocks.len(), 6);
    assert!(matches!(&blocks[0], ContentBlock::Paragraph(t) if t == "Hello"));
    assert!(matches!(&blocks[1], ContentBlock::BlockQuote(t) if t == "System"));
    assert!(matches!(&blocks[2], ContentBlock::Divider));
    assert!(matches!(&blocks[3], ContentBlock::BlockQuote(t) if t == "A/N\nThanks"));
    assert!(matches!(&blocks[4], ContentBlock::Divider));
    assert!(matches!(&blocks[5], ContentBlock::Paragraph(t)
        if t == "LINK: [click here for chapter reviews.](https://royalroad.com/fiction/12/name/chapter/100/one)"));
    assert_eq!(chapter_content(vec![], None, "a", "b").len(), 2);
}

#[test]
fn home_sections_follow_their_listings() {
    let listings = home_listings();
    let ids: Vec<&str> = listings.iter().map(|l| l.id.as_str()).collect();
    assert_eq!(ids, vec!["best-rated", "trending", "rising-stars", "new-releases", "latest-updates"]);
    assert!(listings.iter().all(|l| l.name.is_empty() && l.kind == ListingKind::Default));

    let initial = initial_layout();
    let full = home_layout(Some(vec![blank("a")]), None, Some(vec![]), None, Some(vec![blank("b"), blank("c")]));
    assert_eq!(initial.len(), 5);
    assert_eq!(full.len(), 5);
    for (a, b) in initial.iter().zip(full.iter()) {
        assert_eq!(a.title, b.title);
    }
    assert_eq!(initial[3].subtitle.as_deref(), Some("Novels based on most reviews!"));
    assert!(initial[4].subtitle.is_none());
    assert!(matches!(&initial[2].value, HomeValue::EmptyStack));
    assert!(matches!(&full[0].value, HomeValue::Details { entries, listing } if entries.len() == 1 && listing.id == "best-rated"));
    assert!(matches!(&full[1].value, HomeValue::Details { entries, .. } if entries.is_empty()));
    assert!(matches!(&full[4].value, HomeValue::Scroller { entries, size: 400, listing } if entries.len() == 2 && listing.id == "latest-updates"));
    assert_eq!(full[0].subtitle.as_deref(), Some("The most popular stories."));
}

#[test]
fn settings_listings_and_deep_links() {
    let off = dynamic_settings(Some(false));
    assert_eq!(off.len(), 1);
    assert_eq!(off[0].key, "setting");
    assert_eq!(off[0].notification.as_deref(), Some("test"));
    assert_eq!(off[0].refreshes, Some(vec![s("settings")]));
    assert_eq!(dynamic_settings(None).len(), 1);
    let on = dynamic_settings(Some(true));
    assert_eq!(on.len(), 2);
    assert_eq!(on[1].key, "setting2");
    assert_eq!(on[1].title, "Toggle 2");

    let l = dynamic_listings();
    assert_eq!(l.len(), 1);
    assert_eq!(l[0].id, "listing");
    assert_eq!(l[0].kind, ListingKind::List);

    assert!(matches!(handle_deep_link(s("https://royalroad.com/fiction/1")), Some(DeepLink::Novel { key }) if key == "novel_key"));
}
