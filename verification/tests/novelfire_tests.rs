use novel_sources::content::ContentBlock;
use novel_sources::model::{ContentRating, Novel, NovelStatus, NumberText};
use novel_sources::novelfire::{
    book_url, chapter_content, chapter_item, chapter_items, chapter_title, chapters_url, novel_update,
    search_entries, search_url, BookDetails, ChapterItem, SearchItem,
};

fn s(t: &str) -> String {
    t.to_string()
}

#[test]
fn search_url_puts_the_query_and_page() {
    assert_eq!(search_url(Some(s("shadow")), 4), "https://novelfire.net/search?keyword=shadow&page=4");
    assert_eq!(search_url(None, 1), "https://novelfire.net/search?keyword=&page=1");
}

#[test]
fn search_entries_skip_incomplete_items() {
    let items = vec![
        SearchItem { href: Some(s("/book/shadow-slave")), title: Some(s("Shadow Slave")), img_src: Some(s("img/a.jpg")) },
        SearchItem { href: Some(s("/book/x")), title: None, img_src: Some(s("b")) },
    ];
    let r = search_entries(items);
    assert_eq!(r.len(), 1);
    assert_eq!(r[0].key, "shadow-slave");
    assert_eq!(r[0].title, "Shadow Slave");
    assert_eq!(r[0].cover.as_deref(), Some("https://novelfire.net/img/a.jpg"));
    assert_eq!(r[0].status, NovelStatus::Unknown);
    assert_eq!(book_url(&r[0].key), "https://novelfire.net/book/shadow-slave");
}

#[test]
fn chapter_titles_keys_and_numbers() {
    assert_eq!(chapter_title("Chapter 1: The Start "), "The Start");
    assert_eq!(chapter_title("Chapter 1"), "");
    assert_eq!(chapter_title("a:b:c"), "b");
    let c = chapter_item(ChapterItem {
        title_attr: Some(s("Chapter 12: Title")),
        number_text: Some(s(" 12 ")),
        href: Some(s("https://novelfire.net/book/x/chapter-12")),
        time: Some(Some(s("2024-05-01 10:00:00"))),
    })
    .unwrap();
    assert_eq!(c.key, "chapter-12");
    assert_eq!(c.title.as_deref(), Some("Title"));
    assert!(matches!(&c.number, Some(NumberText::Decimal(t)) if t == "12"));
    let d = c.date.unwrap();
    assert_eq!(d.text, "2024-05-01 10:00:00");
    assert_eq!(d.format, "yyyy-MM-dd HH:mm:ss");
    assert!(!d.now_if_invalid);

    let undated = chapter_item(ChapterItem {
        title_attr: Some(s("x")),
        number_text: Some(s("1")),
        href: Some(s("a/")),
        time: Some(None),
    })
    .unwrap();
    assert_eq!(undated.key, "");
    assert!(undated.date.is_none());
    let missing_time = ChapterItem { title_attr: Some(s("x")), number_text: Some(s("1")), href: Some(s("a")), time: None };
    assert_eq!(chapter_items(vec![missing_time]).len(), 0);
}

#[test]
fn novel_update_sets_details_and_one_page_of_chapters() {
    let details = BookDetails {
        cover_src: s("https://c/x.jpg"),
        title: Some(s("New title")),
        author: s("Guiltythree"),
        descriptions: Some(vec![s("p1"), s("p2")]),
        tags: Some(vec![s("Fantasy")]),
    };
    let items = vec![ChapterItem {
        title_attr: Some(s("Chapter 1: A")),
        number_text: Some(s("1")),
        href: Some(s("/book/k/chapter-1")),
        time: Some(None),
    }];
    let n = novel_update(Novel::summary(s("k"), s("Old"), None), Some(details), Some((items, Some(false))));
    assert_eq!(n.title, "New title");
    assert_eq!(n.status, NovelStatus::Ongoing);
    assert_eq!(n.content_rating, ContentRating::Safe);
    assert_eq!(n.description.as_deref(), Some("p1\n\np2"));
    assert_eq!(n.url.as_deref(), Some("https://novelfire.net/book/k"));
    assert_eq!(n.has_more_chapters, Some(true));
    assert_eq!(n.chapters.as_ref().unwrap()[0].key, "chapter-1");
    let last = novel_update(Novel::summary(s("k"), s("Old"), None), None, Some((vec![], Some(true))));
    assert_eq!(last.has_more_chapters, Some(false));
    assert_eq!(last.title, "Old");
    let none = novel_update(Novel::summary(s("k"), s("Old"), None), None, Some((vec![], None)));
    assert_eq!(none.has_more_chapters, Some(false));
    assert_eq!(chapters_url("k", 2), "https://novelfire.net/book/k/chapters?page=2");
}

#[test]
fn chapter_content_links_the_chapter_page() {
    let blocks = chapter_content(vec![Some(s("Text")), None], "k", "chapter-1");
    assert_eq!(blocks.len(), 3);
    assert!(matches!(&blocks[2], ContentBlock::Paragraph(t)
        if t == "LINK: [click here for chapter reviews.](https://novelfire.net/book/k/chapter-1)"));
}
