//! Royal Road's home page: five sections, each showing one listing.
use vstd::prelude::*;
use crate::model::{
    HomeComponent, HomeComponentView, HomeValue, HomeValueView, Listing, ListingKind, ListingView,
    Novel, NovelView, component_views, listing_views, novel_views,
};
use crate::text::owned;

verus! {

broadcast use vstd::string::group_string_axioms;

/// The page of each listing that the home page shows.
pub const HOME_PAGE: i32 = 1;

/// The ids of the listings of the home page, in the order of its sections.
pub open spec fn home_listing_ids() -> Seq<Seq<char>> {
    seq!["best-rated"@, "trending"@, "rising-stars"@, "new-releases"@, "latest-updates"@]
}

/// The titles of the sections of the home page.
pub open spec fn home_titles() -> Seq<Seq<char>> {
    seq![
        "Best Rated Novels"@,
        "Trending Novels"@,
        "Rising Stars"@,
        "Newest Novels"@,
        "Latest Updates"@,
    ]
}

/// The listing that section `i` shows: an unnamed listing with that id.
pub open spec fn home_listing_spec(i: int) -> ListingView {
    ListingView { id: home_listing_ids()[i], name: ""@, kind: ListingKind::Default }
}

/// The listings of the home page, in the order of its sections.
pub open spec fn home_listings_spec() -> Seq<ListingView> {
    Seq::new(5, |i: int| home_listing_spec(i))
}

/// The layout shown while the home page loads: each section with its
/// title, and a subtitle only on the fourth, all empty.
pub open spec fn initial_layout_spec() -> Seq<HomeComponentView> {
    seq![
        HomeComponentView { title: Some(home_titles()[0]), subtitle: None, value: HomeValueView::EmptyDetails },
        HomeComponentView { title: Some(home_titles()[1]), subtitle: None, value: HomeValueView::EmptyDetails },
        HomeComponentView { title: Some(home_titles()[2]), subtitle: None, value: HomeValueView::EmptyStack },
        HomeComponentView {
            title: Some(home_titles()[3]),
            subtitle: Some("Novels based on most reviews!"@),
            value: HomeValueView::EmptyScroller,
        },
        HomeComponentView { title: Some(home_titles()[4]), subtitle: None, value: HomeValueView::EmptyScroller },
    ]
}

/// The novels a section shows: those of its listing, or none when the
/// listing could not be loaded.
pub open spec fn section_entries(fetched: Option<Vec<Novel>>) -> Seq<NovelView> {
    match fetched {
        Some(v) => novel_views(v@),
        None => Seq::<NovelView>::empty(),
    }
}

/// The subtitle shared by the trending and rising sections.
pub open spec fn buried_gems() -> Seq<char> {
    "Stories that you might fancy, but may be buried under the other gems."@
}

/// The home page: five sections, each with its title, subtitle, the
/// novels of its listing and that listing.
pub open spec fn home_layout_spec(
    best_rated: Seq<NovelView>,
    trending: Seq<NovelView>,
    rising: Seq<NovelView>,
    newest: Seq<NovelView>,
    latest: Seq<NovelView>,
) -> Seq<HomeComponentView> {
    seq![
        HomeComponentView {
            title: Some(home_titles()[0]),
            subtitle: Some("The most popular stories."@),
            value: HomeValueView::Details { entries: best_rated, listing: home_listing_spec(0) },
        },
        HomeComponentView {
            title: Some(home_titles()[1]),
            subtitle: Some(buried_gems()),
            value: HomeValueView::Details { entries: trending, listing: home_listing_spec(1) },
        },
        HomeComponentView {
            title: Some(home_titles()[2]),
            subtitle: Some(buried_gems()),
            value: HomeValueView::Stack { entries: rising, listing: home_listing_spec(2) },
        },
        HomeComponentView {
            title: Some(home_titles()[3]),
            subtitle: Some("Newest Stories"@),
            value: HomeValueView::Scroller { entries: newest, listing: home_listing_spec(3), size: 400 },
        },
        HomeComponentView {
            title: Some(home_titles()[4]),
            subtitle: Some("The most recently updated stories."@),
            value: HomeValueView::Scroller { entries: latest, listing: home_listing_spec(4), size: 400 },
        },
    ]
}

/// An unnamed listing with the id `id`.
fn home_listing(id: &str) -> (l: Listing)
    ensures
        l@ == (ListingView { id: id@, name: ""@, kind: ListingKind::Default }),
{
    Listing { id: owned(id), name: owned(""), kind: ListingKind::Default }
}

/// The listings of the home page, in the order of its sections.
pub fn home_listings() -> (r: Vec<Listing>)
    ensures
        listing_views(r@) == home_listings_spec(),
{
    let mut r: Vec<Listing> = Vec::new();
    r.push(home_listing("best-rated"));
    r.push(home_listing("trending"));
    r.push(home_listing("rising-stars"));
    r.push(home_listing("new-releases"));
    r.push(home_listing("latest-updates"));
    assert(listing_views(r@) =~= home_listings_spec());
    r
}

/// A section with a title and maybe a subtitle.
fn section(title: &str, subtitle: Option<&str>, value: HomeValue) -> (c: HomeComponent)
    ensures
        c@ == (HomeComponentView {
            title: Some(title@),
            subtitle: match subtitle {
                Some(s) => Some(s@),
                None => None,
            },
            value: value@,
        }),
{
    let sub = match subtitle {
        Some(s) => Some(owned(s)),
        None => None,
    };
    HomeComponent { title: Some(owned(title)), subtitle: sub, value }
}

/// The layout shown while the home page loads.
pub fn initial_layout() -> (r: Vec<HomeComponent>)
    ensures
        component_views(r@) == initial_layout_spec(),
{
    let mut r: Vec<HomeComponent> = Vec::new();
    r.push(section("Best Rated Novels", None, HomeValue::EmptyDetails));
    r.push(section("Trending Novels", None, HomeValue::EmptyDetails));
    r.push(section("Rising Stars", None, HomeValue::EmptyStack));
    r.push(section("Newest Novels", Some("Novels based on most reviews!"), HomeValue::EmptyScroller));
    r.push(section("Latest Updates", None, HomeValue::EmptyScroller));
    assert(component_views(r@) =~= initial_layout_spec());
    r
}

/// The novels a section shows.
fn entries_of(fetched: Option<Vec<Novel>>) -> (r: Vec<Novel>)
    ensures
        novel_views(r@) == section_entries(fetched),
{
    match fetched {
        Some(v) => v,
        None => Vec::new(),
    }
}

/// The home page, from the novels of each of its listings (`None` for a
/// listing that could not be loaded).
pub fn home_layout(
    best_rated: Option<Vec<Novel>>,
    trending: Option<Vec<Novel>>,
    rising: Option<Vec<Novel>>,
    newest: Option<Vec<Novel>>,
    latest: Option<Vec<Novel>>,
) -> (r: Vec<HomeComponent>)
    ensures
        component_views(r@) == home_layout_spec(
            section_entries(best_rated),
            section_entries(trending),
            section_entries(rising),
            section_entries(newest),
            section_entries(latest),
        ),
{
    let mut r: Vec<HomeComponent> = Vec::new();
    r.push(section(
        "Best Rated Novels",
        Some("The most popular stories."),
        HomeValue::Details { entries: entries_of(best_rated), listing: home_listing("best-rated") },
    ));
    r.push(section(
        "Trending Novels",
        Some("Stories that you might fancy, but may be buried under the other gems."),
        HomeValue::Details { entries: entries_of(trending), listing: home_listing("trending") },
    ));
    r.push(section(
        "Rising Stars",
        Some("Stories that you might fancy, but may be buried under the other gems."),
        HomeValue::Stack { entries: entries_of(rising), listing: home_listing("rising-stars") },
    ));
    r.push(section(
        "Newest Novels",
        Some("Newest Stories"),
        HomeValue::Scroller {
            entries: entries_of(newest),
            listing: home_listing("new-releases"),
            size: 400,
        },
    ));
    r.push(section(
        "Latest Updates",
        Some("The most recently updated stories."),
        HomeValue::Scroller {
            entries: entries_of(latest),
            listing: home_listing("latest-updates"),
            size: 400,
        },
    ));
    assert(component_views(r@) =~= home_layout_spec(
        section_entries(best_rated),
        section_entries(trending),
        section_entries(rising),
        section_entries(newest),
        section_entries(latest),
    ));
    r
}

/// The sections shown while the home page loads are those of the loaded
/// home page, in the same order and with the same titles; each loaded
/// section shows the listing fetched for it.
pub proof fn lemma_layouts_agree(
    best_rated: Seq<NovelView>,
    trending: Seq<NovelView>,
    rising: Seq<NovelView>,
    newest: Seq<NovelView>,
    latest: Seq<NovelView>,
)
    ensures
        ({
            let full = home_layout_spec(best_rated, trending, rising, newest, latest);
            &&& full.len() == initial_layout_spec().len()
            &&& full.len() == home_listings_spec().len()
            &&& forall|i: int| 0 <= i < full.len() ==> #[trigger] full[i].title == initial_layout_spec()[i].title
            &&& forall|i: int| 0 <= i < full.len() ==> match #[trigger] full[i].value {
                HomeValueView::Details { listing, .. } => listing == home_listings_spec()[i],
                HomeValueView::Stack { listing, .. } => listing == home_listings_spec()[i],
                HomeValueView::Scroller { listing, .. } => listing == home_listings_spec()[i],
                _ => false,
            }
        }),
{
    let full = home_layout_spec(best_rated, trending, rising, newest, latest);
    assert forall|i: int| 0 <= i < full.len() implies match #[trigger] full[i].value {
        HomeValueView::Details { listing, .. } => listing == home_listings_spec()[i],
        HomeValueView::Stack { listing, .. } => listing == home_listings_spec()[i],
        HomeValueView::Scroller { listing, .. } => listing == home_listings_spec()[i],
        _ => false,
    } by {
        if i == 0 {} else if i == 1 {} else if i == 2 {} else if i == 3 {} else {}
    }
}

} // verus!
