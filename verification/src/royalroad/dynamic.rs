//! Royal Road's settings, listings and links that are served at run time.
use vstd::prelude::*;
use crate::model::{Listing, ListingKind, ListingView, listing_views, opt_view, opt_views};
use crate::text::{owned, views};

verus! {

broadcast use vstd::string::group_string_axioms;

/// A setting shown as an on/off switch.
#[derive(Debug)]
pub struct ToggleSetting {
    pub key: String,
    pub title: String,
    pub notification: Option<String>,
    pub refreshes: Option<Vec<String>>,
}

/// The view of a `ToggleSetting`.
pub struct ToggleView {
    pub key: Seq<char>,
    pub title: Seq<char>,
    pub notification: Option<Seq<char>>,
    pub refreshes: Option<Seq<Seq<char>>>,
}

impl View for ToggleSetting {
    type V = ToggleView;

    open spec fn view(&self) -> ToggleView {
        ToggleView {
            key: self.key@,
            title: self.title@,
            notification: opt_view(self.notification),
            refreshes: opt_views(self.refreshes),
        }
    }
}

/// The views of a list of settings.
pub open spec fn toggle_views(v: Seq<ToggleSetting>) -> Seq<ToggleView> {
    v.map_values(|t: ToggleSetting| t@)
}

/// The key under which the first switch's value is stored.
pub open spec fn first_toggle_key() -> Seq<char> {
    "setting"@
}

/// The settings: always the first switch, which refreshes the settings when
/// it changes; and a second switch exactly when the first is stored as on.
pub open spec fn settings_spec(stored: Option<bool>) -> Seq<ToggleView> {
    let first = ToggleView {
        key: first_toggle_key(),
        title: "Toggle"@,
        notification: Some("test"@),
        refreshes: Some(seq!["settings"@]),
    };
    let second = ToggleView { key: "setting2"@, title: "Toggle 2"@, notification: None, refreshes: None };
    if stored == Some(true) {
        seq![first, second]
    } else {
        seq![first]
    }
}

/// The key under which the first switch's value is stored.
pub fn first_toggle_key_name() -> (k: String)
    ensures
        k@ == first_toggle_key(),
{
    owned("setting")
}

/// The settings, given the stored value of the first switch (`None` when
/// none is stored).
pub fn dynamic_settings(stored: Option<bool>) -> (r: Vec<ToggleSetting>)
    ensures
        toggle_views(r@) == settings_spec(stored),
{
    let mut refreshes: Vec<String> = Vec::new();
    refreshes.push(owned("settings"));
    assert(views(refreshes@) =~= seq!["settings"@]);
    let mut r: Vec<ToggleSetting> = Vec::new();
    r.push(ToggleSetting {
        key: owned("setting"),
        title: owned("Toggle"),
        notification: Some(owned("test")),
        refreshes: Some(refreshes),
    });
    match stored {
        Some(value) => {
            if value {
                r.push(ToggleSetting {
                    key: owned("setting2"),
                    title: owned("Toggle 2"),
                    notification: None,
                    refreshes: None,
                });
            }
        },
        None => {},
    }
    assert(r@[0]@ == settings_spec(stored)[0]);
    assert(toggle_views(r@) =~= settings_spec(stored));
    r
}

/// The listings served at run time: one list named `Listing`.
pub open spec fn dynamic_listings_spec() -> Seq<ListingView> {
    seq![ListingView { id: "listing"@, name: "Listing"@, kind: ListingKind::List }]
}

/// The listings served at run time.
pub fn dynamic_listings() -> (r: Vec<Listing>)
    ensures
        listing_views(r@) == dynamic_listings_spec(),
{
    let mut r: Vec<Listing> = Vec::new();
    r.push(Listing { id: owned("listing"), name: owned("Listing"), kind: ListingKind::List });
    assert(listing_views(r@) =~= dynamic_listings_spec());
    r
}

/// Where a link into the site leads.
#[derive(Debug)]
pub enum DeepLink {
    Novel { key: String },
}

/// Where a link into the site leads: whatever the link, to the novel with
/// the key `novel_key`.
pub fn handle_deep_link(url: String) -> (r: Option<DeepLink>)
    ensures
        r matches Some(DeepLink::Novel { key }) && key@ == "novel_key"@,
{
    Some(DeepLink::Novel { key: owned("novel_key") })
}

} // verus!
