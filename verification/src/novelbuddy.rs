//! NovelBuddy, a site built on the MadTheme template.
use vstd::prelude::*;
use crate::madtheme::{Impl, Params, ParamsView, default_params};
use crate::text::owned;

verus! {

broadcast use vstd::string::group_string_axioms;

/// The site's address.
pub const BASE_URL: &'static str = "https://novelbuddy.com";

/// The address of the site's API.
pub const API_URL: &'static str = "https://api.novelbuddy.com";

/// NovelBuddy.
pub struct NovelBuddy;

/// NovelBuddy's parameters: its two addresses, and the template's
/// defaults for everything else.
pub open spec fn novelbuddy_params() -> ParamsView {
    ParamsView { base_url: BASE_URL@, api_url: API_URL@, ..default_params() }
}

impl Impl for NovelBuddy {
    open spec fn params_view(&self) -> ParamsView {
        novelbuddy_params()
    }

    fn new() -> Self {
        NovelBuddy
    }

    fn params(&self) -> (p: Params) {
        let d = Params::default();
        Params { base_url: owned(BASE_URL), api_url: owned(API_URL), ..d }
    }
}

} // verus!
