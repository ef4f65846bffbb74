//! The MadTheme template, shared by the sites built on it: each site gives
//! its parameters, and the template reads its pages the same way.
use vstd::prelude::*;
use crate::model::ContentRating;
use crate::text::owned;

pub mod imp;

verus! {

broadcast use vstd::string::group_string_axioms;

/// What tells one MadTheme site from another.
#[derive(Debug)]
pub struct Params {
    pub base_url: String,
    pub api_url: String,
    pub novel_path: String,
    pub use_slug_search: bool,
    pub default_rating: ContentRating,
    pub date_format: String,
}

/// The view of `Params`.
pub struct ParamsView {
    pub base_url: Seq<char>,
    pub api_url: Seq<char>,
    pub novel_path: Seq<char>,
    pub use_slug_search: bool,
    pub default_rating: ContentRating,
    pub date_format: Seq<char>,
}

impl View for Params {
    type V = ParamsView;

    open spec fn view(&self) -> ParamsView {
        ParamsView {
            base_url: self.base_url@,
            api_url: self.api_url@,
            novel_path: self.novel_path@,
            use_slug_search: self.use_slug_search,
            default_rating: self.default_rating,
            date_format: self.date_format@,
        }
    }
}

/// The parameters a site has unless it says otherwise: no addresses,
/// novels under `novel`, no search by slug, no rating of its own, and dates
/// written like `Jan 02, 2024`.
pub open spec fn default_params() -> ParamsView {
    ParamsView {
        base_url: ""@,
        api_url: ""@,
        novel_path: "novel"@,
        use_slug_search: false,
        default_rating: ContentRating::Unknown,
        date_format: "MMM dd, yyyy"@,
    }
}

impl Default for Params {
    fn default() -> (p: Self)
        ensures
            p@ == default_params(),
    {
        Params {
            base_url: owned(""),
            api_url: owned(""),
            novel_path: owned("novel"),
            use_slug_search: false,
            default_rating: ContentRating::Unknown,
            date_format: owned("MMM dd, yyyy"),
        }
    }
}

/// A site built on the template: it is made from nothing and gives its
/// parameters.
pub trait Impl: Sized {
    /// The parameters the site gives.
    spec fn params_view(&self) -> ParamsView;

    fn new() -> Self;

    fn params(&self) -> (p: Params)
        ensures
            p@ == self.params_view();
}

/// A site built on the template, with the parameters it gave when it was
/// made.
pub struct MadTheme<T: Impl> {
    inner: T,
    params: Params,
}

impl<T: Impl> MadTheme<T> {
    /// The site.
    pub closed spec fn source(&self) -> T {
        self.inner
    }

    /// The parameters kept.
    pub closed spec fn kept_params(&self) -> ParamsView {
        self.params@
    }

    /// Makes the site and keeps the parameters it gives.
    pub fn new() -> (m: Self)
        ensures
            m.kept_params() == m.source().params_view(),
    {
        let inner = T::new();
        let params = inner.params();
        MadTheme { inner, params }
    }

    /// The site.
    pub fn inner(&self) -> (r: &T)
        ensures
            *r == self.source(),
    {
        &self.inner
    }

    /// The parameters kept.
    pub fn params(&self) -> (r: &Params)
        ensures
            r@ == self.kept_params(),
    {
        &self.params
    }
}

} // verus!
