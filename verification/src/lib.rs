//! Verified logic of a set of novel sources: how each site's pages are
//! addressed, and how the text scraped from them becomes novels, chapters
//! and content blocks.
pub mod text;
pub mod model;
pub mod content;
pub mod json;
pub mod royalroad;
pub mod novelfire;
pub mod novelsonline;
pub mod madtheme;
pub mod novelbuddy;
