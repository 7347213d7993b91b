//! Core of a feed-driven image browser: a pagination-aware feed walker and a
//! gallery-resolution pipeline.
//!
//! The library classifies post URLs into direct images, gallery references
//! and unsupported links, resolves gallery documents into ordered lists of
//! direct image URLs, and threads an opaque continuation token from one feed
//! page to the next. All network fetching lives outside the library; callers
//! hand in the fetched pages and documents as plain values.

pub mod classify;
pub mod errors;
pub mod gallery;
pub mod pager;
pub mod text;
pub mod walk;
