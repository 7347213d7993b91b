//! Failure taxonomy of the image-browsing pipeline.

use vstd::prelude::*;
use vstd::string::*;

verus! {

/// Failures of the core pipeline. End-of-feed is not among them: running out
/// of pages is a recoverable condition, reported by the pager as an outcome,
/// never as an error.
#[derive(Clone, Copy, Debug, PartialEq, Eq, Structural)]
pub enum CoreError {
    /// The feed-listing endpoint failed or its response had the wrong shape.
    FeedFetchError,
    /// The gallery-detail endpoint failed or its response had the wrong shape.
    GalleryFetchError,
    /// A URL without the gallery prefix was handed to the gallery resolver.
    MalformedGalleryUrlError,
}

impl CoreError {
    /// A short description of the failure.
    pub fn message(&self) -> (r: String)
        ensures
            *self == CoreError::FeedFetchError ==> r@ == "error fetching the feed listing"@,
            *self == CoreError::GalleryFetchError ==> r@ == "error fetching the gallery document"@,
            *self == CoreError::MalformedGalleryUrlError ==> r@ == "failed to strip gallery id from link"@,
    {
        match self {
            CoreError::FeedFetchError => "error fetching the feed listing".to_owned(),
            CoreError::GalleryFetchError => "error fetching the gallery document".to_owned(),
            CoreError::MalformedGalleryUrlError => "failed to strip gallery id from link".to_owned(),
        }
    }
}

/// Errors surfaced by a browsing front end built on the core.
#[derive(Clone, Copy, Debug, PartialEq, Eq, Structural)]
pub enum AppError {
    /// An image could not be downloaded.
    ImageFetchingError,
    /// The feed platform's API could not be reached or answered garbage.
    RedditApiError,
}

impl AppError {
    /// A short description of the failure.
    pub fn message(&self) -> (r: String)
        ensures
            *self == AppError::ImageFetchingError ==> r@ == "error fetching image"@,
            *self == AppError::RedditApiError ==> r@ == "error talking to the reddit api"@,
    {
        match self {
            AppError::ImageFetchingError => "error fetching image".to_owned(),
            AppError::RedditApiError => "error talking to the reddit api".to_owned(),
        }
    }
}

} // verus!
