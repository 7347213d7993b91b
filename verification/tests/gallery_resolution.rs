use reddit_browser::errors::CoreError;
use reddit_browser::gallery::{
    gallery_comments_url, gallery_endpoint_of, gallery_id_of, image_url_of,
    resolve_gallery_document, GalleryApiData, GalleryChildrenData, GalleryData,
    GalleryDataChildren, GalleryDataItem, GalleryImageData,
};

fn child_with_items(ids: &[&str]) -> GalleryDataChildren {
    GalleryDataChildren {
        data: GalleryChildrenData {
            gallery_data: Some(GalleryDataItem {
                items: ids
                    .iter()
                    .map(|id| GalleryImageData {
                        media_id: (*id).to_string(),
                    })
                    .collect(),
            }),
        },
    }
}

fn child_without_items() -> GalleryDataChildren {
    GalleryDataChildren {
        data: GalleryChildrenData { gallery_data: None },
    }
}

fn listing(children: Vec<GalleryDataChildren>) -> GalleryApiData {
    GalleryApiData {
        data: GalleryData { children },
    }
}

#[test]
fn media_id_formats_into_canonical_image_url() {
    assert_eq!(image_url_of("m1"), "https://i.redd.it/m1.jpg");
    assert_eq!(image_url_of(""), "https://i.redd.it/.jpg");
}

#[test]
fn gallery_id_is_extracted_by_stripping_the_prefix() {
    assert_eq!(
        gallery_id_of("https://www.reddit.com/gallery/xyz"),
        Ok("xyz".to_string())
    );
}

#[test]
fn url_without_gallery_prefix_is_malformed() {
    assert_eq!(
        gallery_id_of("https://example.com/gallery/xyz"),
        Err(CoreError::MalformedGalleryUrlError)
    );
    assert_eq!(
        gallery_id_of("https://www.reddit.com/gallery"),
        Err(CoreError::MalformedGalleryUrlError)
    );
}

#[test]
fn comments_url_is_built_from_the_gallery_id() {
    assert_eq!(
        gallery_comments_url("xyz"),
        "https://www.reddit.com/comments/xyz.json"
    );
}

#[test]
fn gallery_endpoint_is_derived_from_the_url() {
    assert_eq!(
        gallery_endpoint_of("https://www.reddit.com/gallery/xyz"),
        Ok("https://www.reddit.com/comments/xyz.json".to_string())
    );
    assert_eq!(
        gallery_endpoint_of("https://example.com/gallery/xyz"),
        Err(CoreError::MalformedGalleryUrlError)
    );
}

#[test]
fn resolution_preserves_traversal_order() {
    let l1 = listing(vec![child_without_items(), child_with_items(&["i1", "i2"])]);
    let l2 = listing(vec![child_with_items(&["i3"])]);
    let links = resolve_gallery_document(&vec![l1, l2]);
    assert_eq!(
        links,
        vec![
            "https://i.redd.it/i1.jpg".to_string(),
            "https://i.redd.it/i2.jpg".to_string(),
            "https://i.redd.it/i3.jpg".to_string(),
        ]
    );
}

#[test]
fn duplicates_are_kept() {
    let l = listing(vec![child_with_items(&["same", "same"])]);
    let links = resolve_gallery_document(&vec![l]);
    assert_eq!(
        links,
        vec![
            "https://i.redd.it/same.jpg".to_string(),
            "https://i.redd.it/same.jpg".to_string(),
        ]
    );
}

#[test]
fn missing_fields_yield_empty_sequence_not_error() {
    let doc = vec![listing(vec![child_without_items(), child_without_items()])];
    assert_eq!(resolve_gallery_document(&doc), Vec::<String>::new());
}

#[test]
fn empty_items_yield_empty_sequence_not_error() {
    let doc = vec![listing(vec![child_with_items(&[])])];
    assert_eq!(resolve_gallery_document(&doc), Vec::<String>::new());
}

#[test]
fn empty_document_yields_empty_sequence() {
    assert_eq!(resolve_gallery_document(&vec![]), Vec::<String>::new());
    assert_eq!(
        resolve_gallery_document(&vec![listing(vec![])]),
        Vec::<String>::new()
    );
}

#[test]
fn single_listing_resolution_matches_document_resolution() {
    let l = listing(vec![child_with_items(&["a"]), child_with_items(&["b"])]);
    let from_listing = l.get_largest_image_links();
    let from_document = resolve_gallery_document(&vec![l]);
    assert_eq!(from_listing, from_document);
    assert_eq!(
        from_listing,
        vec![
            "https://i.redd.it/a.jpg".to_string(),
            "https://i.redd.it/b.jpg".to_string(),
        ]
    );
}

#[test]
fn error_messages_name_the_failure() {
    assert_eq!(
        CoreError::MalformedGalleryUrlError.message(),
        "failed to strip gallery id from link"
    );
    assert_eq!(
        CoreError::FeedFetchError.message(),
        "error fetching the feed listing"
    );
    assert_eq!(
        CoreError::GalleryFetchError.message(),
        "error fetching the gallery document"
    );
}
