use reddit_browser::classify::{
    classify, is_reddit_gallery_link, is_simple_imgur_image, is_simple_reddit_image,
    is_supported_plain_image_link, ClassifiedLink,
};

#[test]
fn reddit_cdn_url_is_plain_image() {
    assert!(is_simple_reddit_image("https://i.redd.it/abc123.png"));
    assert!(is_supported_plain_image_link("https://i.redd.it/abc123.png"));
}

#[test]
fn imgur_url_is_plain_image() {
    assert!(is_simple_imgur_image("https://i.imgur.com/abc123.jpg"));
    assert!(is_supported_plain_image_link("https://i.imgur.com/abc123.jpg"));
}

#[test]
fn unlisted_host_is_not_plain_image() {
    assert!(!is_supported_plain_image_link("https://example.com/abc123.png"));
    assert!(!is_supported_plain_image_link("http://i.redd.it/abc123.png"));
    assert!(!is_supported_plain_image_link(""));
}

#[test]
fn gallery_url_with_id_is_gallery_link() {
    assert!(is_reddit_gallery_link("https://www.reddit.com/gallery/xyz"));
}

#[test]
fn gallery_url_without_id_is_not_gallery_link() {
    assert!(!is_reddit_gallery_link("https://www.reddit.com/gallery/"));
    assert!(!is_reddit_gallery_link("https://www.reddit.com/gallery"));
    assert!(!is_reddit_gallery_link(""));
}

#[test]
fn classify_direct_image_keeps_url_unchanged() {
    match classify("https://i.redd.it/abc123.png") {
        ClassifiedLink::DirectImage(url) => assert_eq!(url, "https://i.redd.it/abc123.png"),
        other => panic!("expected a direct image, got {:?}", other),
    }
    match classify("https://i.imgur.com/abc123.jpg") {
        ClassifiedLink::DirectImage(url) => assert_eq!(url, "https://i.imgur.com/abc123.jpg"),
        other => panic!("expected a direct image, got {:?}", other),
    }
}

#[test]
fn classify_gallery_reference_keeps_url_unchanged() {
    match classify("https://www.reddit.com/gallery/xyz") {
        ClassifiedLink::GalleryReference(url) => {
            assert_eq!(url, "https://www.reddit.com/gallery/xyz")
        }
        other => panic!("expected a gallery reference, got {:?}", other),
    }
}

#[test]
fn classify_everything_else_as_unsupported() {
    assert!(matches!(
        classify("https://example.com/a.png"),
        ClassifiedLink::Unsupported(_)
    ));
    assert!(matches!(
        classify("https://www.reddit.com/gallery/"),
        ClassifiedLink::Unsupported(_)
    ));
    assert!(matches!(classify(""), ClassifiedLink::Unsupported(_)));
    assert!(matches!(
        classify("not a url at all"),
        ClassifiedLink::Unsupported(_)
    ));
}

#[test]
fn classify_twice_yields_identical_results() {
    let urls = [
        "https://i.redd.it/abc123.png",
        "https://i.imgur.com/abc123.jpg",
        "https://www.reddit.com/gallery/xyz",
        "https://example.com/a.png",
        "",
    ];
    for url in urls {
        assert_eq!(classify(url), classify(url));
    }
}
