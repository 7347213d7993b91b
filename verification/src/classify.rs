//! The URL classifier: a total, pure function sorting every post URL into
//! direct image, gallery reference, or unsupported.

use vstd::prelude::*;
use vstd::string::*;
use vstd::std_specs::cmp::PartialEqSpec;
use crate::text::str_starts_with;

verus! {

broadcast use vstd::string::group_string_axioms;

/// The feed platform's own image CDN.
pub open spec fn reddit_image_prefix() -> Seq<char> {
    "https://i.redd.it/"@
}

/// The third-party image host on the allow-list.
pub open spec fn imgur_image_prefix() -> Seq<char> {
    "https://i.imgur.com/"@
}

/// The platform's gallery path, up to and including the separator before the
/// gallery identifier.
pub open spec fn gallery_prefix() -> Seq<char> {
    "https://www.reddit.com/gallery/"@
}

pub open spec fn is_simple_reddit_image_link(url: Seq<char>) -> bool {
    reddit_image_prefix().is_prefix_of(url)
}

pub open spec fn is_simple_imgur_image_link(url: Seq<char>) -> bool {
    imgur_image_prefix().is_prefix_of(url)
}

/// A URL on the fixed allow-list of direct-image hosts.
pub open spec fn is_direct_image_link(url: Seq<char>) -> bool {
    is_simple_reddit_image_link(url) || is_simple_imgur_image_link(url)
}

/// A URL of the form `<gallery prefix><id>` with a non-empty `<id>`.
pub open spec fn is_gallery_reference_link(url: Seq<char>) -> bool {
    gallery_prefix().is_prefix_of(url) && url.len() > gallery_prefix().len()
}

pub fn is_simple_reddit_image(url: &str) -> (r: bool)
    ensures
        r == is_simple_reddit_image_link(url@),
{
    str_starts_with(url, "https://i.redd.it/")
}

pub fn is_simple_imgur_image(url: &str) -> (r: bool)
    ensures
        r == is_simple_imgur_image_link(url@),
{
    str_starts_with(url, "https://i.imgur.com/")
}

/// Whether `url` already points at a renderable image on a known host.
pub fn is_supported_plain_image_link(url: &str) -> (r: bool)
    ensures
        r == is_direct_image_link(url@),
{
    is_simple_reddit_image(url) || is_simple_imgur_image(url)
}

/// Whether `url` references a gallery: the gallery prefix followed by a
/// non-empty identifier segment.
pub fn is_reddit_gallery_link(url: &str) -> (r: bool)
    ensures
        r == is_gallery_reference_link(url@),
{
    str_starts_with(url, "https://www.reddit.com/gallery/")
        && url.unicode_len() > "https://www.reddit.com/gallery/".unicode_len()
}

/// The three ways a post URL can be used by the browser.
#[derive(Clone, Copy, Debug, PartialEq, Eq, Structural)]
pub enum LinkKind {
    DirectImage,
    GalleryReference,
    Unsupported,
}

/// The kind every URL falls into. Total: every sequence of characters gets
/// exactly one kind.
pub open spec fn link_kind_of(url: Seq<char>) -> LinkKind {
    if is_direct_image_link(url) {
        LinkKind::DirectImage
    } else if is_gallery_reference_link(url) {
        LinkKind::GalleryReference
    } else {
        LinkKind::Unsupported
    }
}

/// A post URL together with the classification it received.
#[derive(Debug, Clone)]
pub enum ClassifiedLink {
    /// The URL already points at an image; it passes through unchanged.
    DirectImage(String),
    /// The URL references a gallery and needs a secondary lookup.
    GalleryReference(String),
    /// Anything else; dropped by the feed walk.
    Unsupported(String),
}

impl ClassifiedLink {
    pub open spec fn kind(self) -> LinkKind {
        match self {
            ClassifiedLink::DirectImage(_) => LinkKind::DirectImage,
            ClassifiedLink::GalleryReference(_) => LinkKind::GalleryReference,
            ClassifiedLink::Unsupported(_) => LinkKind::Unsupported,
        }
    }

    /// The URL carried by the classification, unchanged.
    pub open spec fn link(self) -> Seq<char> {
        match self {
            ClassifiedLink::DirectImage(u) => u@,
            ClassifiedLink::GalleryReference(u) => u@,
            ClassifiedLink::Unsupported(u) => u@,
        }
    }
}

impl PartialEq for ClassifiedLink {
    fn eq(&self, other: &Self) -> bool {
        match (self, other) {
            (ClassifiedLink::DirectImage(a), ClassifiedLink::DirectImage(b)) => a.eq(b),
            (ClassifiedLink::GalleryReference(a), ClassifiedLink::GalleryReference(b)) => a.eq(b),
            (ClassifiedLink::Unsupported(a), ClassifiedLink::Unsupported(b)) => a.eq(b),
            _ => false,
        }
    }
}

impl vstd::std_specs::cmp::PartialEqSpecImpl for ClassifiedLink {
    open spec fn obeys_eq_spec() -> bool {
        true
    }

    open spec fn eq_spec(&self, other: &Self) -> bool {
        self.kind() == other.kind() && self.link() == other.link()
    }
}

/// Classifies one URL. Total over all strings, no failure mode; the result
/// carries the URL unchanged and its kind is a function of the URL alone.
pub fn classify(url: &str) -> (r: ClassifiedLink)
    ensures
        r.kind() == link_kind_of(url@),
        r.link() == url@,
{
    if is_supported_plain_image_link(url) {
        ClassifiedLink::DirectImage(url.to_owned())
    } else if is_reddit_gallery_link(url) {
        ClassifiedLink::GalleryReference(url.to_owned())
    } else {
        ClassifiedLink::Unsupported(url.to_owned())
    }
}

/// The direct-image allow-list and the gallery pattern never overlap: the two
/// host prefixes differ from the gallery prefix at their ninth character.
pub proof fn lemma_direct_and_gallery_disjoint(url: Seq<char>)
    ensures
        !(is_direct_image_link(url) && is_gallery_reference_link(url)),
{
    reveal_strlit("https://i.redd.it/");
    reveal_strlit("https://i.imgur.com/");
    reveal_strlit("https://www.reddit.com/gallery/");
    if is_direct_image_link(url) && is_gallery_reference_link(url) {
        assert(gallery_prefix()[8] == 'w');
        assert(gallery_prefix() == url.subrange(0, gallery_prefix().len() as int));
        assert(url[8] == 'w');
        if is_simple_reddit_image_link(url) {
            assert(reddit_image_prefix()[8] == 'i');
            assert(reddit_image_prefix() == url.subrange(0, reddit_image_prefix().len() as int));
            assert(url[8] == 'i');
        } else {
            assert(imgur_image_prefix()[8] == 'i');
            assert(imgur_image_prefix() == url.subrange(0, imgur_image_prefix().len() as int));
            assert(url[8] == 'i');
        }
    }
}

/// The classifier is total and the kinds partition all URLs: each URL matches
/// the predicate of exactly the kind it is given, so the classification does
/// not depend on the order of the checks.
pub proof fn lemma_classifier_total(url: Seq<char>)
    ensures
        (link_kind_of(url) == LinkKind::DirectImage) <==> is_direct_image_link(url),
        (link_kind_of(url) == LinkKind::GalleryReference) <==> is_gallery_reference_link(url),
        (link_kind_of(url) == LinkKind::Unsupported) <==> (!is_direct_image_link(url)
            && !is_gallery_reference_link(url)),
{
    lemma_direct_and_gallery_disjoint(url);
}

/// Classification has no hidden state: any two results that meet `classify`'s
/// contract for the same URL are equal.
pub proof fn lemma_classify_deterministic(url: Seq<char>, a: ClassifiedLink, b: ClassifiedLink)
    requires
        a.kind() == link_kind_of(url),
        a.link() == url,
        b.kind() == link_kind_of(url),
        b.link() == url,
    ensures
        a.eq_spec(&b),
{
}

} // verus!
