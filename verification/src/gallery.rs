//! The gallery resolver: unwrapping a nested gallery-detail document into an
//! ordered list of direct-image URLs.
//!
//! The document arrives as plain data records mirroring the upstream JSON
//! shape: listings, each with children, some of which carry a gallery-items
//! list. Absent fields are a normal traversal skip, never an error.

use vstd::prelude::*;
use vstd::string::*;
use crate::classify::{gallery_prefix, is_gallery_reference_link, reddit_image_prefix};
use crate::errors::CoreError;
use crate::text::str_starts_with;

verus! {

broadcast use vstd::string::group_string_axioms;

/// One gallery item: an opaque media identifier.
#[derive(Debug, Clone)]
pub struct GalleryImageData {
    pub media_id: String,
}

/// The gallery-items list carried by some children.
#[derive(Debug, Clone)]
pub struct GalleryDataItem {
    pub items: Vec<GalleryImageData>,
}

/// The payload of one child entry; children without gallery items contribute
/// nothing to the resolution.
#[derive(Debug, Clone)]
pub struct GalleryChildrenData {
    pub gallery_data: Option<GalleryDataItem>,
}

/// One child entry of a listing.
#[derive(Debug, Clone)]
pub struct GalleryDataChildren {
    pub data: GalleryChildrenData,
}

/// The children of one listing.
#[derive(Debug, Clone)]
pub struct GalleryData {
    pub children: Vec<GalleryDataChildren>,
}

/// One listing of the gallery-detail document.
#[derive(Debug, Clone)]
pub struct GalleryApiData {
    pub data: GalleryData,
}

/// The suffix the image host expects on a media identifier.
pub open spec fn image_suffix() -> Seq<char> {
    ".jpg"@
}

/// The canonical direct-image URL for a media identifier.
pub open spec fn image_url_view(media_id: Seq<char>) -> Seq<char> {
    reddit_image_prefix() + media_id + image_suffix()
}

/// The links contributed by one gallery-items list, in item order.
pub open spec fn item_links(items: Seq<GalleryImageData>) -> Seq<Seq<char>> {
    items.map_values(|it: GalleryImageData| image_url_view(it.media_id@))
}

/// The links contributed by one child: its items if it carries any, nothing
/// otherwise.
pub open spec fn child_links(child: GalleryDataChildren) -> Seq<Seq<char>> {
    match child.data.gallery_data {
        Some(gd) => item_links(gd.items@),
        None => Seq::empty(),
    }
}

/// The links contributed by a run of children, concatenated in child order.
pub open spec fn children_links(children: Seq<GalleryDataChildren>) -> Seq<Seq<char>>
    decreases children.len(),
{
    if children.len() == 0 {
        Seq::empty()
    } else {
        children_links(children.drop_last()) + child_links(children.last())
    }
}

/// The links contributed by one listing.
pub open spec fn listing_links(listing: GalleryApiData) -> Seq<Seq<char>> {
    children_links(listing.data.children@)
}

/// The links of a whole document: the concatenation over its listings, in
/// listing order. Duplicates are kept.
pub open spec fn document_links(listings: Seq<GalleryApiData>) -> Seq<Seq<char>>
    decreases listings.len(),
{
    if listings.len() == 0 {
        Seq::empty()
    } else {
        document_links(listings.drop_last()) + listing_links(listings.last())
    }
}

/// Formats a media identifier into the canonical direct-image URL.
pub fn image_url_of(media_id: &str) -> (r: String)
    ensures
        r@ == image_url_view(media_id@),
{
    let mut url = "https://i.redd.it/".to_owned();
    url.append(media_id);
    url.append(".jpg");
    url
}

impl GalleryApiData {
    /// Resolves one listing: every item of every child that carries a
    /// gallery-items list, formatted into direct-image URLs, in traversal
    /// order. Children without gallery items are skipped.
    pub fn get_largest_image_links(&self) -> (links: Vec<String>)
        ensures
            links.deep_view() == listing_links(*self),
    {
        let children = &self.data.children;
        let mut links: Vec<String> = Vec::new();
        let mut ci: usize = 0;
        while ci < children.len()
            invariant
                ci <= children@.len(),
                links.deep_view() == children_links(children@.take(ci as int)),
            decreases children@.len() - ci,
        {
            match &children[ci].data.gallery_data {
                Some(gallery_data) => {
                    let items = &gallery_data.items;
                    let ghost links_before = links.deep_view();
                    let mut ii: usize = 0;
                    while ii < items.len()
                        invariant
                            ii <= items@.len(),
                            links.deep_view() == links_before + item_links(
                                items@.take(ii as int),
                            ),
                        decreases items@.len() - ii,
                    {
                        let url = image_url_of(items[ii].media_id.as_str());
                        let ghost dv_pre = links.deep_view();
                        let ghost url_view = url@;
                        links.push(url);
                        proof {
                            assert(links.deep_view() =~= dv_pre.push(url_view));
                            assert(item_links(items@.take(ii + 1)) =~= item_links(
                                items@.take(ii as int),
                            ).push(image_url_view(items@[ii as int].media_id@)));
                            assert(dv_pre.push(url_view) =~= links_before + item_links(
                                items@.take(ii + 1),
                            ));
                        }
                        ii += 1;
                    }
                    proof {
                        assert(items@.take(items@.len() as int) =~= items@);
                        assert(children@.take(ci + 1).drop_last() =~= children@.take(ci as int));
                        assert(children@.take(ci + 1).last() == children@[ci as int]);
                        assert(child_links(children@[ci as int]) == item_links(items@));
                        assert(links.deep_view() == children_links(children@.take(ci + 1)));
                    }
                },
                None => {
                    proof {
                        assert(children@.take(ci + 1).drop_last() =~= children@.take(ci as int));
                        assert(children@.take(ci + 1).last() == children@[ci as int]);
                        assert(links.deep_view() =~= children_links(children@.take(ci + 1)));
                    }
                },
            }
            ci += 1;
        }
        proof {
            assert(children@.take(children@.len() as int) =~= children@);
        }
        links
    }
}

/// Resolves a whole gallery-detail document: the concatenation, in listing
/// order, of each listing's resolved links. A document with no qualifying
/// items yields an empty vector, not an error.
pub fn resolve_gallery_document(listings: &Vec<GalleryApiData>) -> (links: Vec<String>)
    ensures
        links.deep_view() == document_links(listings@),
{
    let mut links: Vec<String> = Vec::new();
    let mut i: usize = 0;
    while i < listings.len()
        invariant
            i <= listings@.len(),
            links.deep_view() == document_links(listings@.take(i as int)),
        decreases listings@.len() - i,
    {
        let ghost links_before = links.deep_view();
        let mut more = listings[i].get_largest_image_links();
        let ghost more_view = more.deep_view();
        links.append(&mut more);
        proof {
            assert(listings@.take(i + 1).drop_last() =~= listings@.take(i as int));
            assert(listings@.take(i + 1).last() == listings@[i as int]);
            assert(links.deep_view() =~= links_before + more_view);
        }
        i += 1;
    }
    proof {
        assert(listings@.take(listings@.len() as int) =~= listings@);
    }
    links
}

/// Extracts the gallery identifier from a gallery URL by stripping the known
/// prefix; a URL without that prefix is malformed.
pub fn gallery_id_of(url: &str) -> (r: Result<String, CoreError>)
    ensures
        gallery_prefix().is_prefix_of(url@) ==> (r matches Ok(id) && id@ == url@.skip(
            gallery_prefix().len() as int,
        )),
        !gallery_prefix().is_prefix_of(url@) ==> r == Result::<String, CoreError>::Err(
            CoreError::MalformedGalleryUrlError,
        ),
{
    if str_starts_with(url, "https://www.reddit.com/gallery/") {
        let n = "https://www.reddit.com/gallery/".unicode_len();
        let m = url.unicode_len();
        let id = url.substring_char(n, m).to_owned();
        proof {
            assert(url@.subrange(n as int, m as int) =~= url@.skip(gallery_prefix().len() as int));
        }
        Ok(id)
    } else {
        Err(CoreError::MalformedGalleryUrlError)
    }
}

/// The suffix of the gallery-detail endpoint path.
pub open spec fn comments_suffix() -> Seq<char> {
    ".json"@
}

/// The prefix of the gallery-detail endpoint path.
pub open spec fn comments_prefix() -> Seq<char> {
    "https://www.reddit.com/comments/"@
}

/// The URL of the gallery-detail document for one gallery identifier.
pub open spec fn comments_url_view(gallery_id: Seq<char>) -> Seq<char> {
    comments_prefix() + gallery_id + comments_suffix()
}

/// Builds the gallery-detail endpoint URL for a gallery identifier.
pub fn gallery_comments_url(gallery_id: &str) -> (r: String)
    ensures
        r@ == comments_url_view(gallery_id@),
{
    let mut url = "https://www.reddit.com/comments/".to_owned();
    url.append(gallery_id);
    url.append(".json");
    url
}

/// The gallery-detail endpoint to fetch for a gallery URL: the identifier
/// stripped from the URL, formatted into the endpoint path. A URL without the
/// gallery prefix is malformed.
pub fn gallery_endpoint_of(url: &str) -> (r: Result<String, CoreError>)
    ensures
        gallery_prefix().is_prefix_of(url@) ==> (r matches Ok(endpoint) && endpoint@
            == comments_url_view(url@.skip(gallery_prefix().len() as int))),
        !gallery_prefix().is_prefix_of(url@) ==> r == Result::<String, CoreError>::Err(
            CoreError::MalformedGalleryUrlError,
        ),
{
    match gallery_id_of(url) {
        Ok(id) => Ok(gallery_comments_url(id.as_str())),
        Err(e) => Err(e),
    }
}

/// Resolution preserves traversal order: appending one listing to a document
/// appends exactly that listing's links, after everything the earlier
/// listings contributed.
pub proof fn lemma_document_links_append(
    listings: Seq<GalleryApiData>,
    listing: GalleryApiData,
)
    ensures
        document_links(listings.push(listing)) == document_links(listings) + listing_links(
            listing,
        ),
{
    assert(listings.push(listing).drop_last() =~= listings);
}

/// The same, one level down: appending one child to a listing's children
/// appends exactly that child's links.
pub proof fn lemma_children_links_append(
    children: Seq<GalleryDataChildren>,
    child: GalleryDataChildren,
)
    ensures
        children_links(children.push(child)) == children_links(children) + child_links(child),
{
    assert(children.push(child).drop_last() =~= children);
}

/// A gallery URL built from a non-empty identifier classifies as a gallery
/// reference, and stripping the prefix recovers exactly that identifier.
pub proof fn lemma_gallery_id_round_trip(id: Seq<char>)
    requires
        id.len() > 0,
    ensures
        is_gallery_reference_link(gallery_prefix() + id),
        (gallery_prefix() + id).skip(gallery_prefix().len() as int) == id,
{
    assert((gallery_prefix() + id).subrange(0, gallery_prefix().len() as int) =~= gallery_prefix());
    assert((gallery_prefix() + id).skip(gallery_prefix().len() as int) =~= id);
}

/// A document in which no child carries a non-empty gallery-items list — the
/// field is absent or its list empty — resolves to the empty sequence.
pub proof fn lemma_barren_document_resolves_empty(listings: Seq<GalleryApiData>)
    requires
        forall|i: int, j: int|
            0 <= i < listings.len() && 0 <= j < listings[i].data.children@.len() ==> match (
            #[trigger] listings[i].data.children@[j]).data.gallery_data {
                Some(gd) => gd.items@.len() == 0,
                None => true,
            },
    ensures
        document_links(listings) == Seq::<Seq<char>>::empty(),
    decreases listings.len(),
{
    if listings.len() > 0 {
        lemma_barren_document_resolves_empty(listings.drop_last());
        lemma_barren_children_resolve_empty(listings.last().data.children@);
        assert(document_links(listings) =~= Seq::<Seq<char>>::empty());
    }
}

/// Children without gallery items, or with empty item lists, contribute no
/// links.
pub proof fn lemma_barren_children_resolve_empty(children: Seq<GalleryDataChildren>)
    requires
        forall|j: int|
            0 <= j < children.len() ==> match (#[trigger] children[j]).data.gallery_data {
                Some(gd) => gd.items@.len() == 0,
                None => true,
            },
    ensures
        children_links(children) == Seq::<Seq<char>>::empty(),
    decreases children.len(),
{
    if children.len() > 0 {
        lemma_barren_children_resolve_empty(children.drop_last());
        match children.last().data.gallery_data {
            Some(gd) => {
                assert(item_links(gd.items@) =~= Seq::<Seq<char>>::empty());
            },
            None => {},
        }
        assert(children_links(children) =~= Seq::<Seq<char>>::empty());
    }
}

} // verus!
