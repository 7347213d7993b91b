//! The feed walk: classifying a fetched page's posts and flattening direct
//! images and resolved galleries into one image-URL sequence per page.
//!
//! Gallery documents are fetched outside the library; the flattening step
//! takes the resolved links as a value, one entry per gallery reference, and
//! splices each at the position of the originating post.

use vstd::prelude::*;
use vstd::string::*;
use crate::classify::{classify, link_kind_of, ClassifiedLink, LinkKind};
use crate::pager::Post;

verus! {

/// The model of classified links: each link's kind and URL characters.
pub open spec fn link_models(links: Seq<ClassifiedLink>) -> Seq<(LinkKind, Seq<char>)> {
    links.map_values(|c: ClassifiedLink| (c.kind(), c.link()))
}

/// The classifications of a page's posts, in post order; posts without a URL
/// are skipped.
pub open spec fn classified_views(posts: Seq<Post>) -> Seq<(LinkKind, Seq<char>)>
    decreases posts.len(),
{
    if posts.len() == 0 {
        Seq::empty()
    } else {
        let rest = classified_views(posts.drop_last());
        match posts.last().url {
            Some(u) => rest.push((link_kind_of(u@), u@)),
            None => rest,
        }
    }
}

/// Classifies every post of a page that carries a URL, in post order.
pub fn classify_page(posts: &Vec<Post>) -> (links: Vec<ClassifiedLink>)
    ensures
        link_models(links@) == classified_views(posts@),
{
    let mut links: Vec<ClassifiedLink> = Vec::new();
    let mut i: usize = 0;
    while i < posts.len()
        invariant
            i <= posts@.len(),
            link_models(links@) == classified_views(posts@.take(i as int)),
        decreases posts@.len() - i,
    {
        proof {
            assert(posts@.take(i + 1).drop_last() =~= posts@.take(i as int));
            assert(posts@.take(i + 1).last() == posts@[i as int]);
        }
        match &posts[i].url {
            Some(u) => {
                let c = classify(u.as_str());
                let ghost pre = links@;
                links.push(c);
                proof {
                    assert(link_models(links@) =~= link_models(pre).push((c.kind(), c.link())));
                }
            },
            None => {},
        }
        i += 1;
    }
    proof {
        assert(posts@.take(posts@.len() as int) =~= posts@);
    }
    links
}

/// The URLs of the gallery references among classified links, in page order.
pub open spec fn gallery_url_views(links: Seq<(LinkKind, Seq<char>)>) -> Seq<Seq<char>>
    decreases links.len(),
{
    if links.len() == 0 {
        Seq::empty()
    } else {
        let rest = gallery_url_views(links.drop_last());
        if links.last().0 == LinkKind::GalleryReference {
            rest.push(links.last().1)
        } else {
            rest
        }
    }
}

/// Collects the gallery-reference URLs of a classified page, in page order:
/// the URLs whose galleries must be resolved before the page can be
/// flattened.
pub fn gallery_links_of(links: &Vec<ClassifiedLink>) -> (urls: Vec<String>)
    ensures
        urls.deep_view() == gallery_url_views(link_models(links@)),
{
    let mut urls: Vec<String> = Vec::new();
    let mut i: usize = 0;
    while i < links.len()
        invariant
            i <= links@.len(),
            urls.deep_view() == gallery_url_views(link_models(links@.take(i as int))),
        decreases links@.len() - i,
    {
        let ghost m = link_models(links@.take(i as int));
        let ghost m1 = link_models(links@.take(i + 1));
        proof {
            assert(links@.take(i + 1).drop_last() =~= links@.take(i as int));
            assert(links@.take(i + 1).last() == links@[i as int]);
            assert(m1 =~= m.push((links@[i as int].kind(), links@[i as int].link())));
            assert(m1.drop_last() =~= m);
        }
        match &links[i] {
            ClassifiedLink::GalleryReference(u) => {
                let ghost dv_pre = urls.deep_view();
                urls.push(u.clone());
                proof {
                    assert(urls.deep_view() =~= dv_pre.push(u@));
                }
            },
            _ => {},
        }
        i += 1;
    }
    proof {
        assert(links@.take(links@.len() as int) =~= links@);
    }
    urls
}

/// The flattened image-URL sequence of a classified page: a direct image
/// passes through at its position, a gallery reference is replaced in place
/// by its resolved links, an unsupported link is dropped. `galleries` holds
/// the resolved links of the gallery references, in page order.
pub open spec fn flattened_views(
    links: Seq<(LinkKind, Seq<char>)>,
    galleries: Seq<Seq<Seq<char>>>,
) -> Seq<Seq<char>>
    decreases links.len(),
{
    if links.len() == 0 {
        Seq::empty()
    } else {
        let rest = links.drop_last();
        if links.last().0 == LinkKind::DirectImage {
            flattened_views(rest, galleries).push(links.last().1)
        } else if links.last().0 == LinkKind::GalleryReference {
            flattened_views(rest, galleries.drop_last()) + galleries.last()
        } else {
            flattened_views(rest, galleries)
        }
    }
}

/// A prefix of a classified page has at most as many gallery references as
/// the whole page.
proof fn lemma_gallery_count_monotone(links: Seq<(LinkKind, Seq<char>)>, i: int)
    requires
        0 <= i <= links.len(),
    ensures
        gallery_url_views(links.take(i)).len() <= gallery_url_views(links).len(),
    decreases links.len() - i,
{
    if i == links.len() {
        assert(links.take(links.len() as int) =~= links);
    } else {
        assert(links.take(i + 1).drop_last() =~= links.take(i));
        assert(links.take(i + 1).last() == links[i]);
        lemma_gallery_count_monotone(links, i + 1);
    }
}

/// Splices a page back together: direct images at their positions, each
/// gallery reference replaced in place by its resolved links, unsupported
/// links dropped. Returns nothing when `galleries` does not carry exactly
/// one entry per gallery reference.
pub fn flatten_page(links: &Vec<ClassifiedLink>, galleries: &Vec<Vec<String>>) -> (r: Option<
    Vec<String>,
>)
    ensures
        galleries.deep_view().len() == gallery_url_views(link_models(links@)).len() ==> (
        r matches Some(out) && out.deep_view() == flattened_views(
            link_models(links@),
            galleries.deep_view(),
        )),
        galleries.deep_view().len() != gallery_url_views(link_models(links@)).len() ==> r is None,
{
    let mut out: Vec<String> = Vec::new();
    let mut gi: usize = 0;
    let mut i: usize = 0;
    while i < links.len()
        invariant
            i <= links@.len(),
            gi <= galleries@.len(),
            gi == gallery_url_views(link_models(links@.take(i as int))).len(),
            out.deep_view() == flattened_views(
                link_models(links@.take(i as int)),
                galleries.deep_view().take(gi as int),
            ),
        decreases links@.len() - i,
    {
        let ghost m = link_models(links@.take(i as int));
        let ghost m1 = link_models(links@.take(i + 1));
        proof {
            assert(links@.take(i + 1).drop_last() =~= links@.take(i as int));
            assert(links@.take(i + 1).last() == links@[i as int]);
            assert(m1 =~= m.push((links@[i as int].kind(), links@[i as int].link())));
            assert(m1.drop_last() =~= m);
        }
        match &links[i] {
            ClassifiedLink::DirectImage(u) => {
                let ghost dv_pre = out.deep_view();
                out.push(u.clone());
                proof {
                    assert(out.deep_view() =~= dv_pre.push(u@));
                }
            },
            ClassifiedLink::GalleryReference(_) => {
                if gi >= galleries.len() {
                    proof {
                        lemma_gallery_count_monotone(link_models(links@), i + 1);
                        assert(link_models(links@).take(i + 1) =~= m1);
                    }
                    return None;
                }
                let ghost dv_pre = out.deep_view();
                let gallery = &galleries[gi];
                let mut j: usize = 0;
                while j < gallery.len()
                    invariant
                        j <= gallery@.len(),
                        out.deep_view() == dv_pre + gallery.deep_view().take(j as int),
                    decreases gallery@.len() - j,
                {
                    let ghost dv_mid = out.deep_view();
                    out.push(gallery[j].clone());
                    proof {
                        assert(out.deep_view() =~= dv_mid.push(gallery@[j as int]@));
                        assert(gallery.deep_view().take(j + 1) =~= gallery.deep_view().take(
                            j as int,
                        ).push(gallery@[j as int]@));
                    }
                    j += 1;
                }
                proof {
                    assert(gallery.deep_view().take(gallery@.len() as int) =~= gallery.deep_view());
                    assert(galleries.deep_view()[gi as int] == gallery.deep_view());
                    assert(galleries.deep_view().take(gi + 1).drop_last() =~= galleries.deep_view()
                        .take(gi as int));
                    assert(galleries.deep_view().take(gi + 1).last() == galleries.deep_view()[
                        gi as int]);
                    assert(out.deep_view() == flattened_views(
                        m1,
                        galleries.deep_view().take(gi + 1),
                    ));
                }
                gi += 1;
            },
            ClassifiedLink::Unsupported(_) => {},
        }
        i += 1;
    }
    proof {
        assert(links@.take(links@.len() as int) =~= links@);
    }
    if gi == galleries.len() {
        proof {
            assert(galleries.deep_view().take(galleries@.len() as int) =~= galleries.deep_view());
        }
        Some(out)
    } else {
        None
    }
}

} // verus!
