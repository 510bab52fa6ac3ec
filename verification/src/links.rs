//! The link builder: a fixed, ordered catalog of retailers, each paired
//! with a URL that embeds the percent-encoded keyword phrase — directly in
//! the retailer's own search parameter where one is stable, otherwise
//! wrapped in a search-engine `site:` query.

use vstd::prelude::*;
use vstd::string::StringExecFns;
use crate::encode::{encode_seq, url_encode};

verus! {

/// One shopping link: the retailer's display label and the search URL.
#[derive(Clone, Debug, PartialEq, Eq)]
pub struct ShopLink {
    pub label: String,
    pub url: String,
}

/// The `site:` query handed to the search engine for one retailer domain.
pub open spec fn site_query(domain: Seq<char>, kw: Seq<char>) -> Seq<char> {
    "site:"@ + domain + seq![' '] + kw
}

/// The search-engine URL wrapping a `site:` query for one retailer domain.
pub open spec fn google_url(domain: Seq<char>, kw: Seq<char>) -> Seq<char> {
    "https://www.google.com/search?q="@ + encode_seq(site_query(domain, kw))
}

/// The direct search URL of the first retailer.
pub open spec fn zara_url(kw: Seq<char>) -> Seq<char> {
    "https://www.zara.com/search?searchTerm="@ + encode_seq(kw)
}

/// The direct search URL of the second retailer.
pub open spec fn hm_url(kw: Seq<char>) -> Seq<char> {
    "https://www2.hm.com/de_de/search-results.html?q="@ + encode_seq(kw)
}

/// The catalog's display labels, in display order.
pub open spec fn catalog_labels() -> Seq<Seq<char>> {
    seq![
        "Zara"@,
        "H&M (DE)"@,
        "Zalando (DE)"@,
        "Jack & Jones (DE/EU)"@,
        "ABOUT YOU (DE)"@,
        "Peek & Cloppenburg (DE)"@,
        "Mango (DE)"@,
        "Massimo Dutti (DE)"@,
        "Bershka (DE)"@,
        "Pull&Bear (DE)"@,
        "Stradivarius (DE)"@,
    ]
}

/// The catalog's URLs for a given keyword phrase, in display order.
pub open spec fn catalog_urls(kw: Seq<char>) -> Seq<Seq<char>> {
    seq![
        zara_url(kw),
        hm_url(kw),
        google_url("zalando.de"@, kw),
        google_url("jackjones.com"@, kw),
        google_url("aboutyou.de"@, kw),
        google_url("peek-cloppenburg.de"@, kw),
        google_url("shop.mango.com/de"@, kw),
        google_url("massimodutti.com/de"@, kw),
        google_url("bershka.com/de"@, kw),
        google_url("pullandbear.com/de"@, kw),
        google_url("stradivarius.com/de"@, kw),
    ]
}

/// Build the search-engine URL that restricts the keyword search to one
/// retailer's domain.
pub fn google_site_search(domain: &str, keywords: &str) -> (r: String)
    ensures
        r@ == google_url(domain@, keywords@),
{
    let mut q = String::from_str("site:");
    q.append(domain);
    q.append(" ");
    q.append(keywords);
    proof {
        reveal_strlit(" ");
        assert(" "@ =~= seq![' ']);
        assert(q@ =~= site_query(domain@, keywords@));
    }
    let enc = url_encode(q.as_str());
    let mut r = String::from_str("https://www.google.com/search?q=");
    r.append(enc.as_str());
    proof {
        assert(r@ =~= google_url(domain@, keywords@));
    }
    r
}

/// Build the full, ordered link list for a keyword phrase: one entry per
/// catalog retailer, in catalog order.
pub fn build_links(keywords: &str) -> (r: Vec<ShopLink>)
    ensures
        r@.len() == catalog_labels().len(),
        forall|i: int|
            0 <= i < r@.len() ==> (#[trigger] r@[i]).label@ == catalog_labels()[i] && r@[i].url@
                == catalog_urls(keywords@)[i],
{
    let mut links: Vec<ShopLink> = Vec::new();
    let q = url_encode(keywords);
    let mut zara = String::from_str("https://www.zara.com/search?searchTerm=");
    zara.append(q.as_str());
    links.push(ShopLink { label: String::from_str("Zara"), url: zara });
    let mut hm = String::from_str("https://www2.hm.com/de_de/search-results.html?q=");
    hm.append(q.as_str());
    links.push(ShopLink { label: String::from_str("H&M (DE)"), url: hm });
    links.push(
        ShopLink {
            label: String::from_str("Zalando (DE)"),
            url: google_site_search("zalando.de", keywords),
        },
    );
    links.push(
        ShopLink {
            label: String::from_str("Jack & Jones (DE/EU)"),
            url: google_site_search("jackjones.com", keywords),
        },
    );
    links.push(
        ShopLink {
            label: String::from_str("ABOUT YOU (DE)"),
            url: google_site_search("aboutyou.de", keywords),
        },
    );
    links.push(
        ShopLink {
            label: String::from_str("Peek & Cloppenburg (DE)"),
            url: google_site_search("peek-cloppenburg.de", keywords),
        },
    );
    links.push(
        ShopLink {
            label: String::from_str("Mango (DE)"),
            url: google_site_search("shop.mango.com/de", keywords),
        },
    );
    links.push(
        ShopLink {
            label: String::from_str("Massimo Dutti (DE)"),
            url: google_site_search("massimodutti.com/de", keywords),
        },
    );
    links.push(
        ShopLink {
            label: String::from_str("Bershka (DE)"),
            url: google_site_search("bershka.com/de", keywords),
        },
    );
    links.push(
        ShopLink {
            label: String::from_str("Pull&Bear (DE)"),
            url: google_site_search("pullandbear.com/de", keywords),
        },
    );
    links.push(
        ShopLink {
            label: String::from_str("Stradivarius (DE)"),
            url: google_site_search("stradivarius.com/de", keywords),
        },
    );
    links
}

/// The fixed portion of each catalog URL, before the encoded query.
pub open spec fn url_prefix(i: int) -> Seq<char> {
    if i == 0 {
        "https://www.zara.com/search?searchTerm="@
    } else if i == 1 {
        "https://www2.hm.com/de_de/search-results.html?q="@
    } else {
        "https://www.google.com/search?q="@
    }
}

/// The link catalog keeps its order whatever the keyword phrase: the same
/// number of links carrying the same labels at the same positions, and each
/// URL varying only after its fixed per-retailer prefix.
pub proof fn lemma_catalog_order_fixed(kw1: Seq<char>, kw2: Seq<char>)
    ensures
        catalog_urls(kw1).len() == catalog_urls(kw2).len(),
        catalog_urls(kw1).len() == catalog_labels().len(),
        forall|i: int|
            0 <= i < catalog_labels().len() ==> #[trigger] url_prefix(i).is_prefix_of(
                catalog_urls(kw1)[i],
            ) && url_prefix(i).is_prefix_of(catalog_urls(kw2)[i]),
{
    lemma_urls_have_fixed_prefix(kw1);
    lemma_urls_have_fixed_prefix(kw2);
}

/// Each catalog URL begins with its retailer's fixed prefix; only what
/// follows it depends on the keyword phrase.
pub proof fn lemma_urls_have_fixed_prefix(kw: Seq<char>)
    ensures
        catalog_urls(kw).len() == catalog_labels().len(),
        forall|i: int|
            0 <= i < catalog_urls(kw).len() ==> #[trigger] url_prefix(i).is_prefix_of(
                catalog_urls(kw)[i],
            ),
{
    assert forall|i: int| 0 <= i < catalog_urls(kw).len() implies #[trigger] url_prefix(
        i,
    ).is_prefix_of(catalog_urls(kw)[i]) by {
        let p = url_prefix(i);
        let u = catalog_urls(kw)[i];
        assert(u.subrange(0, p.len() as int) =~= p);
    }
}

} // verus!
