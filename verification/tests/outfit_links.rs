use digital_closet::links::{build_links, google_site_search};
use digital_closet::model::{ClothingSize, Event, Gender, RecommendationRequest, Season};
use digital_closet::outfit::build_outfit_and_keywords;
use digital_closet::recommend::recommend;

fn wedding_request() -> RecommendationRequest {
    RecommendationRequest::new(
        Event::Wedding,
        Season::Winter,
        Gender::Men,
        ClothingSize::M,
        42,
        false,
        0,
        150,
    )
    .unwrap()
}

#[test]
fn wedding_winter_example() {
    let s = build_outfit_and_keywords(&wedding_request());
    assert_eq!(
        s.keyword_phrase,
        "men wedding formal blazer trousers shirt winter coat knit size m shoes eu 42 budget 150"
    );
    assert_eq!(
        s.idea_text,
        "Formal look: tailored outfit + smart shoes + subtle accessories"
    );
}

#[test]
fn build_outfit_is_deterministic() {
    let req = wedding_request();
    let a = build_outfit_and_keywords(&req);
    let b = build_outfit_and_keywords(&req);
    assert_eq!(a.idea_text, b.idea_text);
    assert_eq!(a.keyword_phrase, b.keyword_phrase);
}

#[test]
fn keyword_phrase_is_single_spaced() {
    for accessories in [false, true] {
        let req = RecommendationRequest::new(
            Event::Party,
            Season::Autumn,
            Gender::Women,
            ClothingSize::L,
            44,
            accessories,
            10,
            99,
        )
        .unwrap();
        let s = build_outfit_and_keywords(&req);
        let kw = s.keyword_phrase;
        assert!(!kw.contains("  "), "doubled space in {kw:?}");
        assert!(!kw.starts_with(' '));
        assert!(!kw.ends_with(' '));
    }
}

#[test]
fn keyword_phrase_ends_with_budget() {
    let s = build_outfit_and_keywords(&wedding_request());
    assert!(s.keyword_phrase.ends_with("budget 150"));
    let zero = RecommendationRequest::new(
        Event::Casual,
        Season::Summer,
        Gender::Unisex,
        ClothingSize::S,
        40,
        true,
        0,
        0,
    )
    .unwrap();
    let s0 = build_outfit_and_keywords(&zero);
    assert!(s0.keyword_phrase.ends_with("budget 0"));
}

#[test]
fn accessories_extend_the_phrase() {
    let without = build_outfit_and_keywords(&wedding_request());
    let mut req = wedding_request();
    req.accessories = true;
    let with = build_outfit_and_keywords(&req);
    assert!(with.keyword_phrase.contains("accessories belt watch bag"));
    assert!(!without.keyword_phrase.contains("accessories"));
    assert_eq!(
        with.keyword_phrase,
        "men wedding formal blazer trousers shirt winter coat knit size m shoes eu 42 \
         accessories belt watch bag budget 150"
    );
}

#[test]
fn each_event_has_its_idea_text() {
    let mut req = wedding_request();
    req.event = Event::Party;
    assert_eq!(
        build_outfit_and_keywords(&req).idea_text,
        "Party look: statement top + clean shoes + simple layering"
    );
    req.event = Event::Casual;
    assert_eq!(
        build_outfit_and_keywords(&req).idea_text,
        "Casual look: comfy basics + light layer + sneakers"
    );
}

#[test]
fn google_site_search_builds_wrapped_query() {
    assert_eq!(
        google_site_search("zalando.de", "men casual"),
        "https://www.google.com/search?q=site%3Azalando.de+men+casual"
    );
}

#[test]
fn links_carry_labels_in_catalog_order() {
    let links = build_links("men casual");
    let labels: Vec<&str> = links.iter().map(|l| l.label.as_str()).collect();
    assert_eq!(
        labels,
        [
            "Zara",
            "H&M (DE)",
            "Zalando (DE)",
            "Jack & Jones (DE/EU)",
            "ABOUT YOU (DE)",
            "Peek & Cloppenburg (DE)",
            "Mango (DE)",
            "Massimo Dutti (DE)",
            "Bershka (DE)",
            "Pull&Bear (DE)",
            "Stradivarius (DE)",
        ]
    );
}

#[test]
fn direct_links_substitute_the_encoded_phrase() {
    let links = build_links("men casual");
    assert_eq!(
        links[0].url,
        "https://www.zara.com/search?searchTerm=men+casual"
    );
    assert_eq!(
        links[1].url,
        "https://www2.hm.com/de_de/search-results.html?q=men+casual"
    );
    assert_eq!(
        links[2].url,
        "https://www.google.com/search?q=site%3Azalando.de+men+casual"
    );
}

#[test]
fn catalog_order_is_kept_across_phrases() {
    let a = build_links("first phrase 1");
    let b = build_links("another phrase 2");
    assert_eq!(a.len(), b.len());
    let prefixes = [
        "https://www.zara.com/search?searchTerm=",
        "https://www2.hm.com/de_de/search-results.html?q=",
        "https://www.google.com/search?q=",
    ];
    for i in 0..a.len() {
        assert_eq!(a[i].label, b[i].label);
        let p = if i < 2 { prefixes[i] } else { prefixes[2] };
        assert!(a[i].url.starts_with(p));
        assert!(b[i].url.starts_with(p));
    }
}

#[test]
fn recommend_combines_suggestion_and_links() {
    let (suggestion, links) = recommend(&wedding_request());
    assert_eq!(
        suggestion.keyword_phrase,
        "men wedding formal blazer trousers shirt winter coat knit size m shoes eu 42 budget 150"
    );
    assert_eq!(links.len(), 11);
    assert!(links[0].url.ends_with(
        "men+wedding+formal+blazer+trousers+shirt+winter+coat+knit+size+m+shoes+eu+42+budget+150"
    ));
}

#[test]
fn decimal_rendering_is_exact() {
    assert_eq!(digital_closet::text::u32_dec(0), "0");
    assert_eq!(digital_closet::text::u32_dec(7), "7");
    assert_eq!(digital_closet::text::u32_dec(42), "42");
    assert_eq!(digital_closet::text::u32_dec(150), "150");
    assert_eq!(digital_closet::text::u32_dec(4294967295), "4294967295");
}

#[test]
fn str_eq_compares_exactly() {
    assert!(digital_closet::text::str_eq("abc", "abc"));
    assert!(!digital_closet::text::str_eq("abc", "abd"));
    assert!(!digital_closet::text::str_eq("abc", "ab"));
    assert!(digital_closet::text::str_eq("", ""));
}
