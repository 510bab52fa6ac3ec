//! One whole recommendation pass over a validated request: the outfit
//! suggestion together with the ordered link list for its keyword phrase.

use vstd::prelude::*;
use crate::links::{build_links, catalog_labels, catalog_urls, ShopLink};
use crate::model::{OutfitSuggestion, RecommendationRequest};
use crate::outfit::{build_outfit_and_keywords, idea_text_of, keyword_phrase_of};

verus! {

/// Compute everything one invocation reports: the idea text, the keyword
/// phrase, and the links whose URLs embed that phrase, in catalog order.
pub fn recommend(req: &RecommendationRequest) -> (r: (OutfitSuggestion, Vec<ShopLink>))
    ensures
        r.0.idea_text@ == idea_text_of(req.event),
        r.0.keyword_phrase@ == keyword_phrase_of(*req),
        r.1@.len() == catalog_labels().len(),
        forall|i: int|
            0 <= i < r.1@.len() ==> (#[trigger] r.1@[i]).label@ == catalog_labels()[i]
                && r.1@[i].url@ == catalog_urls(keyword_phrase_of(*req))[i],
{
    let suggestion = build_outfit_and_keywords(req);
    let links = build_links(suggestion.keyword_phrase.as_str());
    (suggestion, links)
}

} // verus!
