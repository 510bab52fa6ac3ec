//! The keyword and idea builder: maps a validated request to a fixed outfit
//! idea per event and to the normalized keyword phrase — the selection
//! tokens joined by single spaces, ending in `budget` and the maximum
//! budget.

use vstd::prelude::*;
use vstd::string::StringExecFns;
use crate::model::{ClothingSize, Event, Gender, OutfitSuggestion, RecommendationRequest, Season};
use crate::text::{dec_rep, lemma_dec_rep_spaced, lemma_sp_join_spaced, single_spaced, sp_join, u32_dec};

verus! {

/// The gender keyword token.
pub open spec fn gender_token(g: Gender) -> Seq<char> {
    match g {
        Gender::Men => "men"@,
        Gender::Women => "women"@,
        Gender::Unisex => "unisex"@,
    }
}

/// The base keyword phrase for each event.
pub open spec fn event_keywords(e: Event) -> Seq<char> {
    match e {
        Event::Wedding => "wedding formal blazer trousers shirt"@,
        Event::Party => "party outfit going out"@,
        Event::Casual => "casual outfit basics"@,
    }
}

/// The human-readable outfit idea for each event; this is the only place
/// the idea text originates.
pub open spec fn idea_text_of(e: Event) -> Seq<char> {
    match e {
        Event::Wedding => "Formal look: tailored outfit + smart shoes + subtle accessories"@,
        Event::Party => "Party look: statement top + clean shoes + simple layering"@,
        Event::Casual => "Casual look: comfy basics + light layer + sneakers"@,
    }
}

/// The season keyword phrase.
pub open spec fn season_token(s: Season) -> Seq<char> {
    match s {
        Season::Winter => "winter coat knit"@,
        Season::Spring => "spring jacket"@,
        Season::Summer => "summer linen"@,
        Season::Autumn => "autumn layering"@,
    }
}

/// The clothing-size keyword token.
pub open spec fn size_token(z: ClothingSize) -> Seq<char> {
    match z {
        ClothingSize::S => "size s"@,
        ClothingSize::M => "size m"@,
        ClothingSize::L => "size l"@,
    }
}

/// The accessory keyword phrase contributed when accessories are requested.
pub open spec fn accessory_keywords() -> Seq<char> {
    "accessories belt watch bag"@
}

/// The shoe-size token: `shoes eu` followed by the size in decimal.
pub open spec fn shoe_token(n: u8) -> Seq<char> {
    sp_join("shoes eu"@, dec_rep(n as nat))
}

/// The closing token: `budget` followed by the maximum budget in decimal.
pub open spec fn budget_token(m: u32) -> Seq<char> {
    sp_join("budget"@, dec_rep(m as nat))
}

/// The whole keyword phrase: gender, event keywords, season, clothing size,
/// shoe token, the accessory phrase if requested, and the budget token, all
/// joined by single spaces.
pub open spec fn keyword_phrase_of(r: RecommendationRequest) -> Seq<char> {
    let base = sp_join(
        sp_join(
            sp_join(sp_join(gender_token(r.gender), event_keywords(r.event)), season_token(r.season)),
            size_token(r.size),
        ),
        shoe_token(r.shoe_size),
    );
    let with_acc = if r.accessories {
        sp_join(base, accessory_keywords())
    } else {
        base
    };
    sp_join(with_acc, budget_token(r.budget_max))
}

fn gender_str(g: Gender) -> (r: &'static str)
    ensures
        r@ == gender_token(g),
{
    match g {
        Gender::Men => "men",
        Gender::Women => "women",
        Gender::Unisex => "unisex",
    }
}

fn event_keywords_str(e: Event) -> (r: &'static str)
    ensures
        r@ == event_keywords(e),
{
    match e {
        Event::Wedding => "wedding formal blazer trousers shirt",
        Event::Party => "party outfit going out",
        Event::Casual => "casual outfit basics",
    }
}

fn idea_str(e: Event) -> (r: &'static str)
    ensures
        r@ == idea_text_of(e),
{
    match e {
        Event::Wedding => "Formal look: tailored outfit + smart shoes + subtle accessories",
        Event::Party => "Party look: statement top + clean shoes + simple layering",
        Event::Casual => "Casual look: comfy basics + light layer + sneakers",
    }
}

fn season_str(s: Season) -> (r: &'static str)
    ensures
        r@ == season_token(s),
{
    match s {
        Season::Winter => "winter coat knit",
        Season::Spring => "spring jacket",
        Season::Summer => "summer linen",
        Season::Autumn => "autumn layering",
    }
}

fn size_str(z: ClothingSize) -> (r: &'static str)
    ensures
        r@ == size_token(z),
{
    match z {
        ClothingSize::S => "size s",
        ClothingSize::M => "size m",
        ClothingSize::L => "size l",
    }
}

/// Build the outfit idea and the normalized keyword phrase for a request.
pub fn build_outfit_and_keywords(req: &RecommendationRequest) -> (s: OutfitSuggestion)
    ensures
        s.idea_text@ == idea_text_of(req.event),
        s.keyword_phrase@ == keyword_phrase_of(*req),
{
    let idea = String::from_str(idea_str(req.event));
    let mut kw = String::from_str(gender_str(req.gender));
    kw.append(" ");
    kw.append(event_keywords_str(req.event));
    kw.append(" ");
    kw.append(season_str(req.season));
    kw.append(" ");
    kw.append(size_str(req.size));
    kw.append(" ");
    kw.append("shoes eu");
    kw.append(" ");
    let shoe_dec = u32_dec(req.shoe_size as u32);
    kw.append(shoe_dec.as_str());
    if req.accessories {
        kw.append(" ");
        kw.append("accessories belt watch bag");
    }
    kw.append(" ");
    kw.append("budget");
    kw.append(" ");
    let budget_dec = u32_dec(req.budget_max);
    kw.append(budget_dec.as_str());
    proof {
        reveal_strlit(" ");
        assert(" "@ =~= seq![' ']);
        assert(kw@ =~= keyword_phrase_of(*req));
    }
    OutfitSuggestion { idea_text: idea, keyword_phrase: kw }
}

/// Building the outfit is deterministic: identical requests yield the same
/// idea text and the same keyword phrase.
pub proof fn lemma_build_outfit_deterministic(r1: RecommendationRequest, r2: RecommendationRequest)
    requires
        r1 == r2,
    ensures
        idea_text_of(r1.event) == idea_text_of(r2.event),
        keyword_phrase_of(r1) == keyword_phrase_of(r2),
{
}

/// The keyword phrase never holds two adjacent spaces and has no leading or
/// trailing space, whichever optional tokens were contributed.
pub proof fn lemma_keyword_phrase_single_spaced(r: RecommendationRequest)
    ensures
        single_spaced(keyword_phrase_of(r)),
{
    reveal_strlit("men");
    reveal_strlit("women");
    reveal_strlit("unisex");
    reveal_strlit("wedding formal blazer trousers shirt");
    reveal_strlit("party outfit going out");
    reveal_strlit("casual outfit basics");
    reveal_strlit("winter coat knit");
    reveal_strlit("spring jacket");
    reveal_strlit("summer linen");
    reveal_strlit("autumn layering");
    reveal_strlit("size s");
    reveal_strlit("size m");
    reveal_strlit("size l");
    reveal_strlit("shoes eu");
    reveal_strlit("accessories belt watch bag");
    reveal_strlit("budget");
    assert(single_spaced(gender_token(r.gender)));
    assert(single_spaced(event_keywords(r.event)));
    assert(single_spaced(season_token(r.season)));
    assert(single_spaced(size_token(r.size)));
    assert(single_spaced("shoes eu"@));
    assert(single_spaced(accessory_keywords()));
    assert(single_spaced("budget"@));
    lemma_dec_rep_spaced(r.shoe_size as nat);
    lemma_dec_rep_spaced(r.budget_max as nat);
    lemma_sp_join_spaced("shoes eu"@, dec_rep(r.shoe_size as nat));
    lemma_sp_join_spaced("budget"@, dec_rep(r.budget_max as nat));
    let a = sp_join(gender_token(r.gender), event_keywords(r.event));
    lemma_sp_join_spaced(gender_token(r.gender), event_keywords(r.event));
    let b = sp_join(a, season_token(r.season));
    lemma_sp_join_spaced(a, season_token(r.season));
    let c = sp_join(b, size_token(r.size));
    lemma_sp_join_spaced(b, size_token(r.size));
    let base = sp_join(c, shoe_token(r.shoe_size));
    lemma_sp_join_spaced(c, shoe_token(r.shoe_size));
    if r.accessories {
        lemma_sp_join_spaced(base, accessory_keywords());
        lemma_sp_join_spaced(sp_join(base, accessory_keywords()), budget_token(r.budget_max));
    } else {
        lemma_sp_join_spaced(base, budget_token(r.budget_max));
    }
}

/// The keyword phrase always ends with the token `budget` followed by one
/// space and the decimal representation of the maximum budget.
pub proof fn lemma_keyword_phrase_ends_with_budget(r: RecommendationRequest)
    ensures
        ({
            let s = keyword_phrase_of(r);
            let suf = "budget"@ + seq![' '] + dec_rep(r.budget_max as nat);
            &&& s.len() > suf.len()
            &&& s.subrange(s.len() - suf.len(), s.len() as int) == suf
        }),
{
    let s = keyword_phrase_of(r);
    let suf = "budget"@ + seq![' '] + dec_rep(r.budget_max as nat);
    let base = sp_join(
        sp_join(
            sp_join(sp_join(gender_token(r.gender), event_keywords(r.event)), season_token(r.season)),
            size_token(r.size),
        ),
        shoe_token(r.shoe_size),
    );
    let with_acc = if r.accessories {
        sp_join(base, accessory_keywords())
    } else {
        base
    };
    assert(s =~= (with_acc + seq![' ']) + suf);
    assert(s.len() == with_acc.len() + 1 + suf.len());
    assert(s.subrange(s.len() - suf.len(), s.len() as int) =~= suf);
}

} // verus!
