//! The argument model and its validator: the enumerated selections, the
//! request record with its shoe-size invariant, and the boundary errors.

use vstd::prelude::*;
use vstd::string::StringExecFns;
use crate::text::str_eq;

verus! {

/// The occasion the outfit is for.
#[derive(Clone, Copy, Debug, PartialEq, Eq, Structural)]
pub enum Event {
    Wedding,
    Party,
    Casual,
}

/// The season the outfit is for.
#[derive(Clone, Copy, Debug, PartialEq, Eq, Structural)]
pub enum Season {
    Winter,
    Spring,
    Summer,
    Autumn,
}

/// The gender style target, used only for keywords.
#[derive(Clone, Copy, Debug, PartialEq, Eq, Structural)]
pub enum Gender {
    Men,
    Women,
    Unisex,
}

/// Clothing size.
#[derive(Clone, Copy, Debug, PartialEq, Eq, Structural)]
pub enum ClothingSize {
    S,
    M,
    L,
}

/// The categorical or numeric field an argument error refers to.
#[derive(Clone, Copy, Debug, PartialEq, Eq, Structural)]
pub enum ArgField {
    Event,
    Season,
    Gender,
    Size,
    ShoeSize,
}

/// A boundary validation error: a categorical value outside its enumerated
/// set, a shoe size outside the accepted range, or an absent required field.
#[derive(Clone, Copy, Debug, PartialEq, Eq, Structural)]
pub enum ArgError {
    InvalidArgument(ArgField),
    RangeError(u8),
    MissingArgument(ArgField),
}

/// A validated recommendation request. All fields are immutable once built;
/// `new` rejects out-of-range shoe sizes before any downstream computation.
#[derive(Clone, Copy, Debug, PartialEq, Eq, Structural)]
pub struct RecommendationRequest {
    pub event: Event,
    pub season: Season,
    pub gender: Gender,
    pub size: ClothingSize,
    pub shoe_size: u8,
    pub accessories: bool,
    pub budget_min: u32,
    pub budget_max: u32,
}

impl RecommendationRequest {
    /// The request invariant: the EU shoe size lies in the closed range
    /// [40, 45]. Budget bounds are deliberately not ordered against each
    /// other.
    pub open spec fn wf(self) -> bool {
        40 <= self.shoe_size <= 45
    }

    /// Validating constructor: accepts exactly the shoe sizes 40 through 45
    /// and rejects every other with a range error naming the value.
    pub fn new(
        event: Event,
        season: Season,
        gender: Gender,
        size: ClothingSize,
        shoe_size: u8,
        accessories: bool,
        budget_min: u32,
        budget_max: u32,
    ) -> (r: Result<RecommendationRequest, ArgError>)
        ensures
            40 <= shoe_size <= 45 ==> r == Ok::<RecommendationRequest, ArgError>(
                (RecommendationRequest {
                    event,
                    season,
                    gender,
                    size,
                    shoe_size,
                    accessories,
                    budget_min,
                    budget_max,
                }),
            ),
            !(40 <= shoe_size <= 45) ==> r == Err::<RecommendationRequest, ArgError>(
                ArgError::RangeError(shoe_size),
            ),
            r matches Ok(q) ==> q.wf(),
    {
        if shoe_size < 40 || shoe_size > 45 {
            Err(ArgError::RangeError(shoe_size))
        } else {
            Ok(
                RecommendationRequest {
                    event,
                    season,
                    gender,
                    size,
                    shoe_size,
                    accessories,
                    budget_min,
                    budget_max,
                },
            )
        }
    }
}

/// The derived suggestion: a human-readable outfit idea and the normalized
/// keyword phrase used as the search query of the shopping links.
#[derive(Clone, Debug, PartialEq, Eq)]
pub struct OutfitSuggestion {
    pub idea_text: String,
    pub keyword_phrase: String,
}

/// What parsing an event selection yields for a given input string.
pub open spec fn parse_event_spec(s: Seq<char>) -> Result<Event, ArgError> {
    if s == "wedding"@ {
        Ok(Event::Wedding)
    } else if s == "party"@ {
        Ok(Event::Party)
    } else if s == "casual"@ {
        Ok(Event::Casual)
    } else {
        Err(ArgError::InvalidArgument(ArgField::Event))
    }
}

/// Parse an event selection; any string outside the enumerated set is an
/// invalid argument for the event field.
pub fn parse_event(s: &str) -> (r: Result<Event, ArgError>)
    ensures
        r == parse_event_spec(s@),
{
    if str_eq(s, "wedding") {
        Ok(Event::Wedding)
    } else if str_eq(s, "party") {
        Ok(Event::Party)
    } else if str_eq(s, "casual") {
        Ok(Event::Casual)
    } else {
        Err(ArgError::InvalidArgument(ArgField::Event))
    }
}

/// What parsing a season selection yields for a given input string.
pub open spec fn parse_season_spec(s: Seq<char>) -> Result<Season, ArgError> {
    if s == "winter"@ {
        Ok(Season::Winter)
    } else if s == "spring"@ {
        Ok(Season::Spring)
    } else if s == "summer"@ {
        Ok(Season::Summer)
    } else if s == "autumn"@ {
        Ok(Season::Autumn)
    } else {
        Err(ArgError::InvalidArgument(ArgField::Season))
    }
}

/// Parse a season selection.
pub fn parse_season(s: &str) -> (r: Result<Season, ArgError>)
    ensures
        r == parse_season_spec(s@),
{
    if str_eq(s, "winter") {
        Ok(Season::Winter)
    } else if str_eq(s, "spring") {
        Ok(Season::Spring)
    } else if str_eq(s, "summer") {
        Ok(Season::Summer)
    } else if str_eq(s, "autumn") {
        Ok(Season::Autumn)
    } else {
        Err(ArgError::InvalidArgument(ArgField::Season))
    }
}

/// What parsing a gender selection yields for a given input string.
pub open spec fn parse_gender_spec(s: Seq<char>) -> Result<Gender, ArgError> {
    if s == "men"@ {
        Ok(Gender::Men)
    } else if s == "women"@ {
        Ok(Gender::Women)
    } else if s == "unisex"@ {
        Ok(Gender::Unisex)
    } else {
        Err(ArgError::InvalidArgument(ArgField::Gender))
    }
}

/// Parse a gender selection.
pub fn parse_gender(s: &str) -> (r: Result<Gender, ArgError>)
    ensures
        r == parse_gender_spec(s@),
{
    if str_eq(s, "men") {
        Ok(Gender::Men)
    } else if str_eq(s, "women") {
        Ok(Gender::Women)
    } else if str_eq(s, "unisex") {
        Ok(Gender::Unisex)
    } else {
        Err(ArgError::InvalidArgument(ArgField::Gender))
    }
}

/// What parsing a clothing-size selection yields for a given input string.
pub open spec fn parse_size_spec(s: Seq<char>) -> Result<ClothingSize, ArgError> {
    if s == "s"@ {
        Ok(ClothingSize::S)
    } else if s == "m"@ {
        Ok(ClothingSize::M)
    } else if s == "l"@ {
        Ok(ClothingSize::L)
    } else {
        Err(ArgError::InvalidArgument(ArgField::Size))
    }
}

/// Parse a clothing-size selection.
pub fn parse_size(s: &str) -> (r: Result<ClothingSize, ArgError>)
    ensures
        r == parse_size_spec(s@),
{
    if str_eq(s, "s") {
        Ok(ClothingSize::S)
    } else if str_eq(s, "m") {
        Ok(ClothingSize::M)
    } else if str_eq(s, "l") {
        Ok(ClothingSize::L)
    } else {
        Err(ArgError::InvalidArgument(ArgField::Size))
    }
}

/// Check the shoe-size range: exactly 40 through 45 (EU) are accepted,
/// bounds included.
pub fn validate_shoe_size(n: u8) -> (r: Result<u8, ArgError>)
    ensures
        40 <= n <= 45 ==> r == Ok::<u8, ArgError>(n),
        !(40 <= n <= 45) ==> r == Err::<u8, ArgError>(ArgError::RangeError(n)),
{
    if 40 <= n && n <= 45 {
        Ok(n)
    } else {
        Err(ArgError::RangeError(n))
    }
}

impl ArgError {
    /// A human-readable message naming the offending field and its accepted
    /// values or range.
    pub fn message(&self) -> (r: String)
        ensures
            r@ == self.message_spec(),
    {
        match self {
            ArgError::InvalidArgument(ArgField::Event) => String::from_str(
                "invalid event: expected one of wedding, party, casual",
            ),
            ArgError::InvalidArgument(ArgField::Season) => String::from_str(
                "invalid season: expected one of winter, spring, summer, autumn",
            ),
            ArgError::InvalidArgument(ArgField::Gender) => String::from_str(
                "invalid gender: expected one of men, women, unisex",
            ),
            ArgError::InvalidArgument(ArgField::Size) => String::from_str(
                "invalid size: expected one of s, m, l",
            ),
            ArgError::InvalidArgument(ArgField::ShoeSize) => String::from_str(
                "invalid shoe size: expected an integer between 40 and 45",
            ),
            ArgError::RangeError(_) => String::from_str(
                "shoe size out of range: expected an integer between 40 and 45",
            ),
            ArgError::MissingArgument(_) => String::from_str("missing required argument"),
        }
    }

    /// The message text for each error.
    pub open spec fn message_spec(self) -> Seq<char> {
        match self {
            ArgError::InvalidArgument(ArgField::Event) => {
                "invalid event: expected one of wedding, party, casual"@
            },
            ArgError::InvalidArgument(ArgField::Season) => {
                "invalid season: expected one of winter, spring, summer, autumn"@
            },
            ArgError::InvalidArgument(ArgField::Gender) => {
                "invalid gender: expected one of men, women, unisex"@
            },
            ArgError::InvalidArgument(ArgField::Size) => "invalid size: expected one of s, m, l"@,
            ArgError::InvalidArgument(ArgField::ShoeSize) => {
                "invalid shoe size: expected an integer between 40 and 45"@
            },
            ArgError::RangeError(_) => {
                "shoe size out of range: expected an integer between 40 and 45"@
            },
            ArgError::MissingArgument(_) => "missing required argument"@,
        }
    }
}

} // verus!
