use digital_closet::model::{
    ArgError, ArgField, ClothingSize, Event, Gender, RecommendationRequest, Season,
};

fn request_with_shoe_size(shoe_size: u8) -> Result<RecommendationRequest, ArgError> {
    RecommendationRequest::new(
        Event::Casual,
        Season::Summer,
        Gender::Unisex,
        ClothingSize::M,
        shoe_size,
        false,
        0,
        150,
    )
}

#[test]
fn shoe_size_boundaries_accepted() {
    let low = request_with_shoe_size(40).unwrap();
    assert_eq!(low.shoe_size, 40);
    let high = request_with_shoe_size(45).unwrap();
    assert_eq!(high.shoe_size, 45);
}

#[test]
fn shoe_size_out_of_range_rejected() {
    assert_eq!(request_with_shoe_size(39), Err(ArgError::RangeError(39)));
    assert_eq!(request_with_shoe_size(46), Err(ArgError::RangeError(46)));
    assert_eq!(request_with_shoe_size(0), Err(ArgError::RangeError(0)));
    assert_eq!(request_with_shoe_size(255), Err(ArgError::RangeError(255)));
}

#[test]
fn validate_shoe_size_boundaries() {
    assert_eq!(digital_closet::model::validate_shoe_size(40), Ok(40));
    assert_eq!(digital_closet::model::validate_shoe_size(45), Ok(45));
    assert_eq!(
        digital_closet::model::validate_shoe_size(39),
        Err(ArgError::RangeError(39))
    );
    assert_eq!(
        digital_closet::model::validate_shoe_size(46),
        Err(ArgError::RangeError(46))
    );
}

#[test]
fn unrecognized_event_rejected() {
    assert_eq!(
        digital_closet::model::parse_event("holiday"),
        Err(ArgError::InvalidArgument(ArgField::Event))
    );
    assert_eq!(
        digital_closet::model::parse_event(""),
        Err(ArgError::InvalidArgument(ArgField::Event))
    );
    assert_eq!(
        digital_closet::model::parse_event("Wedding"),
        Err(ArgError::InvalidArgument(ArgField::Event))
    );
}

#[test]
fn event_values_parsed() {
    assert_eq!(digital_closet::model::parse_event("wedding"), Ok(Event::Wedding));
    assert_eq!(digital_closet::model::parse_event("party"), Ok(Event::Party));
    assert_eq!(digital_closet::model::parse_event("casual"), Ok(Event::Casual));
}

#[test]
fn season_values_parsed() {
    assert_eq!(digital_closet::model::parse_season("winter"), Ok(Season::Winter));
    assert_eq!(digital_closet::model::parse_season("spring"), Ok(Season::Spring));
    assert_eq!(digital_closet::model::parse_season("summer"), Ok(Season::Summer));
    assert_eq!(digital_closet::model::parse_season("autumn"), Ok(Season::Autumn));
    assert_eq!(
        digital_closet::model::parse_season("monsoon"),
        Err(ArgError::InvalidArgument(ArgField::Season))
    );
}

#[test]
fn gender_values_parsed() {
    assert_eq!(digital_closet::model::parse_gender("men"), Ok(Gender::Men));
    assert_eq!(digital_closet::model::parse_gender("women"), Ok(Gender::Women));
    assert_eq!(digital_closet::model::parse_gender("unisex"), Ok(Gender::Unisex));
    assert_eq!(
        digital_closet::model::parse_gender("other"),
        Err(ArgError::InvalidArgument(ArgField::Gender))
    );
}

#[test]
fn size_values_parsed() {
    assert_eq!(digital_closet::model::parse_size("s"), Ok(ClothingSize::S));
    assert_eq!(digital_closet::model::parse_size("m"), Ok(ClothingSize::M));
    assert_eq!(digital_closet::model::parse_size("l"), Ok(ClothingSize::L));
    assert_eq!(
        digital_closet::model::parse_size("xl"),
        Err(ArgError::InvalidArgument(ArgField::Size))
    );
}

#[test]
fn error_messages_name_the_field() {
    assert_eq!(
        ArgError::InvalidArgument(ArgField::Event).message(),
        "invalid event: expected one of wedding, party, casual"
    );
    assert_eq!(
        ArgError::InvalidArgument(ArgField::Season).message(),
        "invalid season: expected one of winter, spring, summer, autumn"
    );
    assert_eq!(
        ArgError::InvalidArgument(ArgField::Gender).message(),
        "invalid gender: expected one of men, women, unisex"
    );
    assert_eq!(
        ArgError::InvalidArgument(ArgField::Size).message(),
        "invalid size: expected one of s, m, l"
    );
    assert_eq!(
        ArgError::RangeError(39).message(),
        "shoe size out of range: expected an integer between 40 and 45"
    );
    assert_eq!(
        ArgError::MissingArgument(ArgField::Event).message(),
        "missing required argument"
    );
}

#[test]
fn budget_bounds_not_cross_checked() {
    let r = RecommendationRequest::new(
        Event::Party,
        Season::Spring,
        Gender::Women,
        ClothingSize::S,
        41,
        true,
        200,
        50,
    )
    .unwrap();
    assert_eq!(r.budget_min, 200);
    assert_eq!(r.budget_max, 50);
}
