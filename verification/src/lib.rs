//! Outfit recommendation library: turns a validated request (event, season,
//! gender, sizes, budget, accessories flag) into a human-readable outfit idea,
//! a normalized keyword phrase, and a fixed, ordered list of shopping links
//! with the phrase percent-encoded into each URL.

pub mod encode;
pub mod links;
pub mod model;
pub mod outfit;
pub mod recommend;
pub mod text;
