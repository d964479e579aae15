//! Typed access layer for the IEX financial-data REST service.
//!
//! A [`client::Client`] turns a typed endpoint description (any type
//! implementing [`request::Request`]) into a wire call description,
//! classifies the HTTP outcome, and maps it onto a typed result or a
//! typed [`errors::Error`].
use vstd::prelude::*;

pub mod client;
pub mod dividends;
pub mod errors;
pub mod request;
pub mod splits;

verus! {

/// Symbolic time-range tokens accepted by the remote service.
///
/// Each token serializes to a fixed lowercase short code (see
/// [`Range::wire_code`]); the mapping is bit-exact for wire compatibility.
#[derive(Debug, Clone)]
pub enum Range {
    FiveYears,
    TwoYears,
    OneYear,
    YearToDate,
    SixMonths,
    ThreeMonths,
    OneMonth,
    Next,
}

impl Range {
    /// The fixed short code this token serializes to.
    pub open spec fn spec_code(&self) -> Seq<char> {
        match self {
            Range::FiveYears => "5y"@,
            Range::TwoYears => "2y"@,
            Range::OneYear => "1y"@,
            Range::YearToDate => "ytd"@,
            Range::SixMonths => "6m"@,
            Range::ThreeMonths => "3m"@,
            Range::OneMonth => "1m"@,
            Range::Next => "next"@,
        }
    }

    /// Serialize the token to its short wire code.
    ///
    /// The result is a pure, deterministic function of the token alone.
    pub fn wire_code(&self) -> (r: String)
        ensures
            r@ == self.spec_code(),
    {
        match self {
            Range::FiveYears => String::from_str("5y"),
            Range::TwoYears => String::from_str("2y"),
            Range::OneYear => String::from_str("1y"),
            Range::YearToDate => String::from_str("ytd"),
            Range::SixMonths => String::from_str("6m"),
            Range::ThreeMonths => String::from_str("3m"),
            Range::OneMonth => String::from_str("1m"),
            Range::Next => String::from_str("next"),
        }
    }
}

} // verus!
