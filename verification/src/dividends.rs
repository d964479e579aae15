//! The dividends endpoint description and its decoded record shape.
use vstd::prelude::*;

use crate::Range;
use crate::request::{Method, Request};

verus! {

/// Request for the dividend history of one symbol over a range.
#[derive(Debug, Clone)]
pub struct GetDividends {
    pub symbol: String,
    pub range: Range,
}

/// Dividend flag vocabulary of the remote service.
#[derive(Debug, Clone)]
pub enum Flag {
    Autocall,
    CashAndStock,
    Cash,
    DissenterRights,
    Interest,
    Maturity,
    Rebate,
    Stock,
    Special,
    ToBeAnnounced,
    Blank,
}

/// A calendar date held as plain year, month and day fields.
#[derive(Debug, Clone, Copy, PartialEq, Eq, Structural)]
pub struct Date {
    pub year: i32,
    pub month: u8,
    pub day: u8,
}

impl Date {
    /// The month and day fields lie in their calendar ranges.
    pub open spec fn wf(&self) -> bool {
        1 <= self.month <= 12 && 1 <= self.day <= 31
    }

    /// Build a date, rejecting an out-of-range month or day.
    pub fn new(year: i32, month: u8, day: u8) -> (r: Option<Date>)
        ensures
            (1 <= month <= 12 && 1 <= day <= 31) ==> (r matches Some(d) && d == (Date {
                year,
                month,
                day,
            }) && d.wf()),
            !(1 <= month <= 12 && 1 <= day <= 31) ==> r is None,
    {
        if 1 <= month && month <= 12 && 1 <= day && day <= 31 {
            Some(Date { year, month, day })
        } else {
            None
        }
    }
}

/// A decimal amount held as plain fields: the value is
/// `mantissa / 10^scale`.
#[derive(Debug, Clone, Copy, PartialEq, Eq, Structural)]
pub struct DecimalValue {
    pub mantissa: i128,
    pub scale: u32,
}

impl DecimalValue {
    /// The scale stays within the 28 fractional digits the wire format
    /// carries.
    pub open spec fn wf(&self) -> bool {
        self.scale <= 28
    }
}

/// One decoded dividend record.
#[derive(Debug, Clone)]
pub struct Dividend {
    pub amount: DecimalValue,
    pub currency: String,
    pub description: String,
    pub ex_date: Date,
    pub flag: Flag,
    pub frequency: String,
    pub payment_date: Date,
    pub record_date: Date,
    pub refid: usize,
    pub symbol: String,
    pub id: String,
    pub key: String,
    pub subkey: String,
    pub date: usize,
    pub updated: usize,
}

impl Request for GetDividends {
    open spec fn spec_endpoint(&self) -> Seq<char> {
        "/stock/"@ + self.symbol@ + "/dividends/"@ + self.range.spec_code()
    }

    open spec fn spec_method(&self) -> Method {
        Method::Get
    }

    open spec fn spec_headers(&self) -> Seq<(Seq<char>, Seq<char>)> {
        Seq::empty()
    }

    open spec fn spec_body(&self) -> Option<Seq<char>> {
        None
    }

    fn endpoint(&self) -> (r: String) {
        let mut r = String::from_str("/stock/");
        r.append(self.symbol.as_str());
        r.append("/dividends/");
        let code = self.range.wire_code();
        r.append(code.as_str());
        proof {
            assert(r@ =~= self.spec_endpoint());
        }
        r
    }

    fn method(&self) -> (m: Method) {
        Method::Get
    }

    fn headers(&self) -> (h: Vec<(String, String)>) {
        let h: Vec<(String, String)> = Vec::new();
        proof {
            assert(h.deep_view() =~= self.spec_headers());
        }
        h
    }

    fn body(&self) -> (b: Option<String>) {
        None
    }
}

} // verus!
