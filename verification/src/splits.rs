//! The splits endpoint description.
use vstd::prelude::*;

use crate::Range;
use crate::request::{Method, Request};

verus! {

/// Request for the split history of one symbol over a range.
#[derive(Debug, Clone)]
pub struct GetSplits {
    pub symbol: String,
    pub range: Range,
}

impl Request for GetSplits {
    open spec fn spec_endpoint(&self) -> Seq<char> {
        "/stock/"@ + self.symbol@ + "/splits/"@ + self.range.spec_code()
    }

    open spec fn spec_method(&self) -> Method {
        Method::Get
    }

    open spec fn spec_headers(&self) -> Seq<(Seq<char>, Seq<char>)> {
        Seq::empty()
    }

    open spec fn spec_body(&self) -> Option<Seq<char>> {
        None
    }

    fn endpoint(&self) -> (r: String) {
        let mut r = String::from_str("/stock/");
        r.append(self.symbol.as_str());
        r.append("/splits/");
        let code = self.range.wire_code();
        r.append(code.as_str());
        proof {
            assert(r@ =~= self.spec_endpoint());
        }
        r
    }

    fn method(&self) -> (m: Method) {
        Method::Get
    }

    fn headers(&self) -> (h: Vec<(String, String)>) {
        let h: Vec<(String, String)> = Vec::new();
        proof {
            assert(h.deep_view() =~= self.spec_headers());
        }
        h
    }

    fn body(&self) -> (b: Option<String>) {
        None
    }
}

} // verus!
