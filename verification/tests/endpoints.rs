use iex::Range;
use iex::client::Client;
use iex::dividends::GetDividends;
use iex::request::{Method, Request};
use iex::splits::GetSplits;

#[test]
fn get_dividends() {
    let client = Client::new("http://server.test", "TOKEN");
    let req = GetDividends { symbol: "AAPL".to_string(), range: Range::Next };
    assert_eq!(req.endpoint(), "/stock/AAPL/dividends/next");
    let prepared = client.prepare(&req);
    let verb = match prepared.method {
        Method::Get => "GET",
        Method::Post => "POST",
        Method::Put => "PUT",
        Method::Delete => "DELETE",
    };
    assert_eq!(verb, "GET");
    assert_eq!(prepared.url, "http://server.test/stock/AAPL/dividends/next");
    assert_eq!(prepared.query.len(), 1);
    assert_eq!(prepared.query[0].0, "token");
    assert_eq!(prepared.query[0].1, "TOKEN");
    assert!(prepared.headers.is_empty());
    assert!(prepared.body.is_none());
}

#[test]
fn get_splits() {
    let client = Client::new("http://server.test", "TOKEN");
    let req = GetSplits { symbol: "AAPL".to_string(), range: Range::Next };
    assert_eq!(req.endpoint(), "/stock/AAPL/splits/next");
    let prepared = client.prepare(&req);
    let verb = match prepared.method {
        Method::Get => "GET",
        Method::Post => "POST",
        Method::Put => "PUT",
        Method::Delete => "DELETE",
    };
    assert_eq!(verb, "GET");
    assert_eq!(prepared.url, "http://server.test/stock/AAPL/splits/next");
    assert_eq!(prepared.query.len(), 1);
    assert_eq!(prepared.query[0].0, "token");
    assert_eq!(prepared.query[0].1, "TOKEN");
    assert!(prepared.headers.is_empty());
    assert!(prepared.body.is_none());
}

#[test]
fn dividends_endpoint_embeds_symbol_and_range() {
    let req = GetDividends { symbol: "MSFT".to_string(), range: Range::YearToDate };
    assert_eq!(req.endpoint(), "/stock/MSFT/dividends/ytd");
    assert!(matches!(req.method(), Method::Get));
    assert!(req.headers().is_empty());
    assert!(req.body().is_none());
}

#[test]
fn splits_endpoint_embeds_symbol_and_range() {
    let req = GetSplits { symbol: "MSFT".to_string(), range: Range::FiveYears };
    assert_eq!(req.endpoint(), "/stock/MSFT/splits/5y");
    assert!(matches!(req.method(), Method::Get));
    assert!(req.headers().is_empty());
    assert!(req.body().is_none());
}
