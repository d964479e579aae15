use iex::Range;

#[test]
fn five_years_code() {
    assert_eq!(Range::FiveYears.wire_code(), "5y");
}

#[test]
fn two_years_code() {
    assert_eq!(Range::TwoYears.wire_code(), "2y");
}

#[test]
fn one_year_code() {
    assert_eq!(Range::OneYear.wire_code(), "1y");
}

#[test]
fn year_to_date_code() {
    assert_eq!(Range::YearToDate.wire_code(), "ytd");
}

#[test]
fn six_months_code() {
    assert_eq!(Range::SixMonths.wire_code(), "6m");
}

#[test]
fn three_months_code() {
    assert_eq!(Range::ThreeMonths.wire_code(), "3m");
}

#[test]
fn one_month_code() {
    assert_eq!(Range::OneMonth.wire_code(), "1m");
}

#[test]
fn next_code() {
    assert_eq!(Range::Next.wire_code(), "next");
}

#[test]
fn codes_are_deterministic() {
    assert_eq!(Range::Next.wire_code(), Range::Next.wire_code());
    assert_eq!(Range::YearToDate.wire_code(), Range::YearToDate.wire_code());
}
