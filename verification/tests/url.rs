use fixerio::{get_url, url_string, Config, Currency};

fn config(base: Currency, symbols: Option<Vec<Currency>>, date: Option<&str>) -> Config {
    let mut conf = Config::new(base);
    if let Some(symbols) = symbols {
        conf.set_symbols(symbols);
    }
    if let Some(date) = date {
        conf.set_date(date);
    }
    conf
}

#[test]
fn get_url_test() {
    let tests = vec![
        ("http://api.fixer.io/latest?base=AUD", config(Currency::AUD, None, None)),
        ("http://api.fixer.io/latest?base=EUR", config(Currency::EUR, None, None)),
        (
            "http://api.fixer.io/2000-01-03?base=EUR",
            config(Currency::EUR, None, Some("2000-01-03")),
        ),
        (
            "http://api.fixer.io/latest?base=EUR&symbols=AUD",
            config(Currency::EUR, Some(vec![Currency::AUD]), None),
        ),
        (
            "http://api.fixer.io/latest?base=EUR&symbols=AUD,USD",
            config(Currency::EUR, Some(vec![Currency::AUD, Currency::USD]), None),
        ),
    ];

    for test in tests {
        assert_eq!(test.0, get_url(&test.1));
    }
}

#[test]
fn url_without_date_asks_for_latest() {
    let conf = config(Currency::USD, None, None);
    assert_eq!(url_string(&conf), "http://api.fixer.io/latest?base=USD");
    assert_eq!(get_url(&conf).path(), "/latest");
}

#[test]
fn url_with_date_holds_the_date_as_given() {
    let conf = config(Currency::EUR, None, Some("2000-01-03"));
    assert_eq!(url_string(&conf), "http://api.fixer.io/2000-01-03?base=EUR");
    assert_eq!(get_url(&conf).path(), "/2000-01-03");
}

#[test]
fn url_base_parameter_is_the_base_code() {
    let conf = config(Currency::JPY, Some(vec![Currency::GBP]), Some("2017-06-30"));
    let uri = get_url(&conf);
    assert_eq!(uri.query(), Some("base=JPY&symbols=GBP"));
    assert_eq!(uri.scheme(), Some("http"));
    assert_eq!(uri.host(), Some("api.fixer.io"));
}

#[test]
fn url_symbols_are_joined_in_the_order_given() {
    let conf = config(Currency::EUR, Some(vec![Currency::USD, Currency::AUD, Currency::ZAR]), None);
    assert_eq!(url_string(&conf), "http://api.fixer.io/latest?base=EUR&symbols=USD,AUD,ZAR");
    let conf = config(Currency::EUR, Some(vec![Currency::AUD, Currency::AUD]), None);
    assert_eq!(url_string(&conf), "http://api.fixer.io/latest?base=EUR&symbols=AUD,AUD");
}

#[test]
fn url_with_empty_symbols_keeps_the_parameter() {
    let conf = config(Currency::EUR, Some(vec![]), None);
    assert_eq!(url_string(&conf), "http://api.fixer.io/latest?base=EUR&symbols=");
    assert_eq!("http://api.fixer.io/latest?base=EUR&symbols=", get_url(&conf));
}

#[test]
fn url_with_date_and_symbols() {
    let conf = config(Currency::EUR, Some(vec![Currency::AUD, Currency::USD]), Some("2000-01-03"));
    assert_eq!(url_string(&conf), "http://api.fixer.io/2000-01-03?base=EUR&symbols=AUD,USD");
    let uri = get_url(&conf);
    let text: &str = uri.as_ref();
    assert_eq!(text, url_string(&conf));
}

#[test]
fn later_settings_replace_earlier_ones() {
    let mut conf = Config::new(Currency::CHF);
    conf.set_date("1999-12-31");
    conf.set_symbols(vec![Currency::SEK]);
    conf.set_date("2001-02-03");
    conf.set_symbols(vec![Currency::NOK, Currency::DKK]);
    assert_eq!(url_string(&conf), "http://api.fixer.io/2001-02-03?base=CHF&symbols=NOK,DKK");
}

#[test]
fn date_is_not_examined() {
    for date in ["", "not a date", "2000/01/03", "a?b", "a#b", "[", "\u{65e5}\u{4ed8}"] {
        let conf = config(Currency::EUR, None, Some(date));
        let expected = format!("http://api.fixer.io/{}?base=EUR", date);
        assert_eq!(url_string(&conf), expected);
        let uri = get_url(&conf);
        let text: &str = uri.as_ref();
        assert_eq!(text, expected);
    }
}

#[test]
fn reader_of_the_url_is_cut_short_by_a_question_mark_in_the_date() {
    let conf = config(Currency::EUR, None, Some("a?b"));
    let uri = get_url(&conf);
    assert_eq!(uri.path(), "/a");
    assert_eq!(uri.query(), Some("b?base=EUR"));
}
