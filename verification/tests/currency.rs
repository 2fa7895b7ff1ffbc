use fixerio::Currency;

fn all() -> Vec<(Currency, &'static str)> {
    vec![
        (Currency::AUD, "AUD"),
        (Currency::BGN, "BGN"),
        (Currency::BRL, "BRL"),
        (Currency::CAD, "CAD"),
        (Currency::CHF, "CHF"),
        (Currency::CNY, "CNY"),
        (Currency::CZK, "CZK"),
        (Currency::DKK, "DKK"),
        (Currency::EUR, "EUR"),
        (Currency::GBP, "GBP"),
        (Currency::HKD, "HKD"),
        (Currency::HRK, "HRK"),
        (Currency::HUF, "HUF"),
        (Currency::IDR, "IDR"),
        (Currency::ILS, "ILS"),
        (Currency::INR, "INR"),
        (Currency::JPY, "JPY"),
        (Currency::KRW, "KRW"),
        (Currency::MXN, "MXN"),
        (Currency::MYR, "MYR"),
        (Currency::NOK, "NOK"),
        (Currency::NZD, "NZD"),
        (Currency::PHP, "PHP"),
        (Currency::PLN, "PLN"),
        (Currency::RON, "RON"),
        (Currency::RUB, "RUB"),
        (Currency::SEK, "SEK"),
        (Currency::SGD, "SGD"),
        (Currency::THB, "THB"),
        (Currency::TRY, "TRY"),
        (Currency::USD, "USD"),
        (Currency::ZAR, "ZAR"),
    ]
}

#[test]
fn every_currency_has_its_code() {
    for (currency, code) in all() {
        assert_eq!(currency.string(), code);
    }
}

#[test]
fn codes_are_three_capital_letters() {
    for (currency, _) in all() {
        let code = currency.string();
        assert_eq!(code.len(), 3);
        assert!(code.chars().all(|c| c.is_ascii_uppercase()));
    }
}

#[test]
fn codes_are_distinct() {
    let all = all();
    for (i, (a, _)) in all.iter().enumerate() {
        for (j, (b, _)) in all.iter().enumerate() {
            assert_eq!(a.string() == b.string(), i == j);
            assert_eq!(a == b, i == j);
        }
    }
}
