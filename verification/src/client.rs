//! The request configuration and the request target built from it.

use crate::currency::Currency;
use crate::target::{join_codes, lemma_url_is_absolute, ConfigView};
use crate::uri::{parse_uri, uri_text};
use vstd::prelude::*;

verus! {

/// Configuration for requests.
pub struct Config {
    base: Currency,
    symbols: Option<Vec<Currency>>,
    date: Option<String>,
}

impl View for Config {
    type V = ConfigView;

    closed spec fn view(&self) -> ConfigView {
        ConfigView {
            base: self.base,
            symbols: match self.symbols {
                Some(v) => Some(v@),
                None => None,
            },
            date: match self.date {
                Some(d) => Some(d@),
                None => None,
            },
        }
    }
}

impl Config {
    /// Create a new Config struct: no symbols, no date.
    pub fn new(curr: Currency) -> (conf: Self)
        ensures
            conf@ == (ConfigView { base: curr, symbols: None, date: None }),
    {
        Self { base: curr, symbols: None, date: None }
    }

    /// Set the symbols: the currencies to quote against the base. Without
    /// them the service quotes all it knows.
    pub fn set_symbols(&mut self, symbols: Vec<Currency>)
        ensures
            final(self)@ == (ConfigView { symbols: Some(symbols@), ..old(self)@ }),
    {
        self.symbols = Some(symbols);
    }

    /// Set the date to quote. Without one the service quotes the latest
    /// rates. The text is taken as it is.
    pub fn set_date(&mut self, date: &str)
        ensures
            final(self)@ == (ConfigView { date: Some(date@), ..old(self)@ }),
    {
        self.date = Some(date.to_owned());
    }
}

/// The codes of `currencies`, joined with commas.
fn join_code_strings(currencies: &Vec<Currency>) -> (out: String)
    ensures
        out@ == join_codes(currencies@),
{
    let mut out = String::new();
    let mut i: usize = 0;
    while i < currencies.len()
        invariant
            i <= currencies.len(),
            out@ == join_codes(currencies@.take(i as int)),
        decreases currencies.len() - i,
    {
        if i > 0 {
            out.append(",");
        }
        out.append(currencies[i].string());
        proof {
            let next = currencies@.take(i + 1);
            assert(next.drop_last() == currencies@.take(i as int));
            assert(next.last() == currencies@[i as int]);
        }
        i += 1;
    }
    proof {
        assert(currencies@.take(currencies.len() as int) == currencies@);
    }
    out
}

/// The URL of a configuration, as text.
pub fn url_string(conf: &Config) -> (url: String)
    ensures
        url@ == conf@.url(),
{
    let mut url = String::from_str("http://api.fixer.io/");
    match &conf.date {
        Some(date) => url.append(date.as_str()),
        None => url.append("latest"),
    }
    url.append("?");
    url.append("base=");
    url.append(conf.base.string());
    if let Some(currencies) = &conf.symbols {
        let joined = join_code_strings(currencies);
        url.append("&symbols=");
        url.append(joined.as_str());
    }
    url
}

/// The URL of a configuration, as the request target that the HTTP client
/// takes. Every configuration has one: the date is not examined.
pub fn get_url(conf: &Config) -> (uri: hyper::Uri)
    ensures
        uri_text(uri) == conf@.url(),
{
    let url = url_string(conf);
    proof {
        lemma_url_is_absolute(conf@);
    }
    parse_uri(url.as_str()).unwrap()
}

} // verus!
