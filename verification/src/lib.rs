//! Client-side logic for a currency exchange-rate web API: the catalogue of
//! currencies, the request configuration, the request target built from it,
//! the error type, and the rule that decides a request raced against a timeout.

pub mod client;
pub mod currency;
pub mod errors;
pub mod race;
pub mod target;
pub mod uri;

pub use crate::client::{get_url, url_string, Config};
pub use crate::currency::Currency;
pub use crate::errors::FixerioError;
pub use crate::race::{race_outcome, Settled};
