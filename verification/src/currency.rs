//! The closed catalogue of currencies and their three-letter wire codes.

use vstd::prelude::*;

verus! {

/// A currency the service quotes rates for.
#[derive(Debug, Clone, Copy, PartialEq, Eq, Structural)]
pub enum Currency {
    /// Australian dollar
    AUD,
    /// Bulgarian lev
    BGN,
    /// Brazilian real
    BRL,
    /// Canadian dollar
    CAD,
    /// Swiss franc
    CHF,
    /// Chinese yuan
    CNY,
    /// Czech koruna
    CZK,
    /// Danish krone
    DKK,
    /// Euro
    EUR,
    /// Pound sterling
    GBP,
    /// Hong Kong dollar
    HKD,
    /// Croatian kuna
    HRK,
    /// Hungarian forint
    HUF,
    /// Indonesian rupiah
    IDR,
    /// Israeli new shekel
    ILS,
    /// Indian rupee
    INR,
    /// Japanese yen
    JPY,
    /// South Korean won
    KRW,
    /// Mexican peso
    MXN,
    /// Malaysian ringgit
    MYR,
    /// Norwegian krone
    NOK,
    /// New Zealand dollar
    NZD,
    /// Philippine peso
    PHP,
    /// Polish zloty
    PLN,
    /// Romanian leu
    RON,
    /// Russian ruble
    RUB,
    /// Swedish krona
    SEK,
    /// Singapore dollar
    SGD,
    /// Thai baht
    THB,
    /// Turkish lira
    TRY,
    /// United States dollar
    USD,
    /// South African rand
    ZAR,
}

/// Whether `c` is one of the capital letters `A` to `Z`.
pub open spec fn is_upper_letter(c: char) -> bool {
    'A' <= c && c <= 'Z'
}

impl Currency {
    /// The three-letter code of the currency, as it is written on the wire.
    pub open spec fn code(self) -> Seq<char> {
        match self {
            Currency::AUD => "AUD"@,
            Currency::BGN => "BGN"@,
            Currency::BRL => "BRL"@,
            Currency::CAD => "CAD"@,
            Currency::CHF => "CHF"@,
            Currency::CNY => "CNY"@,
            Currency::CZK => "CZK"@,
            Currency::DKK => "DKK"@,
            Currency::EUR => "EUR"@,
            Currency::GBP => "GBP"@,
            Currency::HKD => "HKD"@,
            Currency::HRK => "HRK"@,
            Currency::HUF => "HUF"@,
            Currency::IDR => "IDR"@,
            Currency::ILS => "ILS"@,
            Currency::INR => "INR"@,
            Currency::JPY => "JPY"@,
            Currency::KRW => "KRW"@,
            Currency::MXN => "MXN"@,
            Currency::MYR => "MYR"@,
            Currency::NOK => "NOK"@,
            Currency::NZD => "NZD"@,
            Currency::PHP => "PHP"@,
            Currency::PLN => "PLN"@,
            Currency::RON => "RON"@,
            Currency::RUB => "RUB"@,
            Currency::SEK => "SEK"@,
            Currency::SGD => "SGD"@,
            Currency::THB => "THB"@,
            Currency::TRY => "TRY"@,
            Currency::USD => "USD"@,
            Currency::ZAR => "ZAR"@,
        }
    }

    /// Return the string representation.
    pub fn string(&self) -> (s: &str)
        ensures
            s@ == self.code(),
    {
        match *self {
            Currency::AUD => "AUD",
            Currency::BGN => "BGN",
            Currency::BRL => "BRL",
            Currency::CAD => "CAD",
            Currency::CHF => "CHF",
            Currency::CNY => "CNY",
            Currency::CZK => "CZK",
            Currency::DKK => "DKK",
            Currency::EUR => "EUR",
            Currency::GBP => "GBP",
            Currency::HKD => "HKD",
            Currency::HRK => "HRK",
            Currency::HUF => "HUF",
            Currency::IDR => "IDR",
            Currency::ILS => "ILS",
            Currency::INR => "INR",
            Currency::JPY => "JPY",
            Currency::KRW => "KRW",
            Currency::MXN => "MXN",
            Currency::MYR => "MYR",
            Currency::NOK => "NOK",
            Currency::NZD => "NZD",
            Currency::PHP => "PHP",
            Currency::PLN => "PLN",
            Currency::RON => "RON",
            Currency::RUB => "RUB",
            Currency::SEK => "SEK",
            Currency::SGD => "SGD",
            Currency::THB => "THB",
            Currency::TRY => "TRY",
            Currency::USD => "USD",
            Currency::ZAR => "ZAR",
        }
    }
}

/// The three letters of a code, one by one.
pub open spec fn letters(c: Currency) -> (char, char, char) {
    match c {
        Currency::AUD => ('A', 'U', 'D'),
        Currency::BGN => ('B', 'G', 'N'),
        Currency::BRL => ('B', 'R', 'L'),
        Currency::CAD => ('C', 'A', 'D'),
        Currency::CHF => ('C', 'H', 'F'),
        Currency::CNY => ('C', 'N', 'Y'),
        Currency::CZK => ('C', 'Z', 'K'),
        Currency::DKK => ('D', 'K', 'K'),
        Currency::EUR => ('E', 'U', 'R'),
        Currency::GBP => ('G', 'B', 'P'),
        Currency::HKD => ('H', 'K', 'D'),
        Currency::HRK => ('H', 'R', 'K'),
        Currency::HUF => ('H', 'U', 'F'),
        Currency::IDR => ('I', 'D', 'R'),
        Currency::ILS => ('I', 'L', 'S'),
        Currency::INR => ('I', 'N', 'R'),
        Currency::JPY => ('J', 'P', 'Y'),
        Currency::KRW => ('K', 'R', 'W'),
        Currency::MXN => ('M', 'X', 'N'),
        Currency::MYR => ('M', 'Y', 'R'),
        Currency::NOK => ('N', 'O', 'K'),
        Currency::NZD => ('N', 'Z', 'D'),
        Currency::PHP => ('P', 'H', 'P'),
        Currency::PLN => ('P', 'L', 'N'),
        Currency::RON => ('R', 'O', 'N'),
        Currency::RUB => ('R', 'U', 'B'),
        Currency::SEK => ('S', 'E', 'K'),
        Currency::SGD => ('S', 'G', 'D'),
        Currency::THB => ('T', 'H', 'B'),
        Currency::TRY => ('T', 'R', 'Y'),
        Currency::USD => ('U', 'S', 'D'),
        Currency::ZAR => ('Z', 'A', 'R'),
    }
}

/// A code is its three letters in order.
pub proof fn lemma_code_letters(c: Currency)
    ensures
        c.code() == seq![letters(c).0, letters(c).1, letters(c).2],
{
    match c {
        Currency::AUD => {
            reveal_strlit("AUD");
            assert(c.code() =~= seq!['A', 'U', 'D']);
        },
        Currency::BGN => {
            reveal_strlit("BGN");
            assert(c.code() =~= seq!['B', 'G', 'N']);
        },
        Currency::BRL => {
            reveal_strlit("BRL");
            assert(c.code() =~= seq!['B', 'R', 'L']);
        },
        Currency::CAD => {
            reveal_strlit("CAD");
            assert(c.code() =~= seq!['C', 'A', 'D']);
        },
        Currency::CHF => {
            reveal_strlit("CHF");
            assert(c.code() =~= seq!['C', 'H', 'F']);
        },
        Currency::CNY => {
            reveal_strlit("CNY");
            assert(c.code() =~= seq!['C', 'N', 'Y']);
        },
        Currency::CZK => {
            reveal_strlit("CZK");
            assert(c.code() =~= seq!['C', 'Z', 'K']);
        },
        Currency::DKK => {
            reveal_strlit("DKK");
            assert(c.code() =~= seq!['D', 'K', 'K']);
        },
        Currency::EUR => {
            reveal_strlit("EUR");
            assert(c.code() =~= seq!['E', 'U', 'R']);
        },
        Currency::GBP => {
            reveal_strlit("GBP");
            assert(c.code() =~= seq!['G', 'B', 'P']);
        },
        Currency::HKD => {
            reveal_strlit("HKD");
            assert(c.code() =~= seq!['H', 'K', 'D']);
        },
        Currency::HRK => {
            reveal_strlit("HRK");
            assert(c.code() =~= seq!['H', 'R', 'K']);
        },
        Currency::HUF => {
            reveal_strlit("HUF");
            assert(c.code() =~= seq!['H', 'U', 'F']);
        },
        Currency::IDR => {
            reveal_strlit("IDR");
            assert(c.code() =~= seq!['I', 'D', 'R']);
        },
        Currency::ILS => {
            reveal_strlit("ILS");
            assert(c.code() =~= seq!['I', 'L', 'S']);
        },
        Currency::INR => {
            reveal_strlit("INR");
            assert(c.code() =~= seq!['I', 'N', 'R']);
        },
        Currency::JPY => {
            reveal_strlit("JPY");
            assert(c.code() =~= seq!['J', 'P', 'Y']);
        },
        Currency::KRW => {
            reveal_strlit("KRW");
            assert(c.code() =~= seq!['K', 'R', 'W']);
        },
        Currency::MXN => {
            reveal_strlit("MXN");
            assert(c.code() =~= seq!['M', 'X', 'N']);
        },
        Currency::MYR => {
            reveal_strlit("MYR");
            assert(c.code() =~= seq!['M', 'Y', 'R']);
        },
        Currency::NOK => {
            reveal_strlit("NOK");
            assert(c.code() =~= seq!['N', 'O', 'K']);
        },
        Currency::NZD => {
            reveal_strlit("NZD");
            assert(c.code() =~= seq!['N', 'Z', 'D']);
        },
        Currency::PHP => {
            reveal_strlit("PHP");
            assert(c.code() =~= seq!['P', 'H', 'P']);
        },
        Currency::PLN => {
            reveal_strlit("PLN");
            assert(c.code() =~= seq!['P', 'L', 'N']);
        },
        Currency::RON => {
            reveal_strlit("RON");
            assert(c.code() =~= seq!['R', 'O', 'N']);
        },
        Currency::RUB => {
            reveal_strlit("RUB");
            assert(c.code() =~= seq!['R', 'U', 'B']);
        },
        Currency::SEK => {
            reveal_strlit("SEK");
            assert(c.code() =~= seq!['S', 'E', 'K']);
        },
        Currency::SGD => {
            reveal_strlit("SGD");
            assert(c.code() =~= seq!['S', 'G', 'D']);
        },
        Currency::THB => {
            reveal_strlit("THB");
            assert(c.code() =~= seq!['T', 'H', 'B']);
        },
        Currency::TRY => {
            reveal_strlit("TRY");
            assert(c.code() =~= seq!['T', 'R', 'Y']);
        },
        Currency::USD => {
            reveal_strlit("USD");
            assert(c.code() =~= seq!['U', 'S', 'D']);
        },
        Currency::ZAR => {
            reveal_strlit("ZAR");
            assert(c.code() =~= seq!['Z', 'A', 'R']);
        },
    }
}

/// Every code is made of exactly three capital letters.
pub proof fn law_code_three_letters(c: Currency)
    ensures
        c.code().len() == 3,
        forall|i: int| 0 <= i < 3 ==> is_upper_letter(#[trigger] c.code()[i]),
{
    lemma_code_letters(c);
}

/// No two currencies share a code.
pub proof fn law_code_injective(a: Currency, b: Currency)
    requires
        a.code() == b.code(),
    ensures
        a == b,
{
    lemma_code_letters(a);
    lemma_code_letters(b);
    assert(a.code()[0] == b.code()[0]);
    assert(a.code()[1] == b.code()[1]);
    assert(a.code()[2] == b.code()[2]);
    assert(letters(a) == letters(b));
}

} // verus!
