//! Currencies and countries, by their upper-case codes.

use crate::wire::{str_eq, text, DecodeError, Value, ValueView, Wire};
use vstd::prelude::*;
use vstd::string::StringExecFns;

verus! {

/// Currency a payment is denominated in.
#[derive(Debug, Clone, Copy, PartialEq, Eq, Hash, Structural)]
pub enum Currency {
    Gbp,
    Eur,
}

impl Currency {
    /// The name that stands for the variant in a payload.
    pub open spec fn code(self) -> Seq<char> {
        match self {
            Currency::Gbp => "GBP"@,
            Currency::Eur => "EUR"@,
        }
    }

    /// The variant that a name stands for, if it stands for one.
    pub open spec fn named(code: Seq<char>) -> Option<Currency> {
        if code == "GBP"@ {
            Some(Currency::Gbp)
        } else if code == "EUR"@ {
            Some(Currency::Eur)
        } else {
            None
        }
    }

    /// The name that stands for the variant in a payload.
    pub fn as_str(&self) -> (s: &'static str)
        ensures
            s@ == self.code(),
    {
        match self {
            Currency::Gbp => "GBP",
            Currency::Eur => "EUR",
        }
    }

    /// The variant that `code` stands for; `None` for any other text.
    pub fn from_code(code: &str) -> (r: Option<Currency>)
        ensures
            r == Self::named(code@),
    {
        if str_eq(code, "GBP") {
            Some(Currency::Gbp)
        } else if str_eq(code, "EUR") {
            Some(Currency::Eur)
        } else {
            None
        }
    }

        /// The upper-case code of the currency, as an owned string.
        pub fn to_string(&self) -> (s: String)
            ensures
                s@ == self.code(),
        {
            String::from_str(self.as_str())
        }
}

impl DeepView for Currency {
    type V = Currency;

    open spec fn deep_view(&self) -> Currency {
        *self
    }
}

impl Wire for Currency {
    open spec fn valid(m: Currency) -> bool {
        true
    }

    open spec fn encoded(m: Currency) -> ValueView {
        ValueView::Text(m.code())
    }

    open spec fn decoded(v: ValueView) -> Result<Currency, DecodeError> {
        match v {
            ValueView::Text(code) => match Self::named(code) {
                Some(x) => Ok(x),
                None => Err(DecodeError::UnknownVariant),
            },
            _ => Err(DecodeError::ExpectedText),
        }
    }

    fn encode(&self) -> (v: Value) {
        proof {
            Self::round_trip(*self);
        }
        text(self.as_str())
    }

    fn decode(v: &Value) -> (r: Result<Currency, DecodeError>) {
        match v {
            Value::Text(code) => match Currency::from_code(code.as_str()) {
                Some(x) => Ok(x),
                None => Err(DecodeError::UnknownVariant),
            },
            _ => Err(DecodeError::ExpectedText),
        }
    }

    proof fn round_trip(m: Currency) {
        lemma_names();
    }
}

/// Country that a provider operates in.
#[derive(Debug, Clone, Copy, PartialEq, Eq, Hash, Structural)]
pub enum CountryCode {
    DE,
    ES,
    FR,
    GB,
    IE,
    IT,
    LT,
    NL,
    PL,
    PT,
}

impl CountryCode {
    /// The name that stands for the variant in a payload.
    pub open spec fn code(self) -> Seq<char> {
        match self {
            CountryCode::DE => "DE"@,
            CountryCode::ES => "ES"@,
            CountryCode::FR => "FR"@,
            CountryCode::GB => "GB"@,
            CountryCode::IE => "IE"@,
            CountryCode::IT => "IT"@,
            CountryCode::LT => "LT"@,
            CountryCode::NL => "NL"@,
            CountryCode::PL => "PL"@,
            CountryCode::PT => "PT"@,
        }
    }

    /// The variant that a name stands for, if it stands for one.
    pub open spec fn named(code: Seq<char>) -> Option<CountryCode> {
        if code == "DE"@ {
            Some(CountryCode::DE)
        } else if code == "ES"@ {
            Some(CountryCode::ES)
        } else if code == "FR"@ {
            Some(CountryCode::FR)
        } else if code == "GB"@ {
            Some(CountryCode::GB)
        } else if code == "IE"@ {
            Some(CountryCode::IE)
        } else if code == "IT"@ {
            Some(CountryCode::IT)
        } else if code == "LT"@ {
            Some(CountryCode::LT)
        } else if code == "NL"@ {
            Some(CountryCode::NL)
        } else if code == "PL"@ {
            Some(CountryCode::PL)
        } else if code == "PT"@ {
            Some(CountryCode::PT)
        } else {
            None
        }
    }

    /// The name that stands for the variant in a payload.
    pub fn as_str(&self) -> (s: &'static str)
        ensures
            s@ == self.code(),
    {
        match self {
            CountryCode::DE => "DE",
            CountryCode::ES => "ES",
            CountryCode::FR => "FR",
            CountryCode::GB => "GB",
            CountryCode::IE => "IE",
            CountryCode::IT => "IT",
            CountryCode::LT => "LT",
            CountryCode::NL => "NL",
            CountryCode::PL => "PL",
            CountryCode::PT => "PT",
        }
    }

    /// The variant that `code` stands for; `None` for any other text.
    pub fn from_code(code: &str) -> (r: Option<CountryCode>)
        ensures
            r == Self::named(code@),
    {
        if str_eq(code, "DE") {
            Some(CountryCode::DE)
        } else if str_eq(code, "ES") {
            Some(CountryCode::ES)
        } else if str_eq(code, "FR") {
            Some(CountryCode::FR)
        } else if str_eq(code, "GB") {
            Some(CountryCode::GB)
        } else if str_eq(code, "IE") {
            Some(CountryCode::IE)
        } else if str_eq(code, "IT") {
            Some(CountryCode::IT)
        } else if str_eq(code, "LT") {
            Some(CountryCode::LT)
        } else if str_eq(code, "NL") {
            Some(CountryCode::NL)
        } else if str_eq(code, "PL") {
            Some(CountryCode::PL)
        } else if str_eq(code, "PT") {
            Some(CountryCode::PT)
        } else {
            None
        }
    }
}

impl DeepView for CountryCode {
    type V = CountryCode;

    open spec fn deep_view(&self) -> CountryCode {
        *self
    }
}

impl Wire for CountryCode {
    open spec fn valid(m: CountryCode) -> bool {
        true
    }

    open spec fn encoded(m: CountryCode) -> ValueView {
        ValueView::Text(m.code())
    }

    open spec fn decoded(v: ValueView) -> Result<CountryCode, DecodeError> {
        match v {
            ValueView::Text(code) => match Self::named(code) {
                Some(x) => Ok(x),
                None => Err(DecodeError::UnknownVariant),
            },
            _ => Err(DecodeError::ExpectedText),
        }
    }

    fn encode(&self) -> (v: Value) {
        proof {
            Self::round_trip(*self);
        }
        text(self.as_str())
    }

    fn decode(v: &Value) -> (r: Result<CountryCode, DecodeError>) {
        match v {
            Value::Text(code) => match CountryCode::from_code(code.as_str()) {
                Some(x) => Ok(x),
                None => Err(DecodeError::UnknownVariant),
            },
            _ => Err(DecodeError::ExpectedText),
        }
    }

    proof fn round_trip(m: CountryCode) {
        lemma_names();
    }
}

/// The lengths of the names that this module reads and writes, and the
/// characters that tell names of one length apart.
pub proof fn lemma_names()
    ensures
        "GBP"@.len() == 3,
        "GBP"@[0] == 'G',
        "EUR"@.len() == 3,
        "EUR"@[0] == 'E',
        "DE"@.len() == 2,
        "DE"@[0] == 'D',
        "DE"@[1] == 'E',
        "ES"@.len() == 2,
        "ES"@[0] == 'E',
        "ES"@[1] == 'S',
        "FR"@.len() == 2,
        "FR"@[0] == 'F',
        "FR"@[1] == 'R',
        "GB"@.len() == 2,
        "GB"@[0] == 'G',
        "GB"@[1] == 'B',
        "IE"@.len() == 2,
        "IE"@[0] == 'I',
        "IE"@[1] == 'E',
        "IT"@.len() == 2,
        "IT"@[0] == 'I',
        "IT"@[1] == 'T',
        "LT"@.len() == 2,
        "LT"@[0] == 'L',
        "LT"@[1] == 'T',
        "NL"@.len() == 2,
        "NL"@[0] == 'N',
        "NL"@[1] == 'L',
        "PL"@.len() == 2,
        "PL"@[0] == 'P',
        "PL"@[1] == 'L',
        "PT"@.len() == 2,
        "PT"@[0] == 'P',
        "PT"@[1] == 'T',
{
    reveal_strlit("GBP");
    reveal_strlit("EUR");
    reveal_strlit("DE");
    reveal_strlit("ES");
    reveal_strlit("FR");
    reveal_strlit("GB");
    reveal_strlit("IE");
    reveal_strlit("IT");
    reveal_strlit("LT");
    reveal_strlit("NL");
    reveal_strlit("PL");
    reveal_strlit("PT");
}

} // verus!
