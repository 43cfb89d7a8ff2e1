//! The closed enumeration of supported ISO 4217 currency codes.

use vstd::prelude::*;
use vstd::string::StrSliceExecFns;

verus! {

/// A currency, drawn from a fixed, finite set of ISO 4217 three-letter
/// codes.
///
/// A `Currency` is an opaque, equality-comparable tag: it carries no
/// minor-unit metadata, and two monetary amounts may only be combined
/// when their tags are equal.
#[derive(Debug, Clone, Copy, PartialEq, Eq, Structural)]
pub enum Currency {
    /// Australian dollar
    AUD,
    /// Canadian dollar
    CAD,
    /// Swiss franc
    CHF,
    /// Chinese yuan
    CNY,
    /// Danish krone
    DKK,
    /// Euro
    EUR,
    /// Pound sterling
    GBP,
    /// Japanese yen
    JPY,
    /// Norwegian krone
    NOK,
    /// New Zealand dollar
    NZD,
    /// Swedish krona
    SEK,
    /// United States dollar
    USD,
}

impl Currency {
    /// The ISO 4217 three-letter code of this currency.
    pub open spec fn spec_code(self) -> Seq<char> {
        match self {
            Currency::AUD => "AUD"@,
            Currency::CAD => "CAD"@,
            Currency::CHF => "CHF"@,
            Currency::CNY => "CNY"@,
            Currency::DKK => "DKK"@,
            Currency::EUR => "EUR"@,
            Currency::GBP => "GBP"@,
            Currency::JPY => "JPY"@,
            Currency::NOK => "NOK"@,
            Currency::NZD => "NZD"@,
            Currency::SEK => "SEK"@,
            Currency::USD => "USD"@,
        }
    }

    /// The ISO 4217 three-letter code of this currency.
    pub fn code(&self) -> (r: &'static str)
        ensures
            r@ == self.spec_code(),
    {
        match self {
            Currency::AUD => "AUD",
            Currency::CAD => "CAD",
            Currency::CHF => "CHF",
            Currency::CNY => "CNY",
            Currency::DKK => "DKK",
            Currency::EUR => "EUR",
            Currency::GBP => "GBP",
            Currency::JPY => "JPY",
            Currency::NOK => "NOK",
            Currency::NZD => "NZD",
            Currency::SEK => "SEK",
            Currency::USD => "USD",
        }
    }

    /// Parse an ISO 4217 three-letter code back into a currency.
    ///
    /// Returns the currency whose code equals `s`, and `None` exactly
    /// when no currency of the closed set carries that code.
    pub fn from_code(s: &str) -> (r: Option<Currency>)
        ensures
            match r {
                Some(c) => s@ == c.spec_code(),
                None => forall|c: Currency| s@ != c.spec_code(),
            },
    {
        proof {
            reveal_strlit("AUD");
            reveal_strlit("CAD");
            reveal_strlit("CHF");
            reveal_strlit("CNY");
            reveal_strlit("DKK");
            reveal_strlit("EUR");
            reveal_strlit("GBP");
            reveal_strlit("JPY");
            reveal_strlit("NOK");
            reveal_strlit("NZD");
            reveal_strlit("SEK");
            reveal_strlit("USD");
        }
        let n = s.unicode_len();
        if n != 3 {
            return None;
        }
        let c0 = s.get_char(0);
        let c1 = s.get_char(1);
        let c2 = s.get_char(2);
        if c0 == 'A' && c1 == 'U' && c2 == 'D' {
            proof {
                assert(s@ =~= "AUD"@);
            }
            return Some(Currency::AUD);
        }
        if c0 == 'C' && c1 == 'A' && c2 == 'D' {
            proof {
                assert(s@ =~= "CAD"@);
            }
            return Some(Currency::CAD);
        }
        if c0 == 'C' && c1 == 'H' && c2 == 'F' {
            proof {
                assert(s@ =~= "CHF"@);
            }
            return Some(Currency::CHF);
        }
        if c0 == 'C' && c1 == 'N' && c2 == 'Y' {
            proof {
                assert(s@ =~= "CNY"@);
            }
            return Some(Currency::CNY);
        }
        if c0 == 'D' && c1 == 'K' && c2 == 'K' {
            proof {
                assert(s@ =~= "DKK"@);
            }
            return Some(Currency::DKK);
        }
        if c0 == 'E' && c1 == 'U' && c2 == 'R' {
            proof {
                assert(s@ =~= "EUR"@);
            }
            return Some(Currency::EUR);
        }
        if c0 == 'G' && c1 == 'B' && c2 == 'P' {
            proof {
                assert(s@ =~= "GBP"@);
            }
            return Some(Currency::GBP);
        }
        if c0 == 'J' && c1 == 'P' && c2 == 'Y' {
            proof {
                assert(s@ =~= "JPY"@);
            }
            return Some(Currency::JPY);
        }
        if c0 == 'N' && c1 == 'O' && c2 == 'K' {
            proof {
                assert(s@ =~= "NOK"@);
            }
            return Some(Currency::NOK);
        }
        if c0 == 'N' && c1 == 'Z' && c2 == 'D' {
            proof {
                assert(s@ =~= "NZD"@);
            }
            return Some(Currency::NZD);
        }
        if c0 == 'S' && c1 == 'E' && c2 == 'K' {
            proof {
                assert(s@ =~= "SEK"@);
            }
            return Some(Currency::SEK);
        }
        if c0 == 'U' && c1 == 'S' && c2 == 'D' {
            proof {
                assert(s@ =~= "USD"@);
            }
            return Some(Currency::USD);
        }
        None
    }

    /// The ISO code determines the currency: two currencies of the
    /// closed set with equal codes are the same currency.
    pub proof fn lemma_code_injective(a: Currency, b: Currency)
        requires
            a.spec_code() == b.spec_code(),
        ensures
            a == b,
    {
        reveal_strlit("AUD");
        reveal_strlit("CAD");
        reveal_strlit("CHF");
        reveal_strlit("CNY");
        reveal_strlit("DKK");
        reveal_strlit("EUR");
        reveal_strlit("GBP");
        reveal_strlit("JPY");
        reveal_strlit("NOK");
        reveal_strlit("NZD");
        reveal_strlit("SEK");
        reveal_strlit("USD");
        // The first two characters already tell every pair of codes
        // apart; naming them lets the solver compare any two codes.
        assert(("AUD"@)[0] == 'A' && ("AUD"@)[1] == 'U');
        assert(("CAD"@)[0] == 'C' && ("CAD"@)[1] == 'A');
        assert(("CHF"@)[0] == 'C' && ("CHF"@)[1] == 'H');
        assert(("CNY"@)[0] == 'C' && ("CNY"@)[1] == 'N');
        assert(("DKK"@)[0] == 'D' && ("DKK"@)[1] == 'K');
        assert(("EUR"@)[0] == 'E' && ("EUR"@)[1] == 'U');
        assert(("GBP"@)[0] == 'G' && ("GBP"@)[1] == 'B');
        assert(("JPY"@)[0] == 'J' && ("JPY"@)[1] == 'P');
        assert(("NOK"@)[0] == 'N' && ("NOK"@)[1] == 'O');
        assert(("NZD"@)[0] == 'N' && ("NZD"@)[1] == 'Z');
        assert(("SEK"@)[0] == 'S' && ("SEK"@)[1] == 'E');
        assert(("USD"@)[0] == 'U' && ("USD"@)[1] == 'S');
    }
}

} // verus!
