//! The currencies in which an order can be priced.

use vstd::prelude::*;
use vstd::string::*;

verus! {

/// A currency, written on the wire as its three upper-case letters.
#[derive(Debug, Clone, Copy, PartialEq, Eq, Structural)]
pub enum Currency {
    NOK,
    SEK,
    DKK,
    ISK,
    GBP,
}

impl Currency {
    /// The three letters that stand for the currency on the wire.
    pub open spec fn spec_code(self) -> Seq<char> {
        match self {
            Currency::NOK => "NOK"@,
            Currency::SEK => "SEK"@,
            Currency::DKK => "DKK"@,
            Currency::ISK => "ISK"@,
            Currency::GBP => "GBP"@,
        }
    }

    /// The currency that a text stands for, if it stands for one.
    pub open spec fn spec_from_code(text: Seq<char>) -> Option<Currency> {
        if text == "NOK"@ {
            Some(Currency::NOK)
        } else if text == "SEK"@ {
            Some(Currency::SEK)
        } else if text == "DKK"@ {
            Some(Currency::DKK)
        } else if text == "ISK"@ {
            Some(Currency::ISK)
        } else if text == "GBP"@ {
            Some(Currency::GBP)
        } else {
            None
        }
    }

    /// The three letters that stand for the currency on the wire.
    pub fn code(self) -> (text: &'static str)
        ensures
            text@ == self.spec_code(),
    {
        match self {
            Currency::NOK => "NOK",
            Currency::SEK => "SEK",
            Currency::DKK => "DKK",
            Currency::ISK => "ISK",
            Currency::GBP => "GBP",
        }
    }

    /// Reads a currency from its three letters. Any other text, and the
    /// letters in lower case too, stand for no currency.
    pub fn from_code(text: &str) -> (currency: Option<Currency>)
        ensures
            currency == Self::spec_from_code(text@),
    {
        let text = text.to_owned();
        if text == "NOK".to_owned() {
            Some(Currency::NOK)
        } else if text == "SEK".to_owned() {
            Some(Currency::SEK)
        } else if text == "DKK".to_owned() {
            Some(Currency::DKK)
        } else if text == "ISK".to_owned() {
            Some(Currency::ISK)
        } else if text == "GBP".to_owned() {
            Some(Currency::GBP)
        } else {
            None
        }
    }

    /// Reading the letters of a currency gives the currency back.
    pub proof fn lemma_code_round_trip(self)
        ensures
            Self::spec_from_code(self.spec_code()) == Some(self),
    {
        reveal_strlit("NOK");
        reveal_strlit("SEK");
        reveal_strlit("DKK");
        reveal_strlit("ISK");
        reveal_strlit("GBP");
        assert("NOK"@[0] == 'N' && "SEK"@[0] == 'S' && "DKK"@[0] == 'D' && "ISK"@[0] == 'I'
            && "GBP"@[0] == 'G');
    }
}

} // verus!
