//! What a payment button stands for: the action it starts, the currency and
//! the language of the checkout page.

use vstd::prelude::*;
use crate::text::lowercase;
use crate::text::same_text;

verus! {

/// What a payment does: pay once, subscribe, or donate a sum of one's choice.
#[derive(Clone, Copy, Debug, PartialEq, Eq, Structural)]
pub enum Action {
    Pay,
    Subscribe,
    PayDonate,
}

/// The currency of a payment.
#[derive(Clone, Copy, Debug, PartialEq, Eq, Structural)]
pub enum Currency {
    USD,
    EUR,
    UAH,
}

/// The language of the checkout page.
#[derive(Clone, Copy, Debug, PartialEq, Eq, Structural)]
pub enum Language {
    UA,
    EN,
}

/// How often a subscription is charged.
#[derive(Clone, Copy, Debug, PartialEq, Eq, Structural)]
pub enum SubscribePeriod {
    Month,
}

impl Action {
    /// The action that a text names: `Pay` for "pay", `Subscribe` for
    /// "subscribe", and `PayDonate` for any other text.
    pub open spec fn named(value: Seq<char>) -> Action {
        if value == "pay"@ {
            Action::Pay
        } else if value == "subscribe"@ {
            Action::Subscribe
        } else {
            Action::PayDonate
        }
    }

    /// The name of the action.
    pub open spec fn value_text(self) -> Seq<char> {
        match self {
            Action::Pay => "pay"@,
            Action::Subscribe => "subscribe"@,
            Action::PayDonate => "paydonate"@,
        }
    }

    /// The action that `value` names.
    pub fn new(value: &str) -> (action: Action)
        ensures
            action == Action::named(value@),
    {
        if same_text(value, "pay") {
            Action::Pay
        } else if same_text(value, "subscribe") {
            Action::Subscribe
        } else {
            Action::PayDonate
        }
    }

    /// The name of the action.
    pub fn value(&self) -> (name: String)
        ensures
            name@ == self.value_text(),
    {
        match self {
            Action::Pay => "pay".to_owned(),
            Action::Subscribe => "subscribe".to_owned(),
            Action::PayDonate => "paydonate".to_owned(),
        }
    }

    /// Whether the action starts a subscription.
    pub fn is_subscription(&self) -> (subscribes: bool)
        ensures
            subscribes == (*self == Action::Subscribe),
    {
        match self {
            Action::Subscribe => true,
            _ => false,
        }
    }
}

impl Currency {
    /// The currency that a text in lower case names: `EUR` for "eur", `UAH`
    /// for "uah", and `USD` for any other text.
    pub open spec fn named_in_lowercase(lower: Seq<char>) -> Currency {
        if lower == "eur"@ {
            Currency::EUR
        } else if lower == "uah"@ {
            Currency::UAH
        } else {
            Currency::USD
        }
    }

    /// The code of the currency.
    pub open spec fn code_text(self) -> Seq<char> {
        match self {
            Currency::USD => "USD"@,
            Currency::EUR => "EUR"@,
            Currency::UAH => "UAH"@,
        }
    }

    /// The code of the currency.
    pub fn as_string(&self) -> (code: String)
        ensures
            code@ == self.code_text(),
    {
        match self {
            Currency::USD => "USD".to_owned(),
            Currency::EUR => "EUR".to_owned(),
            Currency::UAH => "UAH".to_owned(),
        }
    }

    /// The currency that a text in lower case names.
    pub fn from_lowercase(lower: &str) -> (currency: Currency)
        ensures
            currency == Currency::named_in_lowercase(lower@),
    {
        if same_text(lower, "eur") {
            Currency::EUR
        } else if same_text(lower, "uah") {
            Currency::UAH
        } else {
            Currency::USD
        }
    }

    /// The currency that `currency` names, in whatever case it is written.
    pub fn new(currency: &str) -> (named: Currency)
        ensures
            named == Currency::named_in_lowercase(lowercase(currency@)),
    {
        let lower = currency.to_lowercase();
        Currency::from_lowercase(lower.as_str())
    }
}

impl Language {
    /// The language that a text names: `UA` for "ua", and `EN` for any other
    /// text.
    pub open spec fn named(language: Seq<char>) -> Language {
        if language == "ua"@ {
            Language::UA
        } else {
            Language::EN
        }
    }

    /// The code of the language.
    pub open spec fn code_text(self) -> Seq<char> {
        match self {
            Language::UA => "ua"@,
            Language::EN => "en"@,
        }
    }

    /// The code of the language.
    pub fn as_string(&self) -> (code: String)
        ensures
            code@ == self.code_text(),
    {
        match self {
            Language::UA => "ua".to_owned(),
            Language::EN => "en".to_owned(),
        }
    }

    /// The language that `language` names.
    pub fn new(language: &str) -> (named: Language)
        ensures
            named == Language::named(language@),
    {
        if same_text(language, "ua") {
            Language::UA
        } else {
            Language::EN
        }
    }

    /// The label of the button for a sum of one's choice.
    pub open spec fn custom_sum_text(self) -> Seq<char> {
        match self {
            Language::UA => "\u{406}\u{43d}\u{448}\u{430} \u{441}\u{443}\u{43c}\u{430}"@,
            Language::EN => "Custom"@,
        }
    }

    /// The label of the button for a sum of one's choice.
    pub fn custom_sum_label(&self) -> (label: String)
        ensures
            label@ == self.custom_sum_text(),
    {
        match self {
            Language::UA => "\u{406}\u{43d}\u{448}\u{430} \u{441}\u{443}\u{43c}\u{430}".to_owned(),
            Language::EN => "Custom".to_owned(),
        }
    }
}

impl SubscribePeriod {
    /// The name of the period.
    pub open spec fn name_text(self) -> Seq<char> {
        "month"@
    }

    /// The name of the period.
    pub fn as_string(&self) -> (name: String)
        ensures
            name@ == self.name_text(),
    {
        "month".to_owned()
    }
}

} // verus!
