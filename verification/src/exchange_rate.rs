//! The exchange rate of a pair of currencies.

use crate::datetime::DateTime;
use crate::decimal::{Decimal, DecimalValue};
use vstd::prelude::*;

pub mod parser;

verus! {

/// Represents a currency.
#[derive(Clone, Debug, PartialEq, Eq)]
pub struct Currency {
    /// The currency's name.
    pub name: String,
    /// The currency's code. Can be a physical currency using ISO 4217 or a cryptocurrency.
    pub code: String,
}

pub struct CurrencyView {
    pub name: Seq<char>,
    pub code: Seq<char>,
}

impl View for Currency {
    type V = CurrencyView;

    open spec fn view(&self) -> CurrencyView {
        CurrencyView { name: self.name@, code: self.code@ }
    }
}

/// Represents the exchange rate for a currency pair.
#[derive(Clone, Debug, PartialEq, Eq)]
pub struct ExchangeRate {
    /// Currency to get the exchange rate for.
    pub from: Currency,
    /// Destination currency for the exchange rate.
    pub to: Currency,
    /// Value of the exchange rate.
    pub rate: Decimal,
    /// Date the exchange rate corresponds to, in UTC.
    pub date: DateTime,
}

pub struct ExchangeRateView {
    pub from: CurrencyView,
    pub to: CurrencyView,
    pub rate: DecimalValue,
    pub date: DateTime,
}

impl View for ExchangeRate {
    type V = ExchangeRateView;

    open spec fn view(&self) -> ExchangeRateView {
        ExchangeRateView { from: self.from@, to: self.to@, rate: self.rate@, date: self.date }
    }
}

impl ExchangeRate {
    /// The rate is positive, and the fields of the date lie in their ranges.
    pub open spec fn wf(&self) -> bool {
        &&& self.rate.wf()
        &&& self.rate@.mantissa > 0
        &&& self.date.wf()
    }
}

} // verus!
