//! Reads the response to a query for an exchange rate.
//!
//! A response is a JSON object of one member, the envelope, which is a JSON
//! object of seven members, each a JSON string: the codes and the names of
//! the two currencies, the rate, the date of the rate and the time zone of
//! that date.
//!
//! The shape is looked at first: a response with a member too few or too
//! many, or with a value that is no string, is refused as a whole. Then the
//! values are looked at in this order: the rate, which is a decimal number;
//! the date; the time zone, which is UTC; and the sign of the rate, which is
//! positive. The first of them that is not accepted gives the error.

use crate::datetime::DateTime;
use crate::decimal::decimal_of;
use crate::deserialize::{datetime_of, from_str, number_of, to_datetime, UTC};
use crate::error::{outcome, Error, ErrorView, Invalid, InvalidView};
use crate::exchange_rate::{Currency, CurrencyView, ExchangeRate, ExchangeRateView};
use crate::json::{
    json_members, json_strings, read_members, read_strings, Member,
};
use crate::text::{fields_view, find, lemma_names_cover_fields, lookup, same_text, Field};
use vstd::prelude::*;
use vstd::string::*;

verus! {

/// The one member of a response, which holds the exchange rate.
pub const ENVELOPE: &'static str = "Realtime Currency Exchange Rate";

pub const FROM_CODE: &'static str = "1. From_Currency Code";

pub const FROM_NAME: &'static str = "2. From_Currency Name";

pub const TO_CODE: &'static str = "3. To_Currency Code";

pub const TO_NAME: &'static str = "4. To_Currency Name";

pub const RATE: &'static str = "5. Exchange Rate";

pub const LAST_REFRESHED: &'static str = "6. Last Refreshed";

pub const TIME_ZONE: &'static str = "7. Time Zone";

/// The seven members of the envelope, each as the text that the response
/// holds for it.
#[derive(Clone, Debug, PartialEq, Eq)]
pub struct RealtimeExchangeRate {
    pub from_code: String,
    pub from_name: String,
    pub to_code: String,
    pub to_name: String,
    pub rate: String,
    pub last_refreshed: String,
    pub time_zone: String,
}

pub struct RealtimeExchangeRateView {
    pub from_code: Seq<char>,
    pub from_name: Seq<char>,
    pub to_code: Seq<char>,
    pub to_name: Seq<char>,
    pub rate: Seq<char>,
    pub last_refreshed: Seq<char>,
    pub time_zone: Seq<char>,
}

impl View for RealtimeExchangeRate {
    type V = RealtimeExchangeRateView;

    open spec fn view(&self) -> RealtimeExchangeRateView {
        RealtimeExchangeRateView {
            from_code: self.from_code@,
            from_name: self.from_name@,
            to_code: self.to_code@,
            to_name: self.to_name@,
            rate: self.rate@,
            last_refreshed: self.last_refreshed@,
            time_zone: self.time_zone@,
        }
    }
}

/// The envelope that `fields` make up: there are seven of them, and each of
/// the seven names is among them.
pub open spec fn record_of(fields: Seq<(Seq<char>, Seq<char>)>) -> Option<
    RealtimeExchangeRateView,
> {
    if fields.len() == 7 && lookup(fields, FROM_CODE@) is Some && lookup(fields, FROM_NAME@) is Some
        && lookup(fields, TO_CODE@) is Some && lookup(fields, TO_NAME@) is Some && lookup(
        fields,
        RATE@,
    ) is Some && lookup(fields, LAST_REFRESHED@) is Some && lookup(fields, TIME_ZONE@) is Some {
        Some(
            RealtimeExchangeRateView {
                from_code: lookup(fields, FROM_CODE@)->0,
                from_name: lookup(fields, FROM_NAME@)->0,
                to_code: lookup(fields, TO_CODE@)->0,
                to_name: lookup(fields, TO_NAME@)->0,
                rate: lookup(fields, RATE@)->0,
                last_refreshed: lookup(fields, LAST_REFRESHED@)->0,
                time_zone: lookup(fields, TIME_ZONE@)->0,
            },
        )
    } else {
        None
    }
}

/// The names of the seven members of the envelope.
pub open spec fn member_names() -> Seq<Seq<char>> {
    seq![FROM_CODE@, FROM_NAME@, TO_CODE@, TO_NAME@, RATE@, LAST_REFRESHED@, TIME_ZONE@]
}

/// Fields that make up an envelope hold its seven members and nothing
/// else: each of them is called by one of the seven names.
pub proof fn lemma_record_has_no_other_member(fields: Seq<(Seq<char>, Seq<char>)>)
    requires
        record_of(fields) is Some,
    ensures
        forall|i: int| 0 <= i < fields.len() ==> member_names().contains(#[trigger] fields[i].0),
{
    let names = member_names();
    reveal_strlit("1. From_Currency Code");
    reveal_strlit("2. From_Currency Name");
    reveal_strlit("3. To_Currency Code");
    reveal_strlit("4. To_Currency Name");
    reveal_strlit("5. Exchange Rate");
    reveal_strlit("6. Last Refreshed");
    reveal_strlit("7. Time Zone");
    assert(names[0][0] == '1' && names[1][0] == '2' && names[2][0] == '3' && names[3][0] == '4'
        && names[4][0] == '5' && names[5][0] == '6' && names[6][0] == '7');
    lemma_names_cover_fields(fields, names);
}

/// Takes the seven members of the envelope from `fields`, which hold them
/// and nothing else.
pub fn record(fields: &Vec<Field>) -> (out: Option<RealtimeExchangeRate>)
    ensures
        match out {
            Some(record) => record_of(fields_view(fields@)) == Some(record@),
            None => record_of(fields_view(fields@)) is None,
        },
{
    if fields.len() != 7 {
        return None;
    }
    match (
        find(fields, FROM_CODE),
        find(fields, FROM_NAME),
        find(fields, TO_CODE),
        find(fields, TO_NAME),
        find(fields, RATE),
        find(fields, LAST_REFRESHED),
        find(fields, TIME_ZONE),
    ) {
        (
            Some(from_code),
            Some(from_name),
            Some(to_code),
            Some(to_name),
            Some(rate),
            Some(last_refreshed),
            Some(time_zone),
        ) => Some(
            RealtimeExchangeRate {
                from_code: from_code.clone(),
                from_name: from_name.clone(),
                to_code: to_code.clone(),
                to_name: to_name.clone(),
                rate: rate.clone(),
                last_refreshed: last_refreshed.clone(),
                time_zone: time_zone.clone(),
            },
        ),
        _ => None,
    }
}

/// The exchange rate that `record` stands for, where `date` is what was read
/// from its date: the rate is a decimal number, the date was read, the time
/// zone is UTC, and the rate is positive. The first of these that fails, in
/// this order, gives the error: a response that names another time zone is
/// refused for that, whatever the sign of its rate.
pub open spec fn exchange_rate_of(
    record: RealtimeExchangeRateView,
    date: Option<DateTime>,
) -> Result<ExchangeRateView, ErrorView> {
    match (number_of(record.rate), date) {
        (Err(error), _) => Err(error),
        (Ok(_), None) => Err(
            ErrorView::ValidationError(InvalidView::DateTime(record.last_refreshed)),
        ),
        (Ok(rate), Some(date)) => if record.time_zone != UTC@ {
            Err(ErrorView::ValidationError(InvalidView::TimeZone(record.time_zone)))
        } else if rate.mantissa <= 0 {
            Err(ErrorView::ValidationError(InvalidView::Rate(record.rate)))
        } else {
            Ok(
                ExchangeRateView {
                    from: CurrencyView { name: record.from_name, code: record.from_code },
                    to: CurrencyView { name: record.to_name, code: record.to_code },
                    rate,
                    date,
                },
            )
        },
    }
}

/// Puts an exchange rate together from the members of the envelope and from
/// what was read from its date.
pub fn assemble(record: RealtimeExchangeRate, date: Option<DateTime>) -> (out: Result<
    ExchangeRate,
    Error,
>)
    ensures
        outcome(out) == exchange_rate_of(record@, date),
        out matches Ok(exchange_rate) ==> exchange_rate.rate.wf(),
        out matches Ok(exchange_rate) ==> exchange_rate.rate@.mantissa > 0,
{
    let rate = from_str(record.rate.as_str())?;
    let date = match date {
        Some(date) => date,
        None => {
            return Err(Error::ValidationError(Invalid::DateTime(record.last_refreshed)));
        },
    };
    if !same_text(record.time_zone.as_str(), UTC) {
        return Err(Error::ValidationError(Invalid::TimeZone(record.time_zone)));
    }
    if !rate.is_positive() {
        return Err(Error::ValidationError(Invalid::Rate(record.rate)));
    }
    Ok(
        ExchangeRate {
            from: Currency { name: record.from_name, code: record.from_code },
            to: Currency { name: record.to_name, code: record.to_code },
            rate,
            date,
        },
    )
}

/// The JSON text of the envelope, where `members` are the envelope and
/// nothing else.
pub open spec fn envelope_of(members: Seq<(Seq<char>, Seq<u8>)>) -> Option<Seq<u8>> {
    if members.len() == 1 && members[0].0 == ENVELOPE@ {
        Some(members[0].1)
    } else {
        None
    }
}

/// Takes the envelope from the members of a response, which hold it and
/// nothing else.
pub fn envelope(members: &Vec<Member>) -> (out: Option<&Vec<u8>>)
    ensures
        match out {
            Some(document) => envelope_of(fields_view(members@)) == Some(document@),
            None => envelope_of(fields_view(members@)) is None,
        },
{
    if members.len() == 1 && same_text(members[0].name.as_str(), ENVELOPE) {
        Some(&members[0].value)
    } else {
        None
    }
}

/// The envelope that a response holds: the response is a JSON object whose
/// one member is the envelope, and the envelope a JSON object of strings
/// that make up its seven members.
pub open spec fn record_in(document: Seq<u8>) -> Option<RealtimeExchangeRateView> {
    match json_members(document) {
        Some(members) => match envelope_of(members) {
            Some(envelope) => match json_strings(envelope) {
                Some(fields) => record_of(fields),
                None => None,
            },
            None => None,
        },
        None => None,
    }
}

/// What a response gives.
pub open spec fn parsed(document: Seq<u8>) -> Result<ExchangeRateView, ErrorView> {
    match record_in(document) {
        Some(record) => exchange_rate_of(record, datetime_of(record.last_refreshed)),
        None => Err(ErrorView::DeserializationError),
    }
}

/// Whether the rate and the date of `record` can be read.
pub open spec fn values_read(record: RealtimeExchangeRateView) -> bool {
    &&& decimal_of(record.rate) is Some
    &&& datetime_of(record.last_refreshed) is Some
}

/// A response that speaks in UTC, whose rate and date can be read and whose
/// rate is positive, gives an exchange rate: its rate is the number that
/// the digits of the response spell, however many they are, its date the
/// one that was read, its currencies those of the response.
pub proof fn lemma_utc_is_read(document: Seq<u8>)
    requires
        record_in(document) matches Some(record) && values_read(record) && record.time_zone
            == UTC@ && decimal_of(record.rate)->0.mantissa > 0,
    ensures
        parsed(document) matches Ok(exchange_rate) && ({
            let record = record_in(document)->0;
            &&& Some(exchange_rate.rate) == decimal_of(record.rate)
            &&& Some(exchange_rate.date) == datetime_of(record.last_refreshed)
            &&& exchange_rate.from == CurrencyView {
                name: record.from_name,
                code: record.from_code,
            }
            &&& exchange_rate.to == CurrencyView { name: record.to_name, code: record.to_code }
        }),
{
}

/// A response that speaks in another time zone than UTC is refused, and the
/// error holds that time zone, where the rate and the date of the response
/// can be read, whatever the rate is.
pub proof fn lemma_other_time_zone_is_refused(document: Seq<u8>)
    requires
        record_in(document) matches Some(record) && values_read(record) && record.time_zone
            != UTC@,
    ensures
        parsed(document) == Err::<ExchangeRateView, ErrorView>(
            ErrorView::ValidationError(InvalidView::TimeZone(record_in(document)->0.time_zone)),
        ),
{
}

/// Reads an exchange rate from the body of a response.
pub fn parse(document: &[u8]) -> (out: Result<ExchangeRate, Error>)
    ensures
        outcome(out) == parsed(document@),
        out matches Ok(exchange_rate) ==> exchange_rate.wf(),
{
    let members = read_members(document).ok_or(Error::DeserializationError)?;
    let envelope = envelope(&members).ok_or(Error::DeserializationError)?;
    let fields = read_strings(envelope.as_slice()).ok_or(Error::DeserializationError)?;
    let record = record(&fields).ok_or(Error::DeserializationError)?;
    let date = to_datetime(record.last_refreshed.as_str());
    assemble(record, date)
}

} // verus!
