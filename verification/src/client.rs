//! The queries of the API: the request of each, and the reading of its
//! response.

use crate::api::{request_of, APIRequest, APIRequestBuilder, API_KEY, FUNCTION};
use crate::error::{outcome, Error, ErrorView};
use crate::exchange_rate::parser::parsed;
use crate::exchange_rate::{ExchangeRate, ExchangeRateView};
use crate::text::{lookup, Field, Named};
use crate::time_series::{Function, IntradayInterval, TimeSeries, TimeSeriesView};
use vstd::prelude::*;
use vstd::string::*;

verus! {

/// The name by which the API knows the query for an exchange rate.
pub const CURRENCY_EXCHANGE_RATE: &'static str = "CURRENCY_EXCHANGE_RATE";

pub const SYMBOL: &'static str = "symbol";

pub const INTERVAL: &'static str = "interval";

pub const FROM_CURRENCY: &'static str = "from_currency";

pub const TO_CURRENCY: &'static str = "to_currency";

/// The one status with which the server hands out a body.
pub const STATUS_OK: u16 = 200;

/// The parameters of a query for a time series: the symbol and, for an
/// intraday series, the interval.
pub open spec fn time_series_params(function: Function, symbol: Seq<char>) -> Seq<
    (Seq<char>, Seq<char>),
> {
    match function {
        Function::IntraDay(interval) => seq![(SYMBOL@, symbol), (INTERVAL@, interval.token())],
        _ => seq![(SYMBOL@, symbol)],
    }
}

/// The parameters of a query for an exchange rate.
pub open spec fn exchange_rate_params(from: Seq<char>, to: Seq<char>) -> Seq<
    (Seq<char>, Seq<char>),
> {
    seq![(FROM_CURRENCY@, from), (TO_CURRENCY@, to)]
}

/// What a response of `status` gives before its body is read.
pub open spec fn status_checked(status: u16) -> Result<(), ErrorView> {
    if status == STATUS_OK {
        Ok(())
    } else {
        Err(ErrorView::ServerError(status))
    }
}

/// Accepts the status 200 and no other.
pub fn check_status(status: u16) -> (out: Result<(), Error>)
    ensures
        outcome(out) == status_checked(status),
{
    if status == STATUS_OK {
        Ok(())
    } else {
        Err(Error::ServerError(status))
    }
}

/// A client of the Alpha Vantage API. It makes the request of each query and
/// reads the response; sending the one and receiving the other is the
/// caller's part.
#[derive(Clone, Debug, PartialEq, Eq)]
pub struct Client {
    builder: APIRequestBuilder,
}

impl View for Client {
    type V = Seq<char>;

    /// The API key.
    closed spec fn view(&self) -> Seq<char> {
        self.builder@
    }
}

impl Client {
    /// Create a new client using the specified API `key`.
    pub fn new(key: &str) -> (client: Client)
        ensures
            client@ == key@,
    {
        Client { builder: APIRequestBuilder::new(key) }
    }

    /// The request for the time series of `symbol` that `function` gives.
    pub fn time_series_request(&self, function: &Function, symbol: &str) -> (request: APIRequest)
        ensures
            request@ == request_of(
                self@,
                function.token(),
                time_series_params(*function, symbol@),
            ),
    {
        let mut params: Vec<Field> = Vec::new();
        params.push(Named { name: SYMBOL.to_owned(), value: symbol.to_owned() });
        if let Function::IntraDay(interval) = function {
            params.push(
                Named { name: INTERVAL.to_owned(), value: interval.to_string().to_owned() },
            );
        }
        assert(crate::text::fields_view(params@) =~= time_series_params(*function, symbol@));
        self.builder.create(function.name(), params)
    }

    /// The request for the exchange rate from the currency specified by
    /// `from_currency_code` to the currency specified by `to_currency_code`.
    pub fn exchange_rate_request(
        &self,
        from_currency_code: &str,
        to_currency_code: &str,
    ) -> (request: APIRequest)
        ensures
            request@ == request_of(
                self@,
                CURRENCY_EXCHANGE_RATE@,
                exchange_rate_params(from_currency_code@, to_currency_code@),
            ),
    {
        let mut params: Vec<Field> = Vec::new();
        params.push(
            Named { name: FROM_CURRENCY.to_owned(), value: from_currency_code.to_owned() },
        );
        params.push(Named { name: TO_CURRENCY.to_owned(), value: to_currency_code.to_owned() });
        assert(crate::text::fields_view(params@) =~= exchange_rate_params(
            from_currency_code@,
            to_currency_code@,
        ));
        self.builder.create(CURRENCY_EXCHANGE_RATE, params)
    }
}

/// What a response of `status` with `body` gives to a query for an exchange
/// rate.
pub open spec fn exchange_rate_response(status: u16, body: Seq<u8>) -> Result<
    ExchangeRateView,
    ErrorView,
> {
    match status_checked(status) {
        Ok(_) => parsed(body),
        Err(error) => Err(error),
    }
}

/// Reads the response to a query for an exchange rate.
pub fn read_exchange_rate(status: u16, body: &[u8]) -> (out: Result<ExchangeRate, Error>)
    ensures
        outcome(out) == exchange_rate_response(status, body@),
        out matches Ok(exchange_rate) ==> exchange_rate.wf(),
{
    check_status(status)?;
    crate::exchange_rate::parser::parse(body)
}

/// What a response of `status` with `body` gives to a query for the time
/// series of `function`.
pub open spec fn time_series_response(function: Function, status: u16, body: Seq<u8>) -> Result<
    TimeSeriesView,
    ErrorView,
> {
    match status_checked(status) {
        Ok(_) => crate::time_series::parser::parsed(function, body),
        Err(error) => Err(error),
    }
}

/// Reads the response to a query for the time series of `function`.
pub fn read_time_series(function: &Function, status: u16, body: &[u8]) -> (out: Result<
    TimeSeries,
    Error,
>)
    ensures
        outcome(out) == time_series_response(*function, status, body@),
        out matches Ok(series) ==> series.wf(),
{
    check_status(status)?;
    crate::time_series::parser::parse(function, body)
}

/// The names of the parameters differ from one another.
proof fn lemma_parameter_names()
    ensures
        FUNCTION@ != API_KEY@,
        FUNCTION@ != SYMBOL@,
        FUNCTION@ != INTERVAL@,
        FUNCTION@ != FROM_CURRENCY@,
        FUNCTION@ != TO_CURRENCY@,
        API_KEY@ != SYMBOL@,
        API_KEY@ != INTERVAL@,
        API_KEY@ != FROM_CURRENCY@,
        API_KEY@ != TO_CURRENCY@,
        SYMBOL@ != INTERVAL@,
        FROM_CURRENCY@ != TO_CURRENCY@,
{
    reveal_strlit("function");
    reveal_strlit("apikey");
    reveal_strlit("symbol");
    reveal_strlit("interval");
    reveal_strlit("from_currency");
    reveal_strlit("to_currency");
    assert(FUNCTION@[0] == 'f' && FROM_CURRENCY@[0] == 'f' && FROM_CURRENCY@[1] == 'r');
    assert(FUNCTION@[1] == 'u');
    assert(API_KEY@[0] == 'a');
    assert(SYMBOL@[0] == 's');
    assert(INTERVAL@[0] == 'i');
    assert(TO_CURRENCY@[0] == 't');
}

/// What each of the five queries sends: its parameters by their names as
/// the API spells them, with the name by which the API knows the queried
/// function in the first place, and the interval of an intraday series in
/// the last.
pub proof fn lemma_queries_as_sent(
    key: Seq<char>,
    symbol: Seq<char>,
    interval: IntradayInterval,
    from: Seq<char>,
    to: Seq<char>,
)
    ensures
        request_of(
            key,
            Function::IntraDay(interval).token(),
            time_series_params(Function::IntraDay(interval), symbol),
        ).query == seq![
            ("function"@, "TIME_SERIES_INTRADAY"@),
            ("apikey"@, key),
            ("symbol"@, symbol),
            ("interval"@, interval.token()),
        ],
        request_of(
            key,
            Function::Daily.token(),
            time_series_params(Function::Daily, symbol),
        ).query == seq![("function"@, "TIME_SERIES_DAILY"@), ("apikey"@, key), ("symbol"@, symbol)],
        request_of(
            key,
            Function::Weekly.token(),
            time_series_params(Function::Weekly, symbol),
        ).query == seq![
            ("function"@, "TIME_SERIES_WEEKLY"@),
            ("apikey"@, key),
            ("symbol"@, symbol),
        ],
        request_of(
            key,
            Function::Monthly.token(),
            time_series_params(Function::Monthly, symbol),
        ).query == seq![
            ("function"@, "TIME_SERIES_MONTHLY"@),
            ("apikey"@, key),
            ("symbol"@, symbol),
        ],
        request_of(key, CURRENCY_EXCHANGE_RATE@, exchange_rate_params(from, to)).query == seq![
            ("function"@, "CURRENCY_EXCHANGE_RATE"@),
            ("apikey"@, key),
            ("from_currency"@, from),
            ("to_currency"@, to),
        ],
{
}

/// The request for a time series gives back what it was made from: read by
/// their names, its parameters are the name of the function, the API key
/// and the symbol as they were given and, for an intraday series, the
/// interval as the API writes it.
pub proof fn lemma_time_series_request_round_trip(
    key: Seq<char>,
    function: Function,
    symbol: Seq<char>,
)
    ensures
        ({
            let request = request_of(key, function.token(), time_series_params(function, symbol));
            &&& request.get(FUNCTION@) == Some(function.token())
            &&& request.get(API_KEY@) == Some(key)
            &&& request.get(SYMBOL@) == Some(symbol)
            &&& request.get(INTERVAL@) == match function {
                Function::IntraDay(interval) => Some(interval.token()),
                _ => None,
            }
        }),
{
    lemma_parameter_names();
    let request = request_of(key, function.token(), time_series_params(function, symbol));
    reveal_with_fuel(lookup, 6);
    let q0 = request.query;
    let q1 = q0.skip(1);
    let q2 = q1.skip(1);
    let q3 = q2.skip(1);
    assert(q0[0] == (FUNCTION@, function.token()));
    assert(q1[0] == (API_KEY@, key));
    assert(q2[0] == (SYMBOL@, symbol));
    if function is IntraDay {
        assert(q3[0].0 == INTERVAL@);
        assert(q3.skip(1).len() == 0);
    } else {
        assert(q3.len() == 0);
    }
}

/// The request for an exchange rate gives back what it was made from: read
/// by their names, its parameters are the name of the query, the API key
/// and the codes of the two currencies as they were given.
pub proof fn lemma_exchange_rate_request_round_trip(
    key: Seq<char>,
    from: Seq<char>,
    to: Seq<char>,
)
    ensures
        ({
            let request = request_of(key, CURRENCY_EXCHANGE_RATE@, exchange_rate_params(from, to));
            &&& request.get(FUNCTION@) == Some(CURRENCY_EXCHANGE_RATE@)
            &&& request.get(API_KEY@) == Some(key)
            &&& request.get(FROM_CURRENCY@) == Some(from)
            &&& request.get(TO_CURRENCY@) == Some(to)
        }),
{
    lemma_parameter_names();
    let request = request_of(key, CURRENCY_EXCHANGE_RATE@, exchange_rate_params(from, to));
    reveal_with_fuel(lookup, 6);
    let q0 = request.query;
    let q1 = q0.skip(1);
    let q2 = q1.skip(1);
    let q3 = q2.skip(1);
    assert(q0[0] == (FUNCTION@, CURRENCY_EXCHANGE_RATE@));
    assert(q1[0] == (API_KEY@, key));
    assert(q2[0] == (FROM_CURRENCY@, from));
    assert(q3[0] == (TO_CURRENCY@, to));
}

/// A response of another status than 200 gives the error that holds that
/// status, whatever its body and whatever was asked for.
pub proof fn lemma_status_is_kept(function: Function, status: u16, body: Seq<u8>)
    requires
        status != STATUS_OK,
    ensures
        exchange_rate_response(status, body) == Err::<ExchangeRateView, ErrorView>(
            ErrorView::ServerError(status),
        ),
        time_series_response(function, status, body) == Err::<TimeSeriesView, ErrorView>(
            ErrorView::ServerError(status),
        ),
{
}

} // verus!
