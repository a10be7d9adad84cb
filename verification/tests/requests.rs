use alpha_vantage::api::{APIRequest, APIRequestBuilder, API_KEY, FUNCTION, URL_ENDPOINT};
use alpha_vantage::client::{
    check_status, read_exchange_rate, read_time_series, Client, CURRENCY_EXCHANGE_RATE,
    FROM_CURRENCY, INTERVAL, STATUS_OK, SYMBOL, TO_CURRENCY,
};
use alpha_vantage::error::{Error, Invalid};
use alpha_vantage::text::{find, same_text, Field};
use alpha_vantage::time_series::{Function, IntradayInterval};

fn field(name: &str, value: &str) -> Field {
    Field { name: name.to_string(), value: value.to_string() }
}

fn query(request: &APIRequest) -> Vec<(&str, &str)> {
    request.query.iter().map(|f| (f.name.as_str(), f.value.as_str())).collect()
}

const INTERVALS: [(IntradayInterval, &str); 5] = [
    (IntradayInterval::OneMinute, "1min"),
    (IntradayInterval::FiveMinutes, "5min"),
    (IntradayInterval::FifteenMinutes, "15min"),
    (IntradayInterval::ThirtyMinutes, "30min"),
    (IntradayInterval::SixtyMinutes, "60min"),
];

#[test]
fn names_are_those_of_the_api() {
    assert_eq!(URL_ENDPOINT, "https://www.alphavantage.co/query");
    assert_eq!(FUNCTION, "function");
    assert_eq!(API_KEY, "apikey");
    assert_eq!(SYMBOL, "symbol");
    assert_eq!(INTERVAL, "interval");
    assert_eq!(FROM_CURRENCY, "from_currency");
    assert_eq!(TO_CURRENCY, "to_currency");
    assert_eq!(CURRENCY_EXCHANGE_RATE, "CURRENCY_EXCHANGE_RATE");
    assert_eq!(STATUS_OK, 200);
}

#[test]
fn function_names_are_those_of_the_api() {
    assert_eq!(Function::Daily.name(), "TIME_SERIES_DAILY");
    assert_eq!(Function::Weekly.name(), "TIME_SERIES_WEEKLY");
    assert_eq!(Function::Monthly.name(), "TIME_SERIES_MONTHLY");
    for (interval, _) in INTERVALS {
        assert_eq!(Function::IntraDay(interval).name(), "TIME_SERIES_INTRADAY");
    }
}

#[test]
fn interval_tokens_are_those_of_the_api() {
    for (interval, token) in INTERVALS {
        assert_eq!(interval.to_string(), token);
    }
}

#[test]
fn builder_puts_function_and_key_first() {
    let builder = APIRequestBuilder::new("demo");
    let request = builder.create("SOME_FUNCTION", vec![field("b", "2"), field("a", "1")]);
    assert_eq!(request.endpoint, "https://www.alphavantage.co/query");
    assert_eq!(
        query(&request),
        vec![("function", "SOME_FUNCTION"), ("apikey", "demo"), ("b", "2"), ("a", "1")]
    );
    let request = builder.create("", Vec::new());
    assert_eq!(query(&request), vec![("function", ""), ("apikey", "demo")]);
}

#[test]
fn builder_passes_values_through_unchanged() {
    let builder = APIRequestBuilder::new("k&y=1 2");
    let request = builder.create("F", vec![field("symbol", "BRK.B & C/D?x=\u{e9}%20")]);
    assert_eq!(
        query(&request),
        vec![("function", "F"), ("apikey", "k&y=1 2"), ("symbol", "BRK.B & C/D?x=\u{e9}%20")]
    );
}

#[test]
fn request_get_reads_the_first_of_a_name() {
    let builder = APIRequestBuilder::new("demo");
    let request =
        builder.create("F", vec![field("x", "1"), field("x", "2"), field("function", "G")]);
    assert_eq!(request.get("x"), Some(&"1".to_string()));
    assert_eq!(request.get("function"), Some(&"F".to_string()));
    assert_eq!(request.get("apikey"), Some(&"demo".to_string()));
    assert_eq!(request.get("y"), None);
    assert_eq!(request.get(""), None);
}

#[test]
fn time_series_request_of_each_function() {
    let client = Client::new("demo");
    for (function, name) in [
        (Function::Daily, "TIME_SERIES_DAILY"),
        (Function::Weekly, "TIME_SERIES_WEEKLY"),
        (Function::Monthly, "TIME_SERIES_MONTHLY"),
    ] {
        let request = client.time_series_request(&function, "MSFT");
        assert_eq!(request.endpoint, "https://www.alphavantage.co/query");
        assert_eq!(
            query(&request),
            vec![("function", name), ("apikey", "demo"), ("symbol", "MSFT")]
        );
    }
}

#[test]
fn intraday_request_holds_the_interval() {
    let client = Client::new("demo");
    for (interval, token) in INTERVALS {
        let request = client.time_series_request(&Function::IntraDay(interval), "MSFT");
        assert_eq!(
            query(&request),
            vec![
                ("function", "TIME_SERIES_INTRADAY"),
                ("apikey", "demo"),
                ("symbol", "MSFT"),
                ("interval", token),
            ]
        );
    }
}

#[test]
fn exchange_rate_request_holds_both_currencies() {
    let client = Client::new("demo");
    let request = client.exchange_rate_request("EUR", "USD");
    assert_eq!(request.endpoint, "https://www.alphavantage.co/query");
    assert_eq!(
        query(&request),
        vec![
            ("function", "CURRENCY_EXCHANGE_RATE"),
            ("apikey", "demo"),
            ("from_currency", "EUR"),
            ("to_currency", "USD"),
        ]
    );
}

#[test]
fn request_gives_back_symbol_and_function() {
    let client = Client::new("secret");
    for symbol in ["MSFT", "", "BRK.B", "function", "a b&c=d", "\u{65e5}\u{672c}"] {
        for function in [
            Function::IntraDay(IntradayInterval::FifteenMinutes),
            Function::Daily,
            Function::Weekly,
            Function::Monthly,
        ] {
            let request = client.time_series_request(&function, symbol);
            assert_eq!(request.get("symbol").map(String::as_str), Some(symbol));
            assert_eq!(request.get("function").map(String::as_str), Some(function.name()));
            assert_eq!(request.get("apikey").map(String::as_str), Some("secret"));
            match function {
                Function::IntraDay(interval) => assert_eq!(
                    request.get("interval").map(String::as_str),
                    Some(interval.to_string())
                ),
                _ => assert_eq!(request.get("interval"), None),
            }
        }
    }
    let request = client.exchange_rate_request("BTC", "apikey");
    assert_eq!(request.get("function").map(String::as_str), Some("CURRENCY_EXCHANGE_RATE"));
    assert_eq!(request.get("from_currency").map(String::as_str), Some("BTC"));
    assert_eq!(request.get("to_currency").map(String::as_str), Some("apikey"));
}

#[test]
fn check_status_accepts_200_only() {
    assert_eq!(check_status(200), Ok(()));
    for status in [0, 100, 199, 201, 204, 301, 400, 401, 404, 429, 500, 503, u16::MAX] {
        assert_eq!(check_status(status), Err(Error::ServerError(status)));
    }
}

#[test]
fn server_error_holds_the_status() {
    let body = br#"{"Realtime Currency Exchange Rate": {}}"#;
    for status in [429, 500, 503] {
        assert_eq!(read_exchange_rate(status, body), Err(Error::ServerError(status)));
        assert_eq!(
            read_time_series(&Function::Daily, status, body),
            Err(Error::ServerError(status))
        );
        assert_eq!(read_exchange_rate(status, b""), Err(Error::ServerError(status)));
    }
}

#[test]
fn status_is_looked_at_before_the_body() {
    let good = br#"{"Realtime Currency Exchange Rate": {
        "1. From_Currency Code": "EUR", "2. From_Currency Name": "Euro",
        "3. To_Currency Code": "USD", "4. To_Currency Name": "United States Dollar",
        "5. Exchange Rate": "1.16665014", "6. Last Refreshed": "2018-06-23 10:27:49",
        "7. Time Zone": "UTC"}}"#;
    let exchange_rate = read_exchange_rate(200, good).unwrap();
    assert_eq!(exchange_rate.rate.digits, vec![1, 1, 6, 6, 6, 5, 0, 1, 4]);
    assert!(!exchange_rate.rate.negative);
    assert_eq!(exchange_rate.rate.scale, 8);
    assert_eq!(read_exchange_rate(404, good), Err(Error::ServerError(404)));
    assert_eq!(read_exchange_rate(200, b"oops"), Err(Error::DeserializationError));
    let other_zone = String::from_utf8(good.to_vec()).unwrap().replace("UTC", "CET");
    assert_eq!(
        read_exchange_rate(200, other_zone.as_bytes()),
        Err(Error::ValidationError(Invalid::TimeZone("CET".to_string())))
    );
    assert_eq!(
        read_exchange_rate(500, other_zone.as_bytes()),
        Err(Error::ServerError(500))
    );
    let no_rate = other_zone.replace("1.16665014", "0");
    assert_eq!(
        read_exchange_rate(200, no_rate.as_bytes()),
        Err(Error::ValidationError(Invalid::TimeZone("CET".to_string())))
    );
}

#[test]
fn same_text_compares_characters() {
    assert!(same_text("", ""));
    assert!(same_text("UTC", "UTC"));
    assert!(!same_text("UTC", "UTc"));
    assert!(!same_text("UTC", "UT"));
    assert!(!same_text("UT", "UTC"));
    assert!(same_text("\u{e9}t\u{e9}", "\u{e9}t\u{e9}"));
    assert!(!same_text("\u{e9}", "e\u{301}"));
}

#[test]
fn find_gives_the_first_of_a_name() {
    let fields = vec![field("a", "1"), field("b", "2"), field("a", "3"), field("", "4")];
    assert_eq!(find(&fields, "a"), Some(&"1".to_string()));
    assert_eq!(find(&fields, "b"), Some(&"2".to_string()));
    assert_eq!(find(&fields, ""), Some(&"4".to_string()));
    assert_eq!(find(&fields, "c"), None);
    assert_eq!(find(&Vec::<Field>::new(), "a"), None);
}

#[test]
fn transport_error_is_a_kind_of_its_own() {
    let error = Error::TransportError("connection refused".to_string());
    assert_eq!(error, Error::TransportError("connection refused".to_string()));
    assert_ne!(error, Error::TransportError("timed out".to_string()));
    assert_ne!(error, Error::ServerError(503));
    assert_ne!(error, Error::DeserializationError);
    assert_ne!(error, Error::ValidationError(Invalid::TimeZone("connection refused".to_string())));
    assert_ne!(check_status(503), Err(error));
}
