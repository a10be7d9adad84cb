use alpha_vantage::datetime::DateTime;
use alpha_vantage::decimal::Decimal;
use alpha_vantage::deserialize::DATETIME_FORMAT;
use alpha_vantage::error::{Error, Invalid};
use alpha_vantage::exchange_rate::parser::{self, RealtimeExchangeRate};
use alpha_vantage::exchange_rate::{Currency, ExchangeRate};
use alpha_vantage::json::Member;
use alpha_vantage::text::Field;
use chrono::{NaiveDate, NaiveDateTime, TimeZone, Utc};

const FIXTURE: &str = r#"{
    "Realtime Currency Exchange Rate": {
        "1. From_Currency Code": "EUR",
        "2. From_Currency Name": "Euro",
        "3. To_Currency Code": "USD",
        "4. To_Currency Name": "United States Dollar",
        "5. Exchange Rate": "1.16665014",
        "6. Last Refreshed": "2018-06-23 10:27:49",
        "7. Time Zone": "UTC"
    }
}"#;

fn as_f64(decimal: &Decimal) -> f64 {
    let sign = if decimal.negative { "-" } else { "" };
    let digits: String = decimal.digits.iter().map(|d| char::from(b'0' + d)).collect();
    format!("{}0{}e-{}", sign, digits, decimal.scale).parse().unwrap()
}

fn decimal(mantissa: i64, scale: usize) -> Decimal {
    let digits = if mantissa == 0 {
        Vec::new()
    } else {
        mantissa.unsigned_abs().to_string().bytes().map(|b| b - b'0').collect()
    };
    Decimal { negative: mantissa < 0, digits, scale }
}

fn as_chrono(moment: &DateTime) -> chrono::DateTime<Utc> {
    NaiveDate::from_ymd_opt(moment.year, moment.month, moment.day)
        .unwrap()
        .and_hms_nano_opt(moment.hour, moment.minute, moment.second, moment.nanosecond)
        .unwrap()
        .and_utc()
}

fn document(fields: &[(&str, &str)]) -> String {
    let members: Vec<String> =
        fields.iter().map(|(name, value)| format!("{:?}: {:?}", name, value)).collect();
    format!("{{\"Realtime Currency Exchange Rate\": {{{}}}}}", members.join(", "))
}

fn fixture_with(name: &str, value: &str) -> String {
    let mut fields = vec![
        ("1. From_Currency Code", "EUR"),
        ("2. From_Currency Name", "Euro"),
        ("3. To_Currency Code", "USD"),
        ("4. To_Currency Name", "United States Dollar"),
        ("5. Exchange Rate", "1.16665014"),
        ("6. Last Refreshed", "2018-06-23 10:27:49"),
        ("7. Time Zone", "UTC"),
    ];
    for field in fields.iter_mut() {
        if field.0 == name {
            field.1 = value;
        }
    }
    document(&fields)
}

fn euro_record() -> RealtimeExchangeRate {
    RealtimeExchangeRate {
        from_code: "EUR".to_string(),
        from_name: "Euro".to_string(),
        to_code: "USD".to_string(),
        to_name: "United States Dollar".to_string(),
        rate: "1.16665014".to_string(),
        last_refreshed: "2018-06-23 10:27:49".to_string(),
        time_zone: "UTC".to_string(),
    }
}

fn moment() -> DateTime {
    DateTime { year: 2018, month: 6, day: 23, hour: 10, minute: 27, second: 49, nanosecond: 0 }
}

#[test]
fn parse() {
    let data: &[u8] = FIXTURE.as_bytes();
    let exchange_rate = parser::parse(data).expect("failed to parse exchange rate");
    let date = Utc.from_utc_datetime(
        &NaiveDateTime::parse_from_str("2018-06-23 10:27:49", DATETIME_FORMAT).unwrap(),
    );
    assert_eq!(
        exchange_rate.from,
        Currency { name: "Euro".to_string(), code: "EUR".to_string() }
    );
    assert_eq!(
        exchange_rate.to,
        Currency { name: "United States Dollar".to_string(), code: "USD".to_string() }
    );
    assert_eq!(as_f64(&exchange_rate.rate), 1.16665014);
    assert_eq!(as_chrono(&exchange_rate.date), date);
}

#[test]
fn parse_gives_exact_rate_and_date() {
    let exchange_rate = parser::parse(FIXTURE.as_bytes()).unwrap();
    assert_eq!(
        exchange_rate,
        ExchangeRate {
            from: Currency { name: "Euro".to_string(), code: "EUR".to_string() },
            to: Currency { name: "United States Dollar".to_string(), code: "USD".to_string() },
            rate: decimal(116665014, 8),
            date: moment(),
        }
    );
}

#[test]
fn parse_takes_members_in_any_order() {
    let text = document(&[
        ("7. Time Zone", "UTC"),
        ("5. Exchange Rate", "0.00001234"),
        ("1. From_Currency Code", "BTC"),
        ("3. To_Currency Code", "CNY"),
        ("2. From_Currency Name", "Bitcoin"),
        ("6. Last Refreshed", "2019-01-02 03:04:05"),
        ("4. To_Currency Name", "Chinese Yuan"),
    ]);
    let exchange_rate = parser::parse(text.as_bytes()).unwrap();
    assert_eq!(exchange_rate.from.code, "BTC");
    assert_eq!(exchange_rate.from.name, "Bitcoin");
    assert_eq!(exchange_rate.to.code, "CNY");
    assert_eq!(exchange_rate.to.name, "Chinese Yuan");
    assert_eq!(exchange_rate.rate, decimal(1234, 8));
    assert_eq!(
        exchange_rate.date,
        DateTime { year: 2019, month: 1, day: 2, hour: 3, minute: 4, second: 5, nanosecond: 0 }
    );
}

#[test]
fn parse_refuses_other_time_zone() {
    let text = fixture_with("7. Time Zone", "US/Eastern");
    assert_eq!(
        parser::parse(text.as_bytes()),
        Err(Error::ValidationError(Invalid::TimeZone("US/Eastern".to_string())))
    );
}

#[test]
fn parse_time_zone_is_matched_exactly() {
    for zone in ["utc", "UTC ", " UTC", "", "GMT", "Etc/UTC"] {
        let text = fixture_with("7. Time Zone", zone);
        assert_eq!(
            parser::parse(text.as_bytes()),
            Err(Error::ValidationError(Invalid::TimeZone(zone.to_string())))
        );
    }
}

#[test]
fn parse_refuses_rate_that_is_no_number() {
    for rate in ["abc", "", "1,5", "1.2.3", "1e5", "NaN", "inf", "0x10", " 1.5"] {
        let text = fixture_with("5. Exchange Rate", rate);
        assert_eq!(
            parser::parse(text.as_bytes()),
            Err(Error::ValidationError(Invalid::Number(rate.to_string())))
        );
    }
}

#[test]
fn parse_refuses_rate_that_is_not_positive() {
    for rate in ["0", "0.000", "-1.5", "-0"] {
        let text = fixture_with("5. Exchange Rate", rate);
        assert_eq!(
            parser::parse(text.as_bytes()),
            Err(Error::ValidationError(Invalid::Rate(rate.to_string())))
        );
    }
}

#[test]
fn parse_refuses_date_of_another_format() {
    for date in [
        "2018-06-23",
        "23/06/2018 10:27:49",
        "2018-06-23T10:27:49Z",
        "",
        "2018-02-30 10:27:49",
        "2018-06-23 24:00:00",
    ] {
        let text = fixture_with("6. Last Refreshed", date);
        assert_eq!(
            parser::parse(text.as_bytes()),
            Err(Error::ValidationError(Invalid::DateTime(date.to_string())))
        );
    }
}

#[test]
fn parse_reports_rate_before_date_before_time_zone() {
    let text = document(&[
        ("1. From_Currency Code", "EUR"),
        ("2. From_Currency Name", "Euro"),
        ("3. To_Currency Code", "USD"),
        ("4. To_Currency Name", "United States Dollar"),
        ("5. Exchange Rate", "abc"),
        ("6. Last Refreshed", "never"),
        ("7. Time Zone", "US/Eastern"),
    ]);
    assert_eq!(
        parser::parse(text.as_bytes()),
        Err(Error::ValidationError(Invalid::Number("abc".to_string())))
    );
    let text = document(&[
        ("1. From_Currency Code", "EUR"),
        ("2. From_Currency Name", "Euro"),
        ("3. To_Currency Code", "USD"),
        ("4. To_Currency Name", "United States Dollar"),
        ("5. Exchange Rate", "1.5"),
        ("6. Last Refreshed", "never"),
        ("7. Time Zone", "US/Eastern"),
    ]);
    assert_eq!(
        parser::parse(text.as_bytes()),
        Err(Error::ValidationError(Invalid::DateTime("never".to_string())))
    );
}

#[test]
fn parse_refuses_what_is_no_json() {
    for text in ["", "not json", "{", "[]", "null", "42", "\"text\"", "{} trailing"] {
        assert_eq!(parser::parse(text.as_bytes()), Err(Error::DeserializationError));
    }
    assert_eq!(parser::parse(&[0xff, 0xfe, 0x00]), Err(Error::DeserializationError));
}

#[test]
fn parse_refuses_other_envelope() {
    assert_eq!(parser::parse(b"{}"), Err(Error::DeserializationError));
    assert_eq!(
        parser::parse(br#"{"Error Message": "Invalid API call."}"#),
        Err(Error::DeserializationError)
    );
    let text =
        FIXTURE.replace("Realtime Currency Exchange Rate", "Realtime Currency Exchange rate");
    assert_eq!(parser::parse(text.as_bytes()), Err(Error::DeserializationError));
    let text = format!("{}, \"Note\": \"thank you\"}}", FIXTURE.trim_end().trim_end_matches('}'));
    assert_eq!(text.matches("Note").count(), 1);
    let text = format!("{}}}", text);
    assert_eq!(parser::parse(text.as_bytes()), Err(Error::DeserializationError));
}

#[test]
fn parse_refuses_missing_member() {
    let text = document(&[
        ("1. From_Currency Code", "EUR"),
        ("2. From_Currency Name", "Euro"),
        ("3. To_Currency Code", "USD"),
        ("4. To_Currency Name", "United States Dollar"),
        ("5. Exchange Rate", "1.16665014"),
        ("6. Last Refreshed", "2018-06-23 10:27:49"),
    ]);
    assert_eq!(parser::parse(text.as_bytes()), Err(Error::DeserializationError));
}

#[test]
fn parse_refuses_extra_member() {
    let text = document(&[
        ("1. From_Currency Code", "EUR"),
        ("2. From_Currency Name", "Euro"),
        ("3. To_Currency Code", "USD"),
        ("4. To_Currency Name", "United States Dollar"),
        ("5. Exchange Rate", "1.16665014"),
        ("6. Last Refreshed", "2018-06-23 10:27:49"),
        ("7. Time Zone", "UTC"),
        ("8. Bid Price", "1.16"),
    ]);
    assert_eq!(parser::parse(text.as_bytes()), Err(Error::DeserializationError));
}

#[test]
fn parse_refuses_member_of_another_type() {
    let text = FIXTURE.replace("\"1.16665014\"", "1.16665014");
    assert_eq!(parser::parse(text.as_bytes()), Err(Error::DeserializationError));
    let text = FIXTURE.replace("\"Euro\"", "null");
    assert_eq!(parser::parse(text.as_bytes()), Err(Error::DeserializationError));
    let text = r#"{"Realtime Currency Exchange Rate": "EUR"}"#;
    assert_eq!(parser::parse(text.as_bytes()), Err(Error::DeserializationError));
}

#[test]
fn parse_reads_escapes_of_json() {
    let text = FIXTURE.replace("\"Euro\"", r#""€ \"Euro\"""#);
    let exchange_rate = parser::parse(text.as_bytes()).unwrap();
    assert_eq!(exchange_rate.from.name, "\u{20ac} \"Euro\"");
}

#[test]
fn record_takes_the_seven_members() {
    let fields: Vec<Field> = [
        ("3. To_Currency Code", "USD"),
        ("1. From_Currency Code", "EUR"),
        ("2. From_Currency Name", "Euro"),
        ("4. To_Currency Name", "United States Dollar"),
        ("7. Time Zone", "UTC"),
        ("5. Exchange Rate", "1.16665014"),
        ("6. Last Refreshed", "2018-06-23 10:27:49"),
    ]
    .iter()
    .map(|(name, value)| Field { name: name.to_string(), value: value.to_string() })
    .collect();
    assert_eq!(parser::record(&fields), Some(euro_record()));
    assert_eq!(parser::record(&fields[..6].to_vec()), None);
    let mut doubled = fields[..6].to_vec();
    doubled.push(fields[0].clone());
    assert_eq!(parser::record(&doubled), None);
    assert_eq!(parser::record(&Vec::new()), None);
}

#[test]
fn assemble_puts_the_exchange_rate_together() {
    assert_eq!(
        parser::assemble(euro_record(), Some(moment())),
        Ok(ExchangeRate {
            from: Currency { name: "Euro".to_string(), code: "EUR".to_string() },
            to: Currency { name: "United States Dollar".to_string(), code: "USD".to_string() },
            rate: decimal(116665014, 8),
            date: moment(),
        })
    );
}

#[test]
fn assemble_gives_each_error() {
    assert_eq!(
        parser::assemble(euro_record(), None),
        Err(Error::ValidationError(Invalid::DateTime("2018-06-23 10:27:49".to_string())))
    );
    let mut record = euro_record();
    record.rate = "one".to_string();
    assert_eq!(
        parser::assemble(record, Some(moment())),
        Err(Error::ValidationError(Invalid::Number("one".to_string())))
    );
    let mut record = euro_record();
    record.rate = "-1.16665014".to_string();
    assert_eq!(
        parser::assemble(record, Some(moment())),
        Err(Error::ValidationError(Invalid::Rate("-1.16665014".to_string())))
    );
    let mut record = euro_record();
    record.time_zone = "Europe/Lisbon".to_string();
    assert_eq!(
        parser::assemble(record, Some(moment())),
        Err(Error::ValidationError(Invalid::TimeZone("Europe/Lisbon".to_string())))
    );
}

#[test]
fn envelope_is_the_one_member() {
    let envelope = Member {
        name: "Realtime Currency Exchange Rate".to_string(),
        value: b"{}".to_vec(),
    };
    let note = Member { name: "Note".to_string(), value: b"\"x\"".to_vec() };
    assert_eq!(parser::envelope(&vec![envelope.clone()]), Some(&b"{}".to_vec()));
    assert_eq!(parser::envelope(&Vec::new()), None);
    assert_eq!(parser::envelope(&vec![note.clone()]), None);
    assert_eq!(parser::envelope(&vec![envelope.clone(), note.clone()]), None);
    assert_eq!(parser::envelope(&vec![note, envelope]), None);
}

#[test]
fn parse_takes_odd_documents_without_fuss() {
    let deep = format!(
        "{{\"Realtime Currency Exchange Rate\": {}{}}}",
        "[".repeat(100_000),
        "]".repeat(100_000)
    );
    assert_eq!(parser::parse(deep.as_bytes()), Err(Error::DeserializationError));
    let deep = format!("{}{}", "{\"a\":".repeat(100_000), "}".repeat(100_000));
    assert_eq!(parser::parse(deep.as_bytes()), Err(Error::DeserializationError));
    let with_bom = format!("\u{feff}{}", FIXTURE);
    assert_eq!(parser::parse(with_bom.as_bytes()), Err(Error::DeserializationError));
    let lone_surrogate = FIXTURE.replace("\"Euro\"", "\"\\ud800\"");
    assert_eq!(parser::parse(lone_surrogate.as_bytes()), Err(Error::DeserializationError));
    let mut bad_utf8 = FIXTURE.as_bytes().to_vec();
    let at = FIXTURE.find("Euro").unwrap();
    bad_utf8[at] = 0xff;
    assert_eq!(parser::parse(&bad_utf8), Err(Error::DeserializationError));
    let long_rate = fixture_with("5. Exchange Rate", &"9".repeat(100_000));
    let exchange_rate = parser::parse(long_rate.as_bytes()).unwrap();
    assert_eq!(exchange_rate.rate.digits, vec![9; 100_000]);
    assert_eq!(exchange_rate.rate.scale, 0);
}

#[test]
fn parse_refuses_a_name_given_twice() {
    let text = FIXTURE.replace(
        "\"2. From_Currency Name\": \"Euro\",",
        "\"2. From_Currency Name\": \"Ecu\", \"2. From_Currency Name\": \"Euro\",",
    );
    assert!(text != FIXTURE);
    assert_eq!(parser::parse(text.as_bytes()), Err(Error::DeserializationError));
    let text = FIXTURE.replace(
        "\"7. Time Zone\": \"UTC\"",
        "\"7. Time Zone\": \"UTC\", \"7. Time Zone\": \"UTC\"",
    );
    assert!(text != FIXTURE);
    assert_eq!(parser::parse(text.as_bytes()), Err(Error::DeserializationError));
    let envelope = FIXTURE.trim().trim_start_matches('{').trim_end_matches('}').trim();
    let text = format!("{{{}}}, {}}}}}", envelope, envelope);
    assert_eq!(text.matches("Realtime Currency Exchange Rate").count(), 2);
    assert_eq!(parser::parse(text.as_bytes()), Err(Error::DeserializationError));
}

#[test]
fn parse_takes_white_space_around_the_document() {
    let text = format!(" \n\t{}\r\n ", FIXTURE);
    assert!(parser::parse(text.as_bytes()).is_ok());
}

#[test]
fn parse_names_the_time_zone_whatever_the_rate() {
    for rate in ["0", "0.000", "-1.5", "-0", "1.16665014"] {
        let text = fixture_with("5. Exchange Rate", rate).replace("\"UTC\"", "\"US/Eastern\"");
        assert_eq!(
            parser::parse(text.as_bytes()),
            Err(Error::ValidationError(Invalid::TimeZone("US/Eastern".to_string())))
        );
    }
    let mut record = euro_record();
    record.rate = "0".to_string();
    record.time_zone = "US/Eastern".to_string();
    assert_eq!(
        parser::assemble(record, Some(moment())),
        Err(Error::ValidationError(Invalid::TimeZone("US/Eastern".to_string())))
    );
}

#[test]
fn parse_looks_at_the_sign_of_the_rate_last() {
    let text = fixture_with("5. Exchange Rate", "-1.5").replace("2018-06-23 10:27:49", "never");
    assert_eq!(
        parser::parse(text.as_bytes()),
        Err(Error::ValidationError(Invalid::DateTime("never".to_string())))
    );
    let text = fixture_with("5. Exchange Rate", "zero").replace("\"UTC\"", "\"CET\"");
    assert_eq!(
        parser::parse(text.as_bytes()),
        Err(Error::ValidationError(Invalid::Number("zero".to_string())))
    );
    let mut record = euro_record();
    record.rate = "-1".to_string();
    assert_eq!(
        parser::assemble(record, None),
        Err(Error::ValidationError(Invalid::DateTime("2018-06-23 10:27:49".to_string())))
    );
}

#[test]
fn parse_reads_a_rate_of_many_digits() {
    let text = fixture_with("5. Exchange Rate", "1.16665014000000000000000000");
    let exchange_rate = parser::parse(text.as_bytes()).unwrap();
    assert_eq!(exchange_rate.rate.scale, 26);
    assert_eq!(exchange_rate.rate.digits.len(), 27);
    assert_eq!(as_f64(&exchange_rate.rate), 1.16665014);
    let text = fixture_with("5. Exchange Rate", "0.00004312");
    let exchange_rate = parser::parse(text.as_bytes()).unwrap();
    assert_eq!(exchange_rate.rate, decimal(4312, 8));
    assert_eq!(as_f64(&exchange_rate.rate), 0.00004312);
}
