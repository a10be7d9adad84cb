//! Reads the response to a query for a time series.
//!
//! A response is a JSON object of two members. One holds the metadata: what
//! the response says of itself. The other, whose name goes by the function
//! that was asked, holds the series: one member for each period, called by
//! the date of the period, with its prices and its volume. Every value is a
//! JSON string.
//!
//! The shape is looked at first: a response with a member too few or too
//! many, or with a value that is no string, is refused as a whole. Then the
//! values are read, the metadata before the entries, and the entries in the
//! order in which the series hands them out; the first value that is not
//! accepted gives the error. Dates are taken as UTC, and a response that
//! names another time zone is refused. The name of a member of an intraday
//! series is a day with its time, that of any other series a day alone.
//!
//! The entries of the series that comes out stand by their dates, the
//! earliest first, whatever their order in the response; entries of one date
//! keep the order in which they were read.

use crate::datetime::DateTime;
use crate::decimal::decimal_of;
use crate::deserialize::{
    datetime_of, day_of, from_str, moment_of, to_date, to_datetime, to_moment, UTC,
};
use crate::error::{outcome, Error, ErrorView, Invalid, InvalidView};
use crate::json::{
    json_members, json_strings, read_members, read_strings, Member,
};
use crate::text::{fields_view, find, lemma_names_cover_fields, lookup, same_text, Field};
use crate::time_series::{
    ascending, entries_view, insert_entry, lemma_inserted_ascending, lemma_sorted_ascending,
    lemma_sorted_keeps_entries, option_view, sorted, Entry, EntryView, Function,
    IntradayInterval, TimeSeries, TimeSeriesView,
};
use vstd::prelude::*;
use vstd::string::*;

verus! {

/// The member of a response in which it speaks of itself.
pub const META_DATA: &'static str = "Meta Data";

pub const INFORMATION: &'static str = "1. Information";

pub const SYMBOL: &'static str = "2. Symbol";

pub const LAST_REFRESHED: &'static str = "3. Last Refreshed";

pub const INTERVAL: &'static str = "4. Interval";

pub const OPEN: &'static str = "1. open";

pub const HIGH: &'static str = "2. high";

pub const LOW: &'static str = "3. low";

pub const CLOSE: &'static str = "4. close";

pub const VOLUME: &'static str = "5. volume";

/// The member of a response that holds the entries of the series.
pub open spec fn series_key(function: Function) -> Seq<char> {
    match function {
        Function::IntraDay(IntradayInterval::OneMinute) => "Time Series (1min)"@,
        Function::IntraDay(IntradayInterval::FiveMinutes) => "Time Series (5min)"@,
        Function::IntraDay(IntradayInterval::FifteenMinutes) => "Time Series (15min)"@,
        Function::IntraDay(IntradayInterval::ThirtyMinutes) => "Time Series (30min)"@,
        Function::IntraDay(IntradayInterval::SixtyMinutes) => "Time Series (60min)"@,
        Function::Daily => "Time Series (Daily)"@,
        Function::Weekly => "Weekly Time Series"@,
        Function::Monthly => "Monthly Time Series"@,
    }
}

/// The member of a response that holds the entries of the series.
pub fn series_name(function: &Function) -> (name: &'static str)
    ensures
        name@ == series_key(*function),
{
    match function {
        Function::IntraDay(IntradayInterval::OneMinute) => "Time Series (1min)",
        Function::IntraDay(IntradayInterval::FiveMinutes) => "Time Series (5min)",
        Function::IntraDay(IntradayInterval::FifteenMinutes) => "Time Series (15min)",
        Function::IntraDay(IntradayInterval::ThirtyMinutes) => "Time Series (30min)",
        Function::IntraDay(IntradayInterval::SixtyMinutes) => "Time Series (60min)",
        Function::Daily => "Time Series (Daily)",
        Function::Weekly => "Weekly Time Series",
        Function::Monthly => "Monthly Time Series",
    }
}

/// The member of the metadata that says how much of the series the response
/// holds; weekly and monthly series have none.
pub open spec fn output_size_key(function: Function) -> Option<Seq<char>> {
    match function {
        Function::IntraDay(_) => Some("5. Output Size"@),
        Function::Daily => Some("4. Output Size"@),
        _ => None,
    }
}

/// The member of the metadata that says how much of the series the response
/// holds; weekly and monthly series have none.
pub fn output_size_name(function: &Function) -> (name: Option<&'static str>)
    ensures
        match name {
            Some(name) => output_size_key(*function) == Some(name@),
            None => output_size_key(*function) is None,
        },
{
    match function {
        Function::IntraDay(_) => Some("5. Output Size"),
        Function::Daily => Some("4. Output Size"),
        _ => None,
    }
}

/// The member of the metadata that holds the time zone.
pub open spec fn time_zone_key(function: Function) -> Seq<char> {
    match function {
        Function::IntraDay(_) => "6. Time Zone"@,
        Function::Daily => "5. Time Zone"@,
        _ => "4. Time Zone"@,
    }
}

/// The member of the metadata that holds the time zone.
pub fn time_zone_name(function: &Function) -> (name: &'static str)
    ensures
        name@ == time_zone_key(*function),
{
    match function {
        Function::IntraDay(_) => "6. Time Zone",
        Function::Daily => "5. Time Zone",
        _ => "4. Time Zone",
    }
}

/// The count of the members of the metadata.
pub open spec fn meta_count(function: Function) -> nat {
    match function {
        Function::IntraDay(_) => 6,
        Function::Daily => 5,
        _ => 4,
    }
}

/// The members of the metadata, each as the text that the response holds
/// for it.
#[derive(Clone, Debug, PartialEq, Eq)]
pub struct MetaData {
    pub information: String,
    pub symbol: String,
    pub last_refreshed: String,
    /// The interval of an intraday series.
    pub interval: Option<String>,
    pub output_size: Option<String>,
    pub time_zone: String,
}

pub struct MetaDataView {
    pub information: Seq<char>,
    pub symbol: Seq<char>,
    pub last_refreshed: Seq<char>,
    pub interval: Option<Seq<char>>,
    pub output_size: Option<Seq<char>>,
    pub time_zone: Seq<char>,
}

impl View for MetaData {
    type V = MetaDataView;

    open spec fn view(&self) -> MetaDataView {
        MetaDataView {
            information: self.information@,
            symbol: self.symbol@,
            last_refreshed: self.last_refreshed@,
            interval: option_view(self.interval),
            output_size: option_view(self.output_size),
            time_zone: self.time_zone@,
        }
    }
}

/// The interval that the metadata of `function` holds in `fields`.
pub open spec fn interval_in(function: Function, fields: Seq<(Seq<char>, Seq<char>)>) -> Option<
    Seq<char>,
> {
    match function {
        Function::IntraDay(_) => lookup(fields, INTERVAL@),
        _ => None,
    }
}

/// The output size that the metadata of `function` holds in `fields`.
pub open spec fn output_size_in(
    function: Function,
    fields: Seq<(Seq<char>, Seq<char>)>,
) -> Option<Seq<char>> {
    match output_size_key(function) {
        Some(key) => lookup(fields, key),
        None => None,
    }
}

/// The metadata that `fields` make up for `function`: they are as many as
/// its metadata has members, and the name of each member is among them.
pub open spec fn meta_of(function: Function, fields: Seq<(Seq<char>, Seq<char>)>) -> Option<
    MetaDataView,
> {
    if fields.len() == meta_count(function) && lookup(fields, INFORMATION@) is Some && lookup(
        fields,
        SYMBOL@,
    ) is Some && lookup(fields, LAST_REFRESHED@) is Some && (function is IntraDay ==> interval_in(
        function,
        fields,
    ) is Some) && (output_size_key(function) is Some ==> output_size_in(function, fields) is Some)
        && lookup(fields, time_zone_key(function)) is Some {
        Some(
            MetaDataView {
                information: lookup(fields, INFORMATION@)->0,
                symbol: lookup(fields, SYMBOL@)->0,
                last_refreshed: lookup(fields, LAST_REFRESHED@)->0,
                interval: interval_in(function, fields),
                output_size: output_size_in(function, fields),
                time_zone: lookup(fields, time_zone_key(function))->0,
            },
        )
    } else {
        None
    }
}

/// The names of the members of the metadata of `function`.
pub open spec fn meta_names(function: Function) -> Seq<Seq<char>> {
    let common = seq![INFORMATION@, SYMBOL@, LAST_REFRESHED@];
    match function {
        Function::IntraDay(_) => common + seq![
            INTERVAL@,
            output_size_key(function)->0,
            time_zone_key(function),
        ],
        Function::Daily => common + seq![output_size_key(function)->0, time_zone_key(function)],
        _ => common + seq![time_zone_key(function)],
    }
}

/// Fields that make up the metadata of `function` hold its members and
/// nothing else: each of them is called by the name of one.
pub proof fn lemma_meta_has_no_other_member(
    function: Function,
    fields: Seq<(Seq<char>, Seq<char>)>,
)
    requires
        meta_of(function, fields) is Some,
    ensures
        forall|i: int|
            0 <= i < fields.len() ==> meta_names(function).contains(#[trigger] fields[i].0),
{
    let names = meta_names(function);
    reveal_strlit("1. Information");
    reveal_strlit("2. Symbol");
    reveal_strlit("3. Last Refreshed");
    reveal_strlit("4. Interval");
    reveal_strlit("5. Output Size");
    reveal_strlit("6. Time Zone");
    reveal_strlit("4. Output Size");
    reveal_strlit("5. Time Zone");
    reveal_strlit("4. Time Zone");
    assert(names[0][0] == '1' && names[1][0] == '2' && names[2][0] == '3' && names[3][0] == '4');
    if function is IntraDay {
        assert(names[4][0] == '5' && names[5][0] == '6');
    } else if function is Daily {
        assert(names[4][0] == '5');
    }
    lemma_names_cover_fields(fields, names);
}

/// Takes the members of the metadata of `function` from `fields`, which
/// hold them and nothing else.
pub fn meta(function: &Function, fields: &Vec<Field>) -> (out: Option<MetaData>)
    ensures
        match out {
            Some(meta) => meta_of(*function, fields_view(fields@)) == Some(meta@),
            None => meta_of(*function, fields_view(fields@)) is None,
        },
{
    let count: usize = match function {
        Function::IntraDay(_) => 6,
        Function::Daily => 5,
        _ => 4,
    };
    if fields.len() != count {
        return None;
    }
    let interval = match function {
        Function::IntraDay(_) => Some(find(fields, INTERVAL)?.clone()),
        _ => None,
    };
    let output_size = match output_size_name(function) {
        Some(name) => Some(find(fields, name)?.clone()),
        None => None,
    };
    match (
        find(fields, INFORMATION),
        find(fields, SYMBOL),
        find(fields, LAST_REFRESHED),
        find(fields, time_zone_name(function)),
    ) {
        (Some(information), Some(symbol), Some(last_refreshed), Some(time_zone)) => Some(
            MetaData {
                information: information.clone(),
                symbol: symbol.clone(),
                last_refreshed: last_refreshed.clone(),
                interval,
                output_size,
                time_zone: time_zone.clone(),
            },
        ),
        _ => None,
    }
}

/// What the metadata says of an intraday series that was asked for at
/// `interval`, where it says something else.
pub open spec fn other_interval(function: Function, meta: MetaDataView) -> Option<Seq<char>> {
    match function {
        Function::IntraDay(interval) => match meta.interval {
            Some(text) => if text == interval.token() {
                None
            } else {
                Some(text)
            },
            None => Some(Seq::empty()),
        },
        _ => None,
    }
}

/// The series, still without entries, that the metadata `meta` stands for,
/// where `last_refreshed` is what was read from its date: the date was
/// read, the time zone is UTC, and an intraday series has the interval that
/// was asked for. The first of these that fails gives the error.
pub open spec fn header_of(
    function: Function,
    meta: MetaDataView,
    last_refreshed: Option<DateTime>,
) -> Result<TimeSeriesView, ErrorView> {
    match last_refreshed {
        None => Err(ErrorView::ValidationError(InvalidView::DateTime(meta.last_refreshed))),
        Some(moment) => if meta.time_zone != UTC@ {
            Err(ErrorView::ValidationError(InvalidView::TimeZone(meta.time_zone)))
        } else {
            match other_interval(function, meta) {
                Some(text) => Err(ErrorView::ValidationError(InvalidView::Interval(text))),
                None => Ok(
                    TimeSeriesView {
                        function,
                        information: meta.information,
                        symbol: meta.symbol,
                        last_refreshed: moment,
                        output_size: meta.output_size,
                        entries: Seq::empty(),
                    },
                ),
            }
        },
    }
}

/// Starts a series from the metadata and from what was read from its date.
pub fn header(function: &Function, meta: MetaData, last_refreshed: Option<DateTime>) -> (out:
    Result<TimeSeries, Error>)
    ensures
        outcome(out) == header_of(*function, meta@, last_refreshed),
        out matches Ok(series) ==> series.entries@.len() == 0,
{
    let moment = match last_refreshed {
        Some(moment) => moment,
        None => {
            return Err(Error::ValidationError(Invalid::DateTime(meta.last_refreshed)));
        },
    };
    if !same_text(meta.time_zone.as_str(), UTC) {
        return Err(Error::ValidationError(Invalid::TimeZone(meta.time_zone)));
    }
    if let Function::IntraDay(interval) = function {
        match meta.interval {
            Some(text) => {
                if !same_text(text.as_str(), interval.to_string()) {
                    return Err(Error::ValidationError(Invalid::Interval(text)));
                }
            },
            None => {
                return Err(Error::ValidationError(Invalid::Interval(String::new())));
            },
        }
    }
    let series = TimeSeries {
        function: *function,
        information: meta.information,
        symbol: meta.symbol,
        last_refreshed: moment,
        output_size: meta.output_size,
        entries: Vec::new(),
    };
    assert(series@.entries =~= Seq::<EntryView>::empty());
    Ok(series)
}

/// One member of the series: its name, which is its date, and its five
/// members, each as the text that the response holds for it.
#[derive(Clone, Debug, PartialEq, Eq)]
pub struct RawEntry {
    pub key: String,
    pub open: String,
    pub high: String,
    pub low: String,
    pub close: String,
    pub volume: String,
}

pub struct RawEntryView {
    pub key: Seq<char>,
    pub open: Seq<char>,
    pub high: Seq<char>,
    pub low: Seq<char>,
    pub close: Seq<char>,
    pub volume: Seq<char>,
}

impl View for RawEntry {
    type V = RawEntryView;

    open spec fn view(&self) -> RawEntryView {
        RawEntryView {
            key: self.key@,
            open: self.open@,
            high: self.high@,
            low: self.low@,
            close: self.close@,
            volume: self.volume@,
        }
    }
}

/// The views of `entries`, in their order.
pub open spec fn raw_entries_view(entries: Seq<RawEntry>) -> Seq<RawEntryView> {
    entries.map_values(|e: RawEntry| e@)
}

/// The member of the series called `key` that `fields` make up: there are
/// five of them, and each of the five names is among them.
pub open spec fn raw_entry_of(key: Seq<char>, fields: Seq<(Seq<char>, Seq<char>)>) -> Option<
    RawEntryView,
> {
    if fields.len() == 5 && lookup(fields, OPEN@) is Some && lookup(fields, HIGH@) is Some
        && lookup(fields, LOW@) is Some && lookup(fields, CLOSE@) is Some && lookup(
        fields,
        VOLUME@,
    ) is Some {
        Some(
            RawEntryView {
                key,
                open: lookup(fields, OPEN@)->0,
                high: lookup(fields, HIGH@)->0,
                low: lookup(fields, LOW@)->0,
                close: lookup(fields, CLOSE@)->0,
                volume: lookup(fields, VOLUME@)->0,
            },
        )
    } else {
        None
    }
}

/// The names of the five members of a member of the series.
pub open spec fn entry_names() -> Seq<Seq<char>> {
    seq![OPEN@, HIGH@, LOW@, CLOSE@, VOLUME@]
}

/// Fields that make up a member of the series hold its five members and
/// nothing else: each of them is called by one of the five names.
pub proof fn lemma_raw_entry_has_no_other_member(
    key: Seq<char>,
    fields: Seq<(Seq<char>, Seq<char>)>,
)
    requires
        raw_entry_of(key, fields) is Some,
    ensures
        forall|i: int| 0 <= i < fields.len() ==> entry_names().contains(#[trigger] fields[i].0),
{
    let names = entry_names();
    reveal_strlit("1. open");
    reveal_strlit("2. high");
    reveal_strlit("3. low");
    reveal_strlit("4. close");
    reveal_strlit("5. volume");
    assert(names[0][0] == '1' && names[1][0] == '2' && names[2][0] == '3' && names[3][0] == '4'
        && names[4][0] == '5');
    lemma_names_cover_fields(fields, names);
}

/// Takes the five members of the member of the series called `key` from
/// `fields`, which hold them and nothing else.
pub fn raw_entry(key: &str, fields: &Vec<Field>) -> (out: Option<RawEntry>)
    ensures
        match out {
            Some(entry) => raw_entry_of(key@, fields_view(fields@)) == Some(entry@),
            None => raw_entry_of(key@, fields_view(fields@)) is None,
        },
{
    if fields.len() != 5 {
        return None;
    }
    match (
        find(fields, OPEN),
        find(fields, HIGH),
        find(fields, LOW),
        find(fields, CLOSE),
        find(fields, VOLUME),
    ) {
        (Some(open), Some(high), Some(low), Some(close), Some(volume)) => Some(
            RawEntry {
                key: key.to_owned(),
                open: open.clone(),
                high: high.clone(),
                low: low.clone(),
                close: close.clone(),
                volume: volume.clone(),
            },
        ),
        _ => None,
    }
}

/// The member of the series that `point` holds: its value is a JSON object
/// of strings, which make up its five members.
pub open spec fn raw_entry_at(point: (Seq<char>, Seq<u8>)) -> Option<RawEntryView> {
    match json_strings(point.1) {
        Some(fields) => raw_entry_of(point.0, fields),
        None => None,
    }
}

/// The members of the series that `points` hold, where each of them holds
/// one.
pub open spec fn raw_entries_of(points: Seq<(Seq<char>, Seq<u8>)>) -> Option<Seq<RawEntryView>> {
    if forall|i: int| 0 <= i < points.len() ==> raw_entry_at(#[trigger] points[i]) is Some {
        Some(Seq::new(points.len(), |i: int| raw_entry_at(points[i])->0))
    } else {
        None
    }
}

/// Reads the members of the series from `points`, in their order.
pub fn raw_entries(points: &Vec<Member>) -> (out: Option<Vec<RawEntry>>)
    ensures
        match out {
            Some(entries) => raw_entries_of(fields_view(points@)) == Some(
                raw_entries_view(entries@),
            ),
            None => raw_entries_of(fields_view(points@)) is None,
        },
{
    let ghost all = fields_view(points@);
    let mut entries: Vec<RawEntry> = Vec::new();
    let mut i: usize = 0;
    while i < points.len()
        invariant
            i <= points.len(),
            all == fields_view(points@),
            entries@.len() == i,
            forall|k: int| 0 <= k < i ==> raw_entry_at(#[trigger] all[k]) == Some(entries@[k]@),
        decreases points.len() - i,
    {
        assert(all[i as int] == points@[i as int]@);
        let fields = read_strings(points[i].value.as_slice())?;
        let entry = raw_entry(points[i].name.as_str(), &fields)?;
        entries.push(entry);
        i += 1;
    }
    assert(raw_entries_view(entries@) =~= Seq::new(all.len(), |i: int| raw_entry_at(all[i])->0));
    Some(entries)
}

/// The date of a member of the series called `text`: a day with its time in
/// an intraday series, the first moment of a day in the others.
pub open spec fn key_date(function: Function, text: Seq<char>) -> Option<DateTime> {
    match function {
        Function::IntraDay(_) => datetime_of(text),
        _ => day_of(text),
    }
}

/// Reads the date of a member of the series from its name.
pub fn entry_date(function: &Function, text: &str) -> (out: Option<DateTime>)
    ensures
        out == key_date(*function, text@),
        out matches Some(moment) ==> moment.wf(),
{
    match function {
        Function::IntraDay(_) => to_datetime(text),
        _ => to_date(text),
    }
}

/// The entry that `raw` stands for, where `date` is what was read from its
/// name: the date was read, and the five members are decimal numbers. The
/// first of these that fails, in the order of the members, gives the error.
pub open spec fn entry_of(raw: RawEntryView, date: Option<DateTime>) -> Result<
    EntryView,
    ErrorView,
> {
    if date is None {
        Err(ErrorView::ValidationError(InvalidView::DateTime(raw.key)))
    } else if decimal_of(raw.open) is None {
        Err(ErrorView::ValidationError(InvalidView::Number(raw.open)))
    } else if decimal_of(raw.high) is None {
        Err(ErrorView::ValidationError(InvalidView::Number(raw.high)))
    } else if decimal_of(raw.low) is None {
        Err(ErrorView::ValidationError(InvalidView::Number(raw.low)))
    } else if decimal_of(raw.close) is None {
        Err(ErrorView::ValidationError(InvalidView::Number(raw.close)))
    } else if decimal_of(raw.volume) is None {
        Err(ErrorView::ValidationError(InvalidView::Number(raw.volume)))
    } else {
        Ok(
            EntryView {
                date: date->0,
                open: decimal_of(raw.open)->0,
                high: decimal_of(raw.high)->0,
                low: decimal_of(raw.low)->0,
                close: decimal_of(raw.close)->0,
                volume: decimal_of(raw.volume)->0,
            },
        )
    }
}

/// Puts an entry together from a member of the series and from what was
/// read from its name.
pub fn entry(raw: &RawEntry, date: Option<DateTime>) -> (out: Result<Entry, Error>)
    ensures
        outcome(out) == entry_of(raw@, date),
        out matches Ok(entry) ==> (date->0.wf() ==> entry.wf()),
{
    let date = match date {
        Some(date) => date,
        None => {
            return Err(Error::ValidationError(Invalid::DateTime(raw.key.clone())));
        },
    };
    let open = from_str(raw.open.as_str())?;
    let high = from_str(raw.high.as_str())?;
    let low = from_str(raw.low.as_str())?;
    let close = from_str(raw.close.as_str())?;
    let volume = from_str(raw.volume.as_str())?;
    Ok(Entry { date, open, high, low, close, volume })
}

/// The entries that `raws` stand for, in their order; the first of them
/// that fails gives the error.
pub open spec fn entries_of(function: Function, raws: Seq<RawEntryView>) -> Result<
    Seq<EntryView>,
    ErrorView,
>
    decreases raws.len(),
{
    if raws.len() == 0 {
        Ok(Seq::empty())
    } else {
        match entry_of(raws[0], key_date(function, raws[0].key)) {
            Err(error) => Err(error),
            Ok(first) => match entries_of(function, raws.skip(1)) {
                Err(error) => Err(error),
                Ok(rest) => Ok(seq![first] + rest),
            },
        }
    }
}

/// `done` in front of what `rest` gives.
pub open spec fn continued(done: Seq<EntryView>, rest: Result<Seq<EntryView>, ErrorView>) -> Result<
    Seq<EntryView>,
    ErrorView,
> {
    match rest {
        Ok(rest) => Ok(done + rest),
        Err(error) => Err(error),
    }
}

/// The entries of a series by their dates, where every member of the series
/// gives one.
pub open spec fn sorted_entries_of(function: Function, raws: Seq<RawEntryView>) -> Result<
    Seq<EntryView>,
    ErrorView,
> {
    match entries_of(function, raws) {
        Ok(entries) => Ok(sorted(entries)),
        Err(error) => Err(error),
    }
}

/// Reads the entries of a series from its members, and puts them in the
/// order of their dates, the earliest first.
pub fn entries(function: &Function, raws: &Vec<RawEntry>) -> (out: Result<Vec<Entry>, Error>)
    ensures
        match out {
            Ok(entries) => sorted_entries_of(*function, raw_entries_view(raws@)) == Ok::<
                Seq<EntryView>,
                ErrorView,
            >(entries_view(entries@)),
            Err(error) => sorted_entries_of(*function, raw_entries_view(raws@)) == Err::<
                Seq<EntryView>,
                ErrorView,
            >(error@),
        },
        out matches Ok(entries) ==> ascending(entries_view(entries@)) && forall|i: int|
            0 <= i < entries@.len() ==> (#[trigger] entries@[i]).wf(),
{
    let ghost all = raw_entries_view(raws@);
    let ghost mut done: Seq<EntryView> = Seq::empty();
    let mut entries: Vec<Entry> = Vec::new();
    let mut i: usize = 0;
    assert(all.skip(0) =~= all);
    assert(entries_view(entries@) =~= sorted(done));
    assert(continued(done, entries_of(*function, all)) == entries_of(*function, all)) by {
        if let Ok(rest) = entries_of(*function, all) {
            assert(done + rest =~= rest);
        }
    }
    while i < raws.len()
        invariant
            i <= raws.len(),
            all == raw_entries_view(raws@),
            entries_of(*function, all) == continued(
                done,
                entries_of(*function, all.skip(i as int)),
            ),
            entries_view(entries@) == sorted(done),
            ascending(entries_view(entries@)),
            forall|k: int| 0 <= k < entries@.len() ==> (#[trigger] entries@[k]).wf(),
        decreases raws.len() - i,
    {
        let raw = &raws[i];
        let ghost rest = all.skip(i as int);
        assert(rest[0] == raw@);
        assert(rest.skip(1) =~= all.skip(i + 1));
        let date = entry_date(function, raw.key.as_str());
        let next = entry(raw, date)?;
        proof {
            let more = done.push(next@);
            assert(more.drop_last() =~= done);
            assert(more.last() == next@);
            lemma_inserted_ascending(sorted(done), next@);
            match entries_of(*function, all.skip(i + 1)) {
                Ok(tail) => {
                    assert(done + (seq![next@] + tail) =~= more + tail);
                },
                Err(_) => {},
            }
            done = more;
        }
        insert_entry(&mut entries, next);
        i += 1;
    }
    proof {
        assert(done + Seq::<EntryView>::empty() =~= done);
    }
    Ok(entries)
}

/// The series that the metadata and the members of the series stand for.
pub open spec fn series_of(
    function: Function,
    meta: MetaDataView,
    raws: Seq<RawEntryView>,
) -> Result<TimeSeriesView, ErrorView> {
    match header_of(function, meta, moment_of(meta.last_refreshed)) {
        Ok(series) => match sorted_entries_of(function, raws) {
            Ok(entries) => Ok(TimeSeriesView { entries, ..series }),
            Err(error) => Err(error),
        },
        Err(error) => Err(error),
    }
}

/// The JSON texts of the metadata and of the series, where `members` are
/// these two and nothing else.
pub open spec fn sections_of(function: Function, members: Seq<(Seq<char>, Seq<u8>)>) -> Option<
    (Seq<u8>, Seq<u8>),
> {
    match (lookup(members, META_DATA@), lookup(members, series_key(function))) {
        (Some(meta), Some(series)) => if members.len() == 2 {
            Some((meta, series))
        } else {
            None
        },
        _ => None,
    }
}

/// Takes the metadata and the series from the members of a response to a
/// query for `function`, which hold the two and nothing else.
pub fn sections<'a>(function: &Function, members: &'a Vec<Member>) -> (out: Option<
    (&'a Vec<u8>, &'a Vec<u8>),
>)
    ensures
        match out {
            Some((meta, series)) => sections_of(*function, fields_view(members@)) == Some(
                (meta@, series@),
            ),
            None => sections_of(*function, fields_view(members@)) is None,
        },
{
    if members.len() != 2 {
        return None;
    }
    match (find(members, META_DATA), find(members, series_name(function))) {
        (Some(meta), Some(series)) => Some((meta, series)),
        _ => None,
    }
}

/// The metadata and the members of the series that a response to a query
/// for `function` holds: the response is a JSON object of two members, the
/// metadata and the series; the metadata is a JSON object of strings, and
/// the series one whose members each are a JSON object of strings.
pub open spec fn records_in(function: Function, document: Seq<u8>) -> Option<
    (MetaDataView, Seq<RawEntryView>),
> {
    match json_members(document) {
        Some(members) => match sections_of(function, members) {
            Some((meta_document, series_document)) => match (
                json_strings(meta_document),
                json_members(series_document),
            ) {
                (Some(fields), Some(points)) => match (
                    meta_of(function, fields),
                    raw_entries_of(points),
                ) {
                    (Some(meta), Some(raws)) => Some((meta, raws)),
                    _ => None,
                },
                _ => None,
            },
            None => None,
        },
        None => None,
    }
}

/// What a response gives to a query for `function`.
pub open spec fn parsed(function: Function, document: Seq<u8>) -> Result<
    TimeSeriesView,
    ErrorView,
> {
    match records_in(function, document) {
        Some((meta, raws)) => series_of(function, meta, raws),
        None => Err(ErrorView::DeserializationError),
    }
}

/// The metadata that a response to a query for `function` holds.
pub open spec fn meta_in(function: Function, document: Seq<u8>) -> MetaDataView {
    let records = records_in(function, document)->0;
    records.0
}

/// A response whose metadata names another time zone than UTC is refused,
/// and the error holds that time zone, whatever its entries hold, where the
/// date of the metadata can be read.
pub proof fn lemma_other_time_zone_is_refused(function: Function, document: Seq<u8>)
    requires
        records_in(function, document) matches Some((meta, _)) && moment_of(meta.last_refreshed)
            is Some && meta.time_zone != UTC@,
    ensures
        parsed(function, document) == Err::<TimeSeriesView, ErrorView>(
            ErrorView::ValidationError(
                InvalidView::TimeZone(meta_in(function, document).time_zone),
            ),
        ),
{
}

/// The entries of a series that was read stand by their dates, and they are
/// the entries that the members of the series give, each as often as it is
/// given.
pub proof fn lemma_entries_are_sorted(function: Function, document: Seq<u8>)
    requires
        parsed(function, document) is Ok,
    ensures
        ascending(parsed(function, document)->Ok_0.entries),
        records_in(function, document) matches Some((_, raws)) && entries_of(function, raws)
            matches Ok(entries) && parsed(function, document)->Ok_0.entries.to_multiset()
            == entries.to_multiset(),
{
    let records = records_in(function, document)->0;
    let raws = records.1;
    let entries = entries_of(function, raws)->Ok_0;
    lemma_sorted_ascending(entries);
    lemma_sorted_keeps_entries(entries);
}

/// Reads a time series from the body of the response to a query for
/// `function`.
pub fn parse(function: &Function, document: &[u8]) -> (out: Result<TimeSeries, Error>)
    ensures
        outcome(out) == parsed(*function, document@),
        out matches Ok(series) ==> series.wf(),
{
    let members = read_members(document).ok_or(Error::DeserializationError)?;
    let (meta_document, series_document) = sections(function, &members).ok_or(
        Error::DeserializationError,
    )?;
    let fields = read_strings(meta_document.as_slice()).ok_or(Error::DeserializationError)?;
    let points = read_members(series_document.as_slice()).ok_or(Error::DeserializationError)?;
    let meta = meta(function, &fields).ok_or(Error::DeserializationError)?;
    let raws = raw_entries(&points).ok_or(Error::DeserializationError)?;
    let last_refreshed = to_moment(meta.last_refreshed.as_str());
    let mut series = header(function, meta, last_refreshed)?;
    let entries = entries(function, &raws)?;
    series.entries = entries;
    Ok(series)
}

} // verus!
