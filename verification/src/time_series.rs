//! Time series of the prices of a symbol.

use crate::datetime::DateTime;
use crate::decimal::{Decimal, DecimalValue};
use vstd::prelude::*;
use vstd::seq_lib::to_multiset_build;

pub mod parser;

verus! {

/// The time between two entries of an intraday time series.
#[derive(Clone, Copy, Debug, PartialEq, Eq, Structural)]
pub enum IntradayInterval {
    OneMinute,
    FiveMinutes,
    FifteenMinutes,
    ThirtyMinutes,
    SixtyMinutes,
}

impl IntradayInterval {
    /// The interval as the API writes it.
    pub open spec fn token(self) -> Seq<char> {
        match self {
            IntradayInterval::OneMinute => "1min"@,
            IntradayInterval::FiveMinutes => "5min"@,
            IntradayInterval::FifteenMinutes => "15min"@,
            IntradayInterval::ThirtyMinutes => "30min"@,
            IntradayInterval::SixtyMinutes => "60min"@,
        }
    }

    /// The interval as the API writes it.
    pub fn to_string(&self) -> (token: &'static str)
        ensures
            token@ == self.token(),
    {
        match self {
            IntradayInterval::OneMinute => "1min",
            IntradayInterval::FiveMinutes => "5min",
            IntradayInterval::FifteenMinutes => "15min",
            IntradayInterval::ThirtyMinutes => "30min",
            IntradayInterval::SixtyMinutes => "60min",
        }
    }
}

/// The functions of the API that give a time series.
#[derive(Clone, Copy, Debug, PartialEq, Eq, Structural)]
pub enum Function {
    IntraDay(IntradayInterval),
    Daily,
    Weekly,
    Monthly,
}

impl Function {
    /// The name by which the API knows the function.
    pub open spec fn token(self) -> Seq<char> {
        match self {
            Function::IntraDay(_) => "TIME_SERIES_INTRADAY"@,
            Function::Daily => "TIME_SERIES_DAILY"@,
            Function::Weekly => "TIME_SERIES_WEEKLY"@,
            Function::Monthly => "TIME_SERIES_MONTHLY"@,
        }
    }

    /// The name by which the API knows the function.
    pub fn name(&self) -> (token: &'static str)
        ensures
            token@ == self.token(),
    {
        match self {
            Function::IntraDay(_) => "TIME_SERIES_INTRADAY",
            Function::Daily => "TIME_SERIES_DAILY",
            Function::Weekly => "TIME_SERIES_WEEKLY",
            Function::Monthly => "TIME_SERIES_MONTHLY",
        }
    }
}

/// The prices and the volume of one period of a time series.
#[derive(Clone, Debug, PartialEq, Eq)]
pub struct Entry {
    /// The moment at which the period is dated, in UTC.
    pub date: DateTime,
    pub open: Decimal,
    pub high: Decimal,
    pub low: Decimal,
    pub close: Decimal,
    pub volume: Decimal,
}

pub struct EntryView {
    pub date: DateTime,
    pub open: DecimalValue,
    pub high: DecimalValue,
    pub low: DecimalValue,
    pub close: DecimalValue,
    pub volume: DecimalValue,
}

impl View for Entry {
    type V = EntryView;

    open spec fn view(&self) -> EntryView {
        EntryView {
            date: self.date,
            open: self.open@,
            high: self.high@,
            low: self.low@,
            close: self.close@,
            volume: self.volume@,
        }
    }
}

impl Entry {
    /// The fields of the date lie in their ranges, and the numbers hold
    /// their digits as a `Decimal` should.
    pub open spec fn wf(&self) -> bool {
        &&& self.date.wf()
        &&& self.open.wf()
        &&& self.high.wf()
        &&& self.low.wf()
        &&& self.close.wf()
        &&& self.volume.wf()
    }
}

/// The views of `entries`, in their order.
pub open spec fn entries_view(entries: Seq<Entry>) -> Seq<EntryView> {
    entries.map_values(|e: Entry| e@)
}

/// No entry is dated before one that stands in front of it.
pub open spec fn ascending(entries: Seq<EntryView>) -> bool {
    forall|i: int, j: int|
        0 <= i < j < entries.len() ==> !(#[trigger] entries[j]).date.precedes(
            (#[trigger] entries[i]).date,
        )
}

/// `entries` with `entry` put behind the last of them that is not dated
/// after it.
pub open spec fn inserted(entries: Seq<EntryView>, entry: EntryView) -> Seq<EntryView>
    decreases entries.len(),
{
    if entries.len() == 0 {
        seq![entry]
    } else if entry.date.precedes(entries.last().date) {
        inserted(entries.drop_last(), entry).push(entries.last())
    } else {
        entries.push(entry)
    }
}

/// `entries` by their dates, the earliest first; entries of one date keep
/// their order.
pub open spec fn sorted(entries: Seq<EntryView>) -> Seq<EntryView>
    decreases entries.len(),
{
    if entries.len() == 0 {
        entries
    } else {
        inserted(sorted(entries.drop_last()), entries.last())
    }
}

/// The text that an optional text holds.
pub open spec fn option_view(text: Option<String>) -> Option<Seq<char>> {
    match text {
        Some(text) => Some(text@),
        None => None,
    }
}

/// A time series: what the response says of itself, and its entries by
/// their dates, the earliest first.
#[derive(Clone, Debug, PartialEq, Eq)]
pub struct TimeSeries {
    /// The function that was asked for the series.
    pub function: Function,
    /// What the series holds, in the words of the API.
    pub information: String,
    /// The symbol whose prices the series holds.
    pub symbol: String,
    /// The moment at which the series was last brought up to date, in UTC.
    pub last_refreshed: DateTime,
    /// How much of the series the response holds, in the words of the API;
    /// weekly and monthly series do not say.
    pub output_size: Option<String>,
    pub entries: Vec<Entry>,
}

pub struct TimeSeriesView {
    pub function: Function,
    pub information: Seq<char>,
    pub symbol: Seq<char>,
    pub last_refreshed: DateTime,
    pub output_size: Option<Seq<char>>,
    pub entries: Seq<EntryView>,
}

impl View for TimeSeries {
    type V = TimeSeriesView;

    open spec fn view(&self) -> TimeSeriesView {
        TimeSeriesView {
            function: self.function,
            information: self.information@,
            symbol: self.symbol@,
            last_refreshed: self.last_refreshed,
            output_size: option_view(self.output_size),
            entries: entries_view(self.entries@),
        }
    }
}

impl TimeSeries {
    /// The date and every entry are well formed, and the entries stand by
    /// their dates.
    pub open spec fn wf(&self) -> bool {
        &&& self.last_refreshed.wf()
        &&& forall|i: int| 0 <= i < self.entries@.len() ==> (#[trigger] self.entries@[i]).wf()
        &&& ascending(entries_view(self.entries@))
    }
}

/// Putting an entry into entries that stand by their dates leaves them so.
pub proof fn lemma_inserted_ascending(entries: Seq<EntryView>, entry: EntryView)
    requires
        ascending(entries),
    ensures
        ascending(inserted(entries, entry)),
        inserted(entries, entry).len() == entries.len() + 1,
    decreases entries.len(),
{
    if entries.len() > 0 && entry.date.precedes(entries.last().date) {
        let front = entries.drop_last();
        lemma_inserted_ascending(front, entry);
        lemma_inserted_members(front, entry);
        let placed = inserted(front, entry);
        let all = placed.push(entries.last());
        assert forall|i: int, j: int| 0 <= i < j < all.len() implies !(#[trigger] all[j])
            .date.precedes((#[trigger] all[i]).date) by {
            if j == all.len() - 1 {
                assert(all[i] == placed[i]);
                if placed[i] != entry {
                    let k = choose|k: int| 0 <= k < front.len() && front[k] == placed[i];
                    assert(front[k] == entries[k]);
                    assert(entries.last() == entries[entries.len() - 1]);
                }
            } else {
                assert(all[i] == placed[i]);
                assert(all[j] == placed[j]);
            }
        }
    }
}

/// What stands in entries after an entry was put into them is that entry or
/// stood in them before.
pub proof fn lemma_inserted_members(entries: Seq<EntryView>, entry: EntryView)
    ensures
        forall|i: int|
            0 <= i < inserted(entries, entry).len() ==> (#[trigger] inserted(entries, entry)[i])
                == entry || exists|k: int|
                0 <= k < entries.len() && entries[k] == inserted(entries, entry)[i],
    decreases entries.len(),
{
    if entries.len() > 0 && entry.date.precedes(entries.last().date) {
        let front = entries.drop_last();
        lemma_inserted_members(front, entry);
        let placed = inserted(front, entry);
        let all = placed.push(entries.last());
        assert forall|i: int| 0 <= i < all.len() implies (#[trigger] all[i]) == entry || exists|
            k: int,
        |
            0 <= k < entries.len() && entries[k] == all[i] by {
            if i == all.len() - 1 {
                assert(entries[entries.len() - 1] == all[i]);
            } else {
                assert(all[i] == placed[i]);
                if placed[i] != entry {
                    let k = choose|k: int| 0 <= k < front.len() && front[k] == placed[i];
                    assert(entries[k] == front[k]);
                }
            }
        }
    } else {
        let all = inserted(entries, entry);
        assert forall|i: int| 0 <= i < all.len() implies (#[trigger] all[i]) == entry || exists|
            k: int,
        |
            0 <= k < entries.len() && entries[k] == all[i] by {
            if i < entries.len() {
                assert(entries[i] == all[i]);
            }
        }
    }
}

/// Sorted entries stand by their dates.
pub proof fn lemma_sorted_ascending(entries: Seq<EntryView>)
    ensures
        ascending(sorted(entries)),
        sorted(entries).len() == entries.len(),
    decreases entries.len(),
{
    if entries.len() > 0 {
        lemma_sorted_ascending(entries.drop_last());
        lemma_inserted_ascending(sorted(entries.drop_last()), entries.last());
    }
}

/// Putting an entry into entries adds that entry, and takes none away.
pub proof fn lemma_inserted_keeps_entries(entries: Seq<EntryView>, entry: EntryView)
    ensures
        inserted(entries, entry).to_multiset() == entries.to_multiset().insert(entry),
    decreases entries.len(),
{
    broadcast use vstd::multiset::group_multiset_axioms;

    if entries.len() > 0 && entry.date.precedes(entries.last().date) {
        let front = entries.drop_last();
        lemma_inserted_keeps_entries(front, entry);
        to_multiset_build(inserted(front, entry), entries.last());
        to_multiset_build(front, entries.last());
        assert(front.push(entries.last()) =~= entries);
        let few = front.to_multiset();
        let last = entries.last();
        assert(few.insert(entry).insert(last) =~= few.insert(last).insert(entry));
    } else {
        to_multiset_build(entries, entry);
        assert(inserted(entries, entry) =~= entries.push(entry));
    }
}

/// Sorted entries are the entries that were given, each as often as it was
/// given.
pub proof fn lemma_sorted_keeps_entries(entries: Seq<EntryView>)
    ensures
        sorted(entries).to_multiset() == entries.to_multiset(),
    decreases entries.len(),
{
    if entries.len() > 0 {
        let front = entries.drop_last();
        lemma_sorted_keeps_entries(front);
        lemma_inserted_keeps_entries(sorted(front), entries.last());
        to_multiset_build(front, entries.last());
        assert(front.push(entries.last()) =~= entries);
    }
}

/// Puts `entry` behind the last of `entries` that is not dated after it.
pub fn insert_entry(entries: &mut Vec<Entry>, entry: Entry)
    ensures
        entries_view(final(entries)@) == inserted(entries_view(old(entries)@), entry@),
        final(entries)@.len() == old(entries)@.len() + 1,
        forall|i: int|
            0 <= i < final(entries)@.len() ==> (#[trigger] final(entries)@[i]) == entry || exists|
                k: int,
            |
                0 <= k < old(entries)@.len() && old(entries)@[k] == final(entries)@[i],
{
    let ghost all = entries_view(entries@);
    let mut position: usize = entries.len();
    assert(all.take(position as int) =~= all);
    assert(all.skip(position as int) =~= Seq::<EntryView>::empty());
    assert(inserted(all, entry@) + Seq::<EntryView>::empty() =~= inserted(all, entry@));
    while position > 0 && entry.date.is_before(&entries[position - 1].date)
        invariant
            position <= entries@.len(),
            all == entries_view(entries@),
            *entries == *old(entries),
            inserted(all, entry@) == inserted(all.take(position as int), entry@) + all.skip(
                position as int,
            ),
        decreases position,
    {
        proof {
            let front = all.take(position as int);
            assert(front.last() == entries@[position - 1]@);
            assert(front.drop_last() =~= all.take(position - 1));
            assert(inserted(front, entry@) == inserted(all.take(position - 1), entry@).push(
                front.last(),
            ));
            assert(inserted(all.take(position - 1), entry@).push(front.last()) + all.skip(
                position as int,
            ) =~= inserted(all.take(position - 1), entry@) + all.skip(position - 1));
        }
        position -= 1;
    }
    proof {
        let front = all.take(position as int);
        if position > 0 {
            assert(front.last() == entries@[position - 1]@);
        }
        assert(inserted(front, entry@) == front.push(entry@));
    }
    entries.insert(position, entry);
    proof {
        assert(entries_view(entries@) =~= all.take(position as int).push(entry@) + all.skip(
            position as int,
        ));
        assert forall|i: int| 0 <= i < entries@.len() implies (#[trigger] entries@[i]) == entry
            || exists|k: int| 0 <= k < old(entries)@.len() && old(entries)@[k] == entries@[i] by {
            if i < position {
                assert(old(entries)@[i] == entries@[i]);
            } else if i > position {
                assert(old(entries)@[i - 1] == entries@[i]);
            }
        }
    }
}

} // verus!
