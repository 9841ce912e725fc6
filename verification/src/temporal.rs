//! Temporal host values: instants, dates, times of day, weekdays and
//! months, with their axis classifications and wire forms.
//!
//! An instant carries its epoch nanoseconds and reaches the wire as epoch
//! milliseconds, truncated (never rounded) toward zero. A date reaches the
//! wire as the milliseconds of its midnight UTC. A time of day becomes the
//! zero-padded `HH:MM:SS` string; weekdays and months their display
//! names.

use vstd::prelude::*;
use crate::axis_typing::{AxisKindMarker, CategoryAxis, SerializeFormat, TimeAxis};
use crate::json::{Json, JsonV, dec_digits, write_u128_dec};

verus! {

/// Epoch milliseconds of an epoch-nanosecond instant, truncated toward
/// zero.
pub open spec fn millis_of_nanos(nanos: int) -> int {
    if nanos >= 0 {
        nanos / 1000000
    } else {
        -((-nanos) / 1000000)
    }
}

/// An instant on the time axis, held as nanoseconds since the Unix epoch.
#[derive(Clone, Copy, Debug, PartialEq, Eq, Structural)]
pub struct DateTimeValue {
    pub nanos: i128,
}

impl DateTimeValue {
    pub fn from_unix_nanos(nanos: i128) -> (r: Self)
        ensures
            r.nanos == nanos,
    {
        DateTimeValue { nanos }
    }

    pub fn from_unix_millis(millis: i64) -> (r: Self)
        ensures
            r.nanos == millis as int * 1000000,
            millis_of_nanos(r.nanos as int) == millis as int,
    {
        let nanos: i128 = (millis as i128) * 1000000;
        proof {
            if millis >= 0 {
                assert(nanos as int / 1000000 == millis as int) by (nonlinear_arith)
                    requires
                        nanos as int == millis as int * 1000000,
                        millis >= 0,
                ;
            } else {
                assert((-(nanos as int)) / 1000000 == -(millis as int)) by (nonlinear_arith)
                    requires
                        nanos as int == millis as int * 1000000,
                        millis < 0,
                ;
            }
        }
        DateTimeValue { nanos }
    }
}

impl SerializeFormat<DateTimeValue> for DateTimeValue {
    open spec fn spec_format(value: &DateTimeValue) -> JsonV {
        JsonV::Int(millis_of_nanos(value.nanos as int))
    }

    fn format(value: &DateTimeValue) -> (j: Json)
        ensures
            j@ == Self::spec_format(value),
    {
        let n = value.nanos;
        if n >= 0 {
            Json::Int(n / 1000000)
        } else {
            // The magnitude of `n`, computed without negating `i128::MIN`.
            let m: u128 = ((-(n + 1)) as u128) + 1;
            assert(m as int == -(n as int));
            let millis: u128 = m / 1000000;
            assert(millis <= m) by (nonlinear_arith)
                requires
                    millis == m / 1000000,
            ;
            assert(millis < 0x80000000000000000000000000000000u128) by (nonlinear_arith)
                requires
                    millis == m / 1000000,
            ;
            Json::Int(-(millis as i128))
        }
    }
}

impl AxisKindMarker for DateTimeValue {
    type AxisType = TimeAxis;

    type Serialization = DateTimeValue;
}

/// A calendar date on the time axis, held as days since the Unix epoch;
/// its wire form is the epoch milliseconds of its midnight UTC.
#[derive(Clone, Copy, Debug, PartialEq, Eq, Structural)]
pub struct DateValue {
    pub days: i64,
}

impl DateValue {
    pub fn from_epoch_days(days: i64) -> (r: Self)
        ensures
            r.days == days,
    {
        DateValue { days }
    }
}

impl SerializeFormat<DateValue> for DateValue {
    open spec fn spec_format(value: &DateValue) -> JsonV {
        JsonV::Int(value.days as int * 86400000)
    }

    fn format(value: &DateValue) -> (j: Json)
        ensures
            j@ == Self::spec_format(value),
    {
        Json::Int((value.days as i128) * 86400000)
    }
}

impl AxisKindMarker for DateValue {
    type AxisType = TimeAxis;

    type Serialization = DateValue;
}

/// A number below one hundred in two decimal digits, zero-padded.
pub open spec fn pad2(n: nat) -> Seq<char> {
    if n < 10 {
        seq!['0'] + dec_digits(n)
    } else {
        dec_digits(n)
    }
}

/// The fixed `HH:MM:SS` form of a time of day.
pub open spec fn time_of_day_text(hour: nat, minute: nat, second: nat) -> Seq<char> {
    pad2(hour) + seq![':'] + pad2(minute) + seq![':'] + pad2(second)
}

fn write_pad2(out: &mut String, n: u8)
    ensures
        final(out)@ == old(out)@ + pad2(n as nat),
{
    if n < 10 {
        out.append("0");
        proof {
            reveal_strlit("0");
            assert(out@ =~= old(out)@ + seq!['0']);
        }
    }
    write_u128_dec(out, n as u128);
    assert(final(out)@ =~= old(out)@ + pad2(n as nat));
}

/// A time of day on a category axis; its wire form is the zero-padded
/// `HH:MM:SS` string.
#[derive(Clone, Copy, Debug, PartialEq, Eq, Structural)]
pub struct TimeOfDayValue {
    pub hour: u8,
    pub minute: u8,
    pub second: u8,
}

impl TimeOfDayValue {
    /// A well-formed time of day: hours below 24, minutes and seconds
    /// below 60.
    pub open spec fn wf(self) -> bool {
        self.hour < 24 && self.minute < 60 && self.second < 60
    }

    /// The time of day, if the components form one.
    pub fn new(hour: u8, minute: u8, second: u8) -> (r: Option<Self>)
        ensures
            (hour < 24 && minute < 60 && second < 60) <==> r is Some,
            r is Some ==> r->0 == (TimeOfDayValue { hour, minute, second }) && r->0.wf(),
    {
        if hour < 24 && minute < 60 && second < 60 {
            Some(TimeOfDayValue { hour, minute, second })
        } else {
            None
        }
    }
}

impl SerializeFormat<TimeOfDayValue> for TimeOfDayValue {
    open spec fn spec_format(value: &TimeOfDayValue) -> JsonV {
        JsonV::Str(
            time_of_day_text(value.hour as nat, value.minute as nat, value.second as nat),
        )
    }

    fn format(value: &TimeOfDayValue) -> (j: Json)
        ensures
            j@ == Self::spec_format(value),
    {
        let mut s = String::new();
        write_pad2(&mut s, value.hour);
        s.append(":");
        write_pad2(&mut s, value.minute);
        s.append(":");
        write_pad2(&mut s, value.second);
        proof {
            reveal_strlit(":");
            assert(s@ =~= time_of_day_text(
                value.hour as nat,
                value.minute as nat,
                value.second as nat,
            ));
        }
        Json::Str(s)
    }
}

impl AxisKindMarker for TimeOfDayValue {
    type AxisType = CategoryAxis;

    type Serialization = TimeOfDayValue;
}

/// A weekday on a category axis; its wire form is the display name.
#[derive(Clone, Copy, Debug, PartialEq, Eq, Structural)]
pub enum WeekdayValue {
    Monday,
    Tuesday,
    Wednesday,
    Thursday,
    Friday,
    Saturday,
    Sunday,
}

/// The display name of a weekday.
pub open spec fn weekday_name(d: WeekdayValue) -> Seq<char> {
    match d {
        WeekdayValue::Monday => "Monday"@,
        WeekdayValue::Tuesday => "Tuesday"@,
        WeekdayValue::Wednesday => "Wednesday"@,
        WeekdayValue::Thursday => "Thursday"@,
        WeekdayValue::Friday => "Friday"@,
        WeekdayValue::Saturday => "Saturday"@,
        WeekdayValue::Sunday => "Sunday"@,
    }
}

pub fn weekday_name_str(d: &WeekdayValue) -> (r: &'static str)
    ensures
        r@ == weekday_name(*d),
{
    match d {
        WeekdayValue::Monday => "Monday",
        WeekdayValue::Tuesday => "Tuesday",
        WeekdayValue::Wednesday => "Wednesday",
        WeekdayValue::Thursday => "Thursday",
        WeekdayValue::Friday => "Friday",
        WeekdayValue::Saturday => "Saturday",
        WeekdayValue::Sunday => "Sunday",
    }
}

impl SerializeFormat<WeekdayValue> for WeekdayValue {
    open spec fn spec_format(value: &WeekdayValue) -> JsonV {
        JsonV::Str(weekday_name(*value))
    }

    fn format(value: &WeekdayValue) -> (j: Json)
        ensures
            j@ == Self::spec_format(value),
    {
        Json::Str(weekday_name_str(value).to_owned())
    }
}

impl AxisKindMarker for WeekdayValue {
    type AxisType = CategoryAxis;

    type Serialization = WeekdayValue;
}

/// A month on a category axis; its wire form is the display name.
#[derive(Clone, Copy, Debug, PartialEq, Eq, Structural)]
pub enum MonthValue {
    January,
    February,
    March,
    April,
    May,
    June,
    July,
    August,
    September,
    October,
    November,
    December,
}

/// The display name of a month.
pub open spec fn month_name(m: MonthValue) -> Seq<char> {
    match m {
        MonthValue::January => "January"@,
        MonthValue::February => "February"@,
        MonthValue::March => "March"@,
        MonthValue::April => "April"@,
        MonthValue::May => "May"@,
        MonthValue::June => "June"@,
        MonthValue::July => "July"@,
        MonthValue::August => "August"@,
        MonthValue::September => "September"@,
        MonthValue::October => "October"@,
        MonthValue::November => "November"@,
        MonthValue::December => "December"@,
    }
}

pub fn month_name_str(m: &MonthValue) -> (r: &'static str)
    ensures
        r@ == month_name(*m),
{
    match m {
        MonthValue::January => "January",
        MonthValue::February => "February",
        MonthValue::March => "March",
        MonthValue::April => "April",
        MonthValue::May => "May",
        MonthValue::June => "June",
        MonthValue::July => "July",
        MonthValue::August => "August",
        MonthValue::September => "September",
        MonthValue::October => "October",
        MonthValue::November => "November",
        MonthValue::December => "December",
    }
}

impl SerializeFormat<MonthValue> for MonthValue {
    open spec fn spec_format(value: &MonthValue) -> JsonV {
        JsonV::Str(month_name(*value))
    }

    fn format(value: &MonthValue) -> (j: Json)
        ensures
            j@ == Self::spec_format(value),
    {
        Json::Str(month_name_str(value).to_owned())
    }
}

impl AxisKindMarker for MonthValue {
    type AxisType = CategoryAxis;

    type Serialization = MonthValue;
}

} // verus!
