use vstd::prelude::*;
use crate::emoji::{emoji_for, get_emoji};
use crate::text::push_char;

verus! {

/// One weather condition of a report.
pub struct Condition {
    pub id: i32,
    /// Short category, such as `Rain` or `Clear`.
    pub main: String,
    /// Human description, such as `clear sky` or `light rain`.
    pub description: String,
    pub icon: String,
}

/// The current weather at one place, as far as the report shows it.
/// Temperatures are in hundredths of a degree Celsius, the wind speed in
/// hundredths of a metre per second, the humidity in percent.
pub struct WeatherReport {
    pub city: String,
    pub country: String,
    /// The conditions reported, the primary one first.
    pub conditions: Vec<Condition>,
    pub temp: i32,
    pub temp_min: i32,
    pub temp_max: i32,
    pub wind_speed: i32,
    pub humidity: i32,
}

/// Why a report cannot be shown.
#[derive(PartialEq, Eq, Structural, Debug, Clone, Copy)]
pub enum ReportError {
    /// The report lists no condition at all.
    NoConditionData,
}

/// The character of a decimal digit.
pub open spec fn digit_char(d: int) -> char {
    if d == 0 {
        '0'
    } else if d == 1 {
        '1'
    } else if d == 2 {
        '2'
    } else if d == 3 {
        '3'
    } else if d == 4 {
        '4'
    } else if d == 5 {
        '5'
    } else if d == 6 {
        '6'
    } else if d == 7 {
        '7'
    } else if d == 8 {
        '8'
    } else {
        '9'
    }
}

/// The decimal digits of `n`, without leading zeros.
pub open spec fn decimal(n: nat) -> Seq<char>
    decreases n,
{
    if n < 10 {
        seq![digit_char(n as int)]
    } else {
        decimal(n / 10).push(digit_char((n % 10) as int))
    }
}

/// An integer in decimal, with a minus sign when it is negative.
pub open spec fn int_text(v: int) -> Seq<char> {
    if v < 0 {
        seq!['-'] + decimal((-v) as nat)
    } else {
        decimal(v as nat)
    }
}

/// The fractional part of a number of hundredths, `f` in `0..100`:
/// nothing for a whole number, else a point and the digits without
/// trailing zeros.
pub open spec fn fraction_text(f: int) -> Seq<char> {
    if f == 0 {
        Seq::empty()
    } else if f % 10 == 0 {
        seq!['.', digit_char(f / 10)]
    } else {
        seq!['.', digit_char(f / 10), digit_char(f % 10)]
    }
}

/// A value given in hundredths, written as a decimal number in its
/// shortest form: `3250` is `32.5`, `3000` is `30`, `-5` is `-0.05`.
pub open spec fn hundredths_text(h: int) -> Seq<char> {
    let a = if h < 0 {
        -h
    } else {
        h
    };
    (if h < 0 {
        seq!['-']
    } else {
        Seq::empty()
    }) + decimal((a / 100) as nat) + fraction_text(a % 100)
}

fn digit(d: u64) -> (r: char)
    requires
        d < 10,
    ensures
        r == digit_char(d as int),
{
    if d == 0 {
        '0'
    } else if d == 1 {
        '1'
    } else if d == 2 {
        '2'
    } else if d == 3 {
        '3'
    } else if d == 4 {
        '4'
    } else if d == 5 {
        '5'
    } else if d == 6 {
        '6'
    } else if d == 7 {
        '7'
    } else if d == 8 {
        '8'
    } else {
        '9'
    }
}

fn push_decimal(out: &mut String, n: u64)
    ensures
        final(out)@ == old(out)@ + decimal(n as nat),
    decreases n,
{
    if n >= 10 {
        push_decimal(out, n / 10);
    }
    push_char(out, digit(n % 10));
    assert(final(out)@ =~= old(out)@ + decimal(n as nat));
}

/// Appends `v` in decimal.
pub fn push_int(out: &mut String, v: i32)
    ensures
        final(out)@ == old(out)@ + int_text(v as int),
{
    if v < 0 {
        push_char(out, '-');
        push_decimal(out, (-(v as i64)) as u64);
        assert(final(out)@ =~= old(out)@ + int_text(v as int));
    } else {
        push_decimal(out, v as u64);
    }
}

/// Appends a value given in hundredths as a decimal number.
pub fn push_hundredths(out: &mut String, h: i32)
    ensures
        final(out)@ == old(out)@ + hundredths_text(h as int),
{
    let a: u64 = if h < 0 {
        push_char(out, '-');
        (-(h as i64)) as u64
    } else {
        h as u64
    };
    push_decimal(out, a / 100);
    let f = a % 100;
    if f != 0 {
        push_char(out, '.');
        push_char(out, digit(f / 10));
        if f % 10 != 0 {
            push_char(out, digit(f % 10));
        }
    }
    assert(final(out)@ =~= old(out)@ + hundredths_text(h as int));
}

pub const HEAD: &'static str = "Weather in ";

pub const COMMA: &'static str = ",";

pub const BAR: &'static str = " | ";

pub const OPEN: &'static str = " (";

pub const TEMP: &'static str = ") \n            >Temperature: ";

pub const TEMP_MIN: &'static str = "\u{B0}C\n                > Temperature-Min: ";

pub const TEMP_MAX: &'static str = "\u{B0}C\n                > Temperature-Max: ";

pub const WIND: &'static str = "\u{B0}C\n            >Wind: ";

/// The wind speed comes in metres per second under metric units; the label
/// keeps the unit that the report has always shown.
pub const HUMIDITY: &'static str = " km/h\n            >Humidity: ";

pub const TAIL: &'static str =
    " % \n___________________________________________________\n        ";

/// The text of a report whose primary condition is `c`.
pub open spec fn report_text(r: WeatherReport, c: Condition) -> Seq<char> {
    HEAD@ + r.city@ + COMMA@ + r.country@ + BAR@ + c.main@ + OPEN@ + emoji_for(c.description@)
        + TEMP@ + hundredths_text(r.temp as int) + TEMP_MIN@ + hundredths_text(r.temp_min as int)
        + TEMP_MAX@ + hundredths_text(r.temp_max as int) + WIND@ + hundredths_text(
        r.wind_speed as int,
    ) + HUMIDITY@ + int_text(r.humidity as int) + TAIL@
}

/// Formats a report for the terminal: place, primary condition with its
/// glyph, temperature with its minimum and maximum, wind and humidity.
/// A report without any condition is refused.
pub fn render(report: &WeatherReport) -> (r: Result<String, ReportError>)
    ensures
        report.conditions@.len() == 0 <==> r is Err,
        r is Err ==> r->Err_0 == ReportError::NoConditionData,
        r is Ok ==> r->Ok_0@ == report_text(*report, report.conditions@[0]),
{
    if report.conditions.len() == 0 {
        return Err(ReportError::NoConditionData);
    }
    let c = &report.conditions[0];
    let mut out = String::from_str(HEAD);
    out.append(report.city.as_str());
    out.append(COMMA);
    out.append(report.country.as_str());
    out.append(BAR);
    out.append(c.main.as_str());
    out.append(OPEN);
    out.append(get_emoji(c.description.as_str()));
    out.append(TEMP);
    push_hundredths(&mut out, report.temp);
    out.append(TEMP_MIN);
    push_hundredths(&mut out, report.temp_min);
    out.append(TEMP_MAX);
    push_hundredths(&mut out, report.temp_max);
    out.append(WIND);
    push_hundredths(&mut out, report.wind_speed);
    out.append(HUMIDITY);
    push_int(&mut out, report.humidity);
    out.append(TAIL);
    Ok(out)
}

} // verus!
