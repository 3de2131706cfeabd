//! The lines of the summary that is shown to the user.

use vstd::prelude::*;
use vstd::string::*;

verus! {

/// The lower-case form of a text, as the standard library's
/// `str::to_lowercase` gives it.
pub uninterp spec fn lowercased(text: Seq<char>) -> Seq<char>;

/// `str::to_lowercase` of the standard library: the result is a new string
/// that depends on the characters of the text alone.
pub assume_specification[ str::to_lowercase ](text: &str) -> (out: String)
    ensures
        out@ == lowercased(text@),
;

/// The line on the present temperature and condition.
pub open spec fn headline_text(place: Seq<char>, temp_f: Seq<char>, condition: Seq<char>) -> Seq<
    char,
> {
    "\tIn "@ + place + " it is "@ + temp_f + "\u{b0}F and "@ + condition + "."@
}

/// The lines on wind, gusts and felt temperature.
pub open spec fn wind_text(
    wind_mph: Seq<char>,
    wind_dir: Seq<char>,
    gust_mph: Seq<char>,
    feelslike_f: Seq<char>,
) -> Seq<char> {
    "\tWind is "@ + wind_mph + " mph out of the "@ + wind_dir + ", with gusts up to "@ + gust_mph
        + " mph.\n\tFeels like: "@ + feelslike_f + " degrees.\n"@
}

/// The lines on one forecast day.
pub open spec fn day_text(
    date: Seq<char>,
    high: Seq<char>,
    low: Seq<char>,
    rain: Seq<char>,
    snow: Seq<char>,
) -> Seq<char> {
    "\t"@ + date + ":\n\tHigh: "@ + high + ", Low: "@ + low + "\n\tChance of Rain/Snow: "@ + rain
        + "%/"@ + snow + "%\n"@
}

/// The headline with the condition as it is given.
pub fn headline_from(place: &str, temp_f: &str, condition: &str) -> (line: String)
    ensures
        line@ == headline_text(place@, temp_f@, condition@),
{
    let mut line = String::from_str("\tIn ");
    line.append(place);
    line.append(" it is ");
    line.append(temp_f);
    line.append("\u{b0}F and ");
    line.append(condition);
    line.append(".");
    line
}

/// The headline, with the condition in lower case.
pub fn headline(place: &str, temp_f: &str, condition: &str) -> (line: String)
    ensures
        line@ == headline_text(place@, temp_f@, lowercased(condition@)),
{
    let lower = condition.to_lowercase();
    headline_from(place, temp_f, lower.as_str())
}

/// The lines on wind, gusts and felt temperature.
pub fn wind_lines(wind_mph: &str, wind_dir: &str, gust_mph: &str, feelslike_f: &str) -> (lines:
    String)
    ensures
        lines@ == wind_text(wind_mph@, wind_dir@, gust_mph@, feelslike_f@),
{
    let mut lines = String::from_str("\tWind is ");
    lines.append(wind_mph);
    lines.append(" mph out of the ");
    lines.append(wind_dir);
    lines.append(", with gusts up to ");
    lines.append(gust_mph);
    lines.append(" mph.\n\tFeels like: ");
    lines.append(feelslike_f);
    lines.append(" degrees.\n");
    lines
}

/// The lines on one forecast day.
pub fn day_lines(date: &str, high: &str, low: &str, rain: &str, snow: &str) -> (lines: String)
    ensures
        lines@ == day_text(date@, high@, low@, rain@, snow@),
{
    let mut lines = String::from_str("\t");
    lines.append(date);
    lines.append(":\n\tHigh: ");
    lines.append(high);
    lines.append(", Low: ");
    lines.append(low);
    lines.append("\n\tChance of Rain/Snow: ");
    lines.append(rain);
    lines.append("%/");
    lines.append(snow);
    lines.append("%\n");
    lines
}

} // verus!
