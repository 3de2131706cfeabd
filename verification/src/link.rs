//! Request URLs of the weather service.
//!
//! A location is one query value: its parts joined by commas. The key and the
//! location are percent-encoded into the query string; the order of the
//! parameters is fixed.

use crate::encode::{
    is_plain, lemma_percent_encoded_concat, lemma_plain_text_unchanged, percent_encode,
    percent_encoded,
};
use vstd::prelude::*;
use vstd::string::*;

verus! {

/// The parts of a location joined by commas, in order.
pub open spec fn joined(parts: Seq<Seq<char>>) -> Seq<char>
    decreases parts.len(),
{
    if parts.len() == 0 {
        Seq::empty()
    } else if parts.len() == 1 {
        parts[0]
    } else {
        joined(parts.drop_last()) + seq![','] + parts.last()
    }
}

/// The arguments of a command line as texts.
pub open spec fn arg_texts(args: Seq<String>) -> Seq<Seq<char>> {
    args.map_values(|a: String| a@)
}

/// All arguments but the first, which names the program.
pub open spec fn after_program_name(args: Seq<Seq<char>>) -> Seq<Seq<char>> {
    if args.len() <= 1 {
        Seq::empty()
    } else {
        args.subrange(1, args.len() as int)
    }
}

/// The URL that asks for the present conditions at `location`.
pub open spec fn current_url(key: Seq<char>, location: Seq<char>) -> Seq<char> {
    "http://api.weatherapi.com/v1/current.json?key="@ + percent_encoded(key) + "&q="@
        + percent_encoded(location) + "&aqi=no"@
}

/// The URL that asks for the three-day forecast at `location`.
pub open spec fn forecast_url(key: Seq<char>, location: Seq<char>) -> Seq<char> {
    "http://api.weatherapi.com/v1/forecast.json?key="@ + percent_encoded(key) + "&q="@
        + percent_encoded(location) + "&days=3&aqi=no&alerts=no"@
}

/// Joins the command-line arguments after the program's name by commas.
pub fn join_location(args: &Vec<String>) -> (out: String)
    ensures
        out@ == joined(after_program_name(arg_texts(args@))),
{
    let mut out = String::new();
    if args.len() < 2 {
        return out;
    }
    let ghost parts = after_program_name(arg_texts(args@));
    let mut i: usize = 1;
    while i < args.len()
        invariant
            1 <= i <= args@.len(),
            parts == args@.map_values(|a: String| a@).subrange(1, args@.len() as int),
            out@ == joined(parts.take(i - 1)),
        decreases args@.len() - i,
    {
        proof {
            assert(parts.take(i as int).drop_last() == parts.take(i - 1));
        }
        if i > 1 {
            out.push(',');
        }
        out.append(args[i].as_str());
        i += 1;
    }
    proof {
        assert(parts.take(args@.len() - 1) == parts);
    }
    out
}

/// Builds the URL for the present conditions.
pub fn build_current_url(key: &str, location: &str) -> (url: String)
    ensures
        url@ == current_url(key@, location@),
{
    let mut url = String::from_str("http://api.weatherapi.com/v1/current.json?key=");
    url.append(percent_encode(key).as_str());
    url.append("&q=");
    url.append(percent_encode(location).as_str());
    url.append("&aqi=no");
    url
}

/// Builds the URL for the three-day forecast.
pub fn build_forecast_url(key: &str, location: &str) -> (url: String)
    ensures
        url@ == forecast_url(key@, location@),
{
    let mut url = String::from_str("http://api.weatherapi.com/v1/forecast.json?key=");
    url.append(percent_encode(key).as_str());
    url.append("&q=");
    url.append(percent_encode(location).as_str());
    url.append("&days=3&aqi=no&alerts=no");
    url
}

/// Each part encoded on its own.
pub open spec fn encoded_each(parts: Seq<Seq<char>>) -> Seq<Seq<char>> {
    Seq::new(parts.len(), |i: int| percent_encoded(parts[i]))
}

/// A location of several parts stays one query value: each part is encoded
/// on its own and the commas between them stand as they are.
pub proof fn lemma_joined_encoded(parts: Seq<Seq<char>>)
    ensures
        percent_encoded(joined(parts)) == joined(encoded_each(parts)),
    decreases parts.len(),
{
    if parts.len() == 0 {
        lemma_plain_text_unchanged(Seq::<char>::empty());
    } else if parts.len() > 1 {
        let front = parts.drop_last();
        lemma_joined_encoded(front);
        assert(encoded_each(parts).drop_last() == encoded_each(front));
        lemma_percent_encoded_concat(joined(front) + seq![','], parts.last());
        lemma_percent_encoded_concat(joined(front), seq![',']);
        lemma_plain_text_unchanged(seq![',']);
    }
}

/// The URL for the present conditions at a city, state and country: the
/// fixed parameters in their order, around the encoded key and the three
/// encoded parts with commas between them.
pub proof fn lemma_current_url_of_parts(
    key: Seq<char>,
    city: Seq<char>,
    state: Seq<char>,
    country: Seq<char>,
)
    ensures
        current_url(key, joined(seq![city, state, country]))
            == "http://api.weatherapi.com/v1/current.json?key="@ + percent_encoded(key) + "&q="@
            + percent_encoded(city) + ","@ + percent_encoded(state) + ","@ + percent_encoded(
            country,
        ) + "&aqi=no"@,
{
    reveal_strlit(",");
    let parts = seq![city, state, country];
    lemma_joined_encoded(parts);
    assert(encoded_each(parts) == seq![
        percent_encoded(city),
        percent_encoded(state),
        percent_encoded(country),
    ]);
    lemma_joined_three(percent_encoded(city), percent_encoded(state), percent_encoded(country));
    let head = "http://api.weatherapi.com/v1/current.json?key="@ + percent_encoded(key) + "&q="@;
    assert(head + percent_encoded(joined(parts)) == head + percent_encoded(city) + ","@
        + percent_encoded(state) + ","@ + percent_encoded(country));
}

/// For a key and a city, state and country made only of letters, digits,
/// commas, `-`, `.`, `_` and `~`, the URL for the present conditions holds
/// them as they are, joined by commas, between the fixed parameters.
pub proof fn lemma_current_url_of_plain_parts(
    key: Seq<char>,
    city: Seq<char>,
    state: Seq<char>,
    country: Seq<char>,
)
    requires
        is_plain(key),
        is_plain(city),
        is_plain(state),
        is_plain(country),
    ensures
        current_url(key, joined(seq![city, state, country]))
            == "http://api.weatherapi.com/v1/current.json?key="@ + key + "&q="@ + city + ","@
            + state + ","@ + country + "&aqi=no"@,
{
    lemma_current_url_of_parts(key, city, state, country);
    lemma_plain_text_unchanged(key);
    lemma_plain_text_unchanged(city);
    lemma_plain_text_unchanged(state);
    lemma_plain_text_unchanged(country);
}

/// Three parts joined: two commas between them.
pub proof fn lemma_joined_three(a: Seq<char>, b: Seq<char>, c: Seq<char>)
    ensures
        joined(seq![a, b, c]) == a + seq![','] + b + seq![','] + c,
{
    let two = seq![a, b, c].drop_last();
    assert(two.drop_last() == seq![a]);
    assert(joined(seq![a]) == a);
    assert(joined(two) == a + seq![','] + b);
}

} // verus!
