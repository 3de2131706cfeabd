//! Named fields of a report, as text, for output.
//!
//! The present conditions give nine fields; a forecast day gives ten.

use crate::weather_report::{CurrentWeather, DayWeather, ForecastArr, FORECAST_DAYS};
use vstd::hash_map::StringHashMap;
use vstd::prelude::*;
use vstd::string::*;

verus! {

/// A mapping from field names to texts.
pub type Fields = Map<Seq<char>, Seq<char>>;

/// The executable mapping from field names to texts.
pub type FieldMap = StringHashMap<String>;

/// What a map of strings holds, each value as its text.
pub open spec fn texts(m: Map<Seq<char>, String>) -> Fields {
    Map::new(|k: Seq<char>| m.contains_key(k), |k: Seq<char>| m[k]@)
}

/// The fields of the present conditions.
pub open spec fn current_fields(c: CurrentWeather) -> Fields {
    map![
        "temp_c"@ => c.temp_c@,
        "temp_f"@ => c.temp_f@,
        "condition"@ => c.condition.text@,
        "wind_mph"@ => c.wind_mph@,
        "wind_dir"@ => c.wind_dir@,
        "cloud"@ => c.cloud@,
        "feelslike_c"@ => c.feelslike_c@,
        "feelslike_f"@ => c.feelslike_f@,
        "gust_mph"@ => c.gust_mph@,
    ]
}

/// The fields of one forecast day.
pub open spec fn day_fields(d: DayWeather) -> Fields {
    map![
        "date"@ => d.date@,
        "maxtemp_c"@ => d.day.maxtemp_c@,
        "maxtemp_f"@ => d.day.maxtemp_f@,
        "mintemp_c"@ => d.day.mintemp_c@,
        "mintemp_f"@ => d.day.mintemp_f@,
        "totalprecip_mm"@ => d.day.totalprecip_mm@,
        "totalprecip_in"@ => d.day.totalprecip_in@,
        "daily_chance_of_rain"@ => d.day.daily_chance_of_rain@,
        "daily_chance_of_snow"@ => d.day.daily_chance_of_snow@,
        "condition"@ => d.day.condition.text@,
    ]
}

/// The fields of the forecast days, in the order of the days.
pub open spec fn forecast_fields(f: ForecastArr) -> Seq<Fields> {
    Seq::new(f.forecastday@.len(), |i: int| day_fields(f.forecastday@[i]))
}

/// The nine names of the present conditions.
pub open spec fn current_names() -> Set<Seq<char>> {
    set![
        "temp_c"@,
        "temp_f"@,
        "condition"@,
        "wind_mph"@,
        "wind_dir"@,
        "cloud"@,
        "feelslike_c"@,
        "feelslike_f"@,
        "gust_mph"@,
    ]
}

/// The ten names of a forecast day.
pub open spec fn day_names() -> Set<Seq<char>> {
    set![
        "date"@,
        "maxtemp_c"@,
        "maxtemp_f"@,
        "mintemp_c"@,
        "mintemp_f"@,
        "totalprecip_mm"@,
        "totalprecip_in"@,
        "daily_chance_of_rain"@,
        "daily_chance_of_snow"@,
        "condition"@,
    ]
}

proof fn lemma_current_names_differ()
    ensures
        "temp_c"@.len() == 6 && "temp_c"@[5] == 'c',
        "temp_f"@.len() == 6 && "temp_f"@[5] == 'f',
        "condition"@.len() == 9,
        "wind_mph"@.len() == 8 && "wind_mph"@[5] == 'm',
        "wind_dir"@.len() == 8 && "wind_dir"@[5] == 'd',
        "cloud"@.len() == 5,
        "feelslike_c"@.len() == 11 && "feelslike_c"@[10] == 'c',
        "feelslike_f"@.len() == 11 && "feelslike_f"@[10] == 'f',
        "gust_mph"@.len() == 8 && "gust_mph"@[5] == 'm' && "gust_mph"@[0] == 'g',
        "wind_mph"@[0] == 'w',
{
    reveal_strlit("temp_c");
    reveal_strlit("temp_f");
    reveal_strlit("condition");
    reveal_strlit("wind_mph");
    reveal_strlit("wind_dir");
    reveal_strlit("cloud");
    reveal_strlit("feelslike_c");
    reveal_strlit("feelslike_f");
    reveal_strlit("gust_mph");
}

proof fn lemma_day_names_differ()
    ensures
        "date"@.len() == 4,
        "maxtemp_c"@.len() == 9 && "maxtemp_c"@[1] == 'a' && "maxtemp_c"@[8] == 'c',
        "maxtemp_f"@.len() == 9 && "maxtemp_f"@[1] == 'a' && "maxtemp_f"@[8] == 'f',
        "mintemp_c"@.len() == 9 && "mintemp_c"@[1] == 'i' && "mintemp_c"@[8] == 'c',
        "mintemp_f"@.len() == 9 && "mintemp_f"@[1] == 'i' && "mintemp_f"@[8] == 'f',
        "totalprecip_mm"@.len() == 14 && "totalprecip_mm"@[13] == 'm',
        "totalprecip_in"@.len() == 14 && "totalprecip_in"@[13] == 'n',
        "daily_chance_of_rain"@.len() == 20 && "daily_chance_of_rain"@[16] == 'r',
        "daily_chance_of_snow"@.len() == 20 && "daily_chance_of_snow"@[16] == 's',
        "condition"@.len() == 9 && "condition"@[1] == 'o',
{
    reveal_strlit("date");
    reveal_strlit("maxtemp_c");
    reveal_strlit("maxtemp_f");
    reveal_strlit("mintemp_c");
    reveal_strlit("mintemp_f");
    reveal_strlit("totalprecip_mm");
    reveal_strlit("totalprecip_in");
    reveal_strlit("daily_chance_of_rain");
    reveal_strlit("daily_chance_of_snow");
    reveal_strlit("condition");
}

/// The present conditions have exactly their nine names, and under each
/// name stands the text of that reading.
pub proof fn lemma_current_fields_by_name(c: CurrentWeather)
    ensures
        current_fields(c).dom() == current_names(),
        current_fields(c)["temp_c"@] == c.temp_c@,
        current_fields(c)["temp_f"@] == c.temp_f@,
        current_fields(c)["condition"@] == c.condition.text@,
        current_fields(c)["wind_mph"@] == c.wind_mph@,
        current_fields(c)["wind_dir"@] == c.wind_dir@,
        current_fields(c)["cloud"@] == c.cloud@,
        current_fields(c)["feelslike_c"@] == c.feelslike_c@,
        current_fields(c)["feelslike_f"@] == c.feelslike_f@,
        current_fields(c)["gust_mph"@] == c.gust_mph@,
{
    lemma_current_names_differ();
}

/// A forecast day has exactly its ten names, and under each name stands the
/// text of that value.
pub proof fn lemma_day_fields_by_name(d: DayWeather)
    ensures
        day_fields(d).dom() == day_names(),
        day_fields(d)["date"@] == d.date@,
        day_fields(d)["maxtemp_c"@] == d.day.maxtemp_c@,
        day_fields(d)["maxtemp_f"@] == d.day.maxtemp_f@,
        day_fields(d)["mintemp_c"@] == d.day.mintemp_c@,
        day_fields(d)["mintemp_f"@] == d.day.mintemp_f@,
        day_fields(d)["totalprecip_mm"@] == d.day.totalprecip_mm@,
        day_fields(d)["totalprecip_in"@] == d.day.totalprecip_in@,
        day_fields(d)["daily_chance_of_rain"@] == d.day.daily_chance_of_rain@,
        day_fields(d)["daily_chance_of_snow"@] == d.day.daily_chance_of_snow@,
        day_fields(d)["condition"@] == d.day.condition.text@,
{
    lemma_day_names_differ();
}

/// A forecast gives three mappings, one for each day and in the days' order.
pub proof fn lemma_forecast_fields_in_order(f: ForecastArr)
    ensures
        forecast_fields(f).len() == 3,
        forall|i: int| 0 <= i < 3 ==> #[trigger] forecast_fields(f)[i] == day_fields(f.forecastday@[i]),
{
}

fn put(m: &mut StringHashMap<String>, name: &str, value: &String)
    ensures
        texts(final(m)@) == texts(old(m)@).insert(name@, value@),
{
    m.insert(String::from_str(name), value.clone());
}

/// Collects the fields of the present conditions.
pub fn current_field_map(c: &CurrentWeather) -> (m: FieldMap)
    ensures
        texts(m@) == current_fields(*c),
{
    let mut m = StringHashMap::new();
    put(&mut m, "temp_c", &c.temp_c);
    put(&mut m, "temp_f", &c.temp_f);
    put(&mut m, "condition", &c.condition.text);
    put(&mut m, "wind_mph", &c.wind_mph);
    put(&mut m, "wind_dir", &c.wind_dir);
    put(&mut m, "cloud", &c.cloud);
    put(&mut m, "feelslike_c", &c.feelslike_c);
    put(&mut m, "feelslike_f", &c.feelslike_f);
    put(&mut m, "gust_mph", &c.gust_mph);
    m
}

/// Collects the fields of one forecast day.
pub fn day_field_map(d: &DayWeather) -> (m: FieldMap)
    ensures
        texts(m@) == day_fields(*d),
{
    let mut m = StringHashMap::new();
    put(&mut m, "date", &d.date);
    put(&mut m, "maxtemp_c", &d.day.maxtemp_c);
    put(&mut m, "maxtemp_f", &d.day.maxtemp_f);
    put(&mut m, "mintemp_c", &d.day.mintemp_c);
    put(&mut m, "mintemp_f", &d.day.mintemp_f);
    put(&mut m, "totalprecip_mm", &d.day.totalprecip_mm);
    put(&mut m, "totalprecip_in", &d.day.totalprecip_in);
    put(&mut m, "daily_chance_of_rain", &d.day.daily_chance_of_rain);
    put(&mut m, "daily_chance_of_snow", &d.day.daily_chance_of_snow);
    put(&mut m, "condition", &d.day.condition.text);
    m
}

/// The fields of each forecast day, as a sequence of mappings.
pub open spec fn texts_of_each(v: Seq<FieldMap>) -> Seq<Fields> {
    Seq::new(v.len(), |i: int| texts(v[i]@))
}

/// Collects the fields of every forecast day, in the order of the days.
pub fn forecast_field_maps(f: &ForecastArr) -> (v: Vec<FieldMap>)
    ensures
        texts_of_each(v@) == forecast_fields(*f),
{
    let mut v: Vec<FieldMap> = Vec::with_capacity(FORECAST_DAYS);
    let mut i: usize = 0;
    while i < FORECAST_DAYS
        invariant
            i <= FORECAST_DAYS,
            v@.len() == i,
            forall|j: int| 0 <= j < i ==> texts((#[trigger] v@[j])@) == day_fields(f.forecastday@[j]),
        decreases FORECAST_DAYS - i,
    {
        let m = day_field_map(&f.forecastday[i]);
        v.push(m);
        i += 1;
    }
    v
}

} // verus!
