use terminal_weather::weather_fetcher::{FetchError, Outcome, WeatherFetcher};
use terminal_weather::weather_report::WeatherReport;

fn sample_report(place: &str, temp_f: &str) -> WeatherReport {
    let mut report = WeatherReport::default();
    report.location.name = place.to_string();
    report.current.temp_c = "22.2".to_string();
    report.current.temp_f = temp_f.to_string();
    report.current.condition.text = "Partly cloudy".to_string();
    report.current.wind_mph = "9.4".to_string();
    report.current.wind_dir = "SSW".to_string();
    report.current.cloud = "50".to_string();
    report.current.feelslike_c = "24.5".to_string();
    report.current.feelslike_f = "76.1".to_string();
    report.current.gust_mph = "12.1".to_string();
    let dates = ["2024-05-01", "2024-05-02", "2024-05-03"];
    for (i, day) in report.forecast.forecastday.iter_mut().enumerate() {
        day.date = dates[i].to_string();
        day.day.maxtemp_f = format!("8{}.5", i);
        day.day.mintemp_f = format!("6{}", i);
        day.day.daily_chance_of_rain = format!("{}0", i);
        day.day.daily_chance_of_snow = "0".to_string();
        day.day.condition.text = "Sunny".to_string();
    }
    report
}

fn configured() -> WeatherFetcher {
    let mut wf = WeatherFetcher::new();
    wf.set_location_vec(vec![
        "prog".to_string(),
        "Ames".to_string(),
        "IA".to_string(),
        "USA".to_string(),
    ]);
    wf.set_key("K");
    wf
}

const FORECAST_URL: &str =
    "http://api.weatherapi.com/v1/forecast.json?key=K&q=Ames,IA,USA&days=3&aqi=no&alerts=no";

#[test]
fn new_client_holds_no_report() {
    let wf = WeatherFetcher::new();
    assert!(!wf.has_report());
    assert!(wf.report().is_none());
}

#[test]
fn current_link_from_city_state_country() {
    let mut wf = WeatherFetcher::new();
    wf.set_key("K");
    wf.set_location("city", "state", "country");
    assert_eq!(
        wf.generate_link().unwrap(),
        "http://api.weatherapi.com/v1/current.json?key=K&q=city,state,country&aqi=no"
    );
}

#[test]
fn current_link_from_command_line() {
    let mut wf = WeatherFetcher::new();
    wf.set_key("K");
    wf.set_location_vec(vec![
        "prog".to_string(),
        "city".to_string(),
        "state".to_string(),
        "country".to_string(),
    ]);
    assert_eq!(
        wf.generate_link().unwrap(),
        "http://api.weatherapi.com/v1/current.json?key=K&q=city,state,country&aqi=no"
    );
}

#[test]
fn forecast_link_from_command_line() {
    assert_eq!(configured().generate_link_forecast().unwrap(), FORECAST_URL);
}

#[test]
fn links_need_a_location() {
    let mut wf = WeatherFetcher::new();
    wf.set_key("K");
    assert_eq!(wf.generate_link(), Err(FetchError::EmptyLocation));
    assert_eq!(wf.generate_link_forecast(), Err(FetchError::EmptyLocation));
}

#[test]
fn links_do_not_need_a_key() {
    let mut wf = WeatherFetcher::new();
    wf.set_location_vec(vec!["prog".to_string(), "Oslo".to_string()]);
    assert_eq!(
        wf.generate_link_forecast().unwrap(),
        "http://api.weatherapi.com/v1/forecast.json?key=&q=Oslo&days=3&aqi=no&alerts=no"
    );
}

#[test]
fn key_and_location_accumulate() {
    let mut wf = WeatherFetcher::new();
    wf.set_key("ab");
    wf.set_key("cd");
    wf.set_location_vec(vec!["prog".to_string(), "x".to_string()]);
    wf.set_location_vec(vec!["prog".to_string(), "y".to_string(), "z".to_string()]);
    assert_eq!(
        wf.generate_link().unwrap(),
        "http://api.weatherapi.com/v1/current.json?key=abcd&q=xy,z&aqi=no"
    );
}

#[test]
fn error_message_is_short() {
    assert_eq!(FetchError::EmptyLocation.message(), "Unable to create url.");
}

#[test]
fn empty_location_is_an_error_before_any_fetch() {
    let mut wf = WeatherFetcher::new();
    wf.set_key("K");
    wf.set_location_vec(vec!["prog".to_string()]);
    assert!(matches!(wf.get_weather_current(), Err(FetchError::EmptyLocation)));
    assert!(matches!(wf.get_weather_forecast(), Err(FetchError::EmptyLocation)));
    wf.set_location_vec(vec!["prog".to_string(), "".to_string()]);
    assert!(matches!(wf.get_weather_current(), Err(FetchError::EmptyLocation)));
}

#[test]
fn without_a_report_the_accessors_ask_for_the_forecast_url() {
    let wf = configured();
    match wf.get_weather_current() {
        Ok(Outcome::Fetch(url)) => assert_eq!(url, FORECAST_URL),
        _ => panic!("a fetch was expected"),
    }
    match wf.get_weather_forecast() {
        Ok(Outcome::Fetch(url)) => assert_eq!(url, FORECAST_URL),
        _ => panic!("a fetch was expected"),
    }
}

#[test]
fn current_temp_f_is_the_reports_temp_f() {
    let mut wf = configured();
    wf.store_report(sample_report("Ames", "72.5"));
    match wf.get_weather_current() {
        Ok(Outcome::Ready(fields)) => {
            assert_eq!(fields.get("temp_f"), Some(&"72.5".to_string()));
            assert_eq!(fields.get("temp_c"), Some(&"22.2".to_string()));
            assert_eq!(fields.get("condition"), Some(&"Partly cloudy".to_string()));
            assert_eq!(fields.get("wind_mph"), Some(&"9.4".to_string()));
            assert_eq!(fields.get("wind_dir"), Some(&"SSW".to_string()));
            assert_eq!(fields.get("cloud"), Some(&"50".to_string()));
            assert_eq!(fields.get("feelslike_c"), Some(&"24.5".to_string()));
            assert_eq!(fields.get("feelslike_f"), Some(&"76.1".to_string()));
            assert_eq!(fields.get("gust_mph"), Some(&"12.1".to_string()));
            assert_eq!(fields.len(), 9);
        }
        _ => panic!("fields were expected"),
    }
}

#[test]
fn forecast_has_three_days_in_order() {
    let mut wf = configured();
    wf.store_report(sample_report("Ames", "72.5"));
    match wf.get_weather_forecast() {
        Ok(Outcome::Ready(days)) => {
            assert_eq!(days.len(), 3);
            assert_eq!(days[0].get("date"), Some(&"2024-05-01".to_string()));
            assert_eq!(days[1].get("date"), Some(&"2024-05-02".to_string()));
            assert_eq!(days[2].get("date"), Some(&"2024-05-03".to_string()));
            assert_eq!(days[2].get("maxtemp_f"), Some(&"82.5".to_string()));
            assert_eq!(days[1].get("daily_chance_of_rain"), Some(&"10".to_string()));
        }
        _ => panic!("fields were expected"),
    }
}

#[test]
fn one_fetch_serves_current_and_forecast() {
    let mut wf = configured();
    let mut fetches = 0;
    let current = loop {
        match wf.get_weather_current().unwrap() {
            Outcome::Ready(fields) => break fields,
            Outcome::Fetch(url) => {
                assert_eq!(url, FORECAST_URL);
                fetches += 1;
                wf.store_report(sample_report("Ames", "72.5"));
            }
        }
    };
    let forecast = loop {
        match wf.get_weather_forecast().unwrap() {
            Outcome::Ready(days) => break days,
            Outcome::Fetch(_) => {
                fetches += 1;
                wf.store_report(sample_report("Elsewhere", "0"));
            }
        }
    };
    assert_eq!(fetches, 1);
    assert_eq!(current.get("temp_f"), Some(&"72.5".to_string()));
    assert_eq!(forecast.len(), 3);
    assert_eq!(wf.get_report_location(), "Ames");
}

#[test]
fn the_first_report_is_kept() {
    let mut wf = configured();
    wf.store_report(sample_report("Ames", "72.5"));
    wf.store_report(sample_report("Boone", "10"));
    assert!(wf.has_report());
    assert_eq!(wf.get_report_location(), "Ames");
    assert_eq!(wf.report().unwrap().current.temp_f, "72.5");
}

#[test]
fn a_report_is_served_even_without_a_location() {
    let mut wf = WeatherFetcher::new();
    wf.store_report(sample_report("Ames", "72.5"));
    assert!(matches!(wf.get_weather_current(), Ok(Outcome::Ready(_))));
    assert!(matches!(wf.get_weather_forecast(), Ok(Outcome::Ready(_))));
}
