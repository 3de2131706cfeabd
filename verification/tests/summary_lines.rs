use terminal_weather::summary::{day_lines, headline, headline_from, wind_lines};

#[test]
fn headline_puts_the_condition_in_lower_case() {
    assert_eq!(
        headline("Ames", "72.5", "Partly Cloudy"),
        "\tIn Ames it is 72.5\u{b0}F and partly cloudy."
    );
}

#[test]
fn headline_from_keeps_the_condition() {
    assert_eq!(
        headline_from("Ames", "72.5", "Partly Cloudy"),
        "\tIn Ames it is 72.5\u{b0}F and Partly Cloudy."
    );
}

#[test]
fn wind_lines_are_exact() {
    assert_eq!(
        wind_lines("9.4", "SSW", "12.1", "76.1"),
        "\tWind is 9.4 mph out of the SSW, with gusts up to 12.1 mph.\n\tFeels like: 76.1 degrees.\n"
    );
}

#[test]
fn day_lines_are_exact() {
    assert_eq!(
        day_lines("2024-05-01", "80.5", "60", "20", "0"),
        "\t2024-05-01:\n\tHigh: 80.5, Low: 60\n\tChance of Rain/Snow: 20%/0%\n"
    );
}

#[test]
fn lines_of_empty_values() {
    assert_eq!(headline("", "", ""), "\tIn  it is \u{b0}F and .");
    assert_eq!(day_lines("", "", "", "", ""), "\t:\n\tHigh: , Low: \n\tChance of Rain/Snow: %/%\n");
}

#[test]
fn lower_case_reaches_beyond_ascii() {
    assert_eq!(headline("Qu\u{e9}bec", "-4", "NEIGE L\u{c9}G\u{c8}RE"),
        "\tIn Qu\u{e9}bec it is -4\u{b0}F and neige l\u{e9}g\u{e8}re.");
}
