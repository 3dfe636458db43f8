use termocast::art::AsciiArt;
use termocast::model::AppModel;
use termocast::model::InputEvent;
use termocast::model::Phase;
use termocast::render::compose_frame;
use termocast::render::is_day;
use termocast::state::FetchStatus;
use termocast::state::SharedWeatherState;
use termocast::types::CloudCover;
use termocast::types::MainReadings;
use termocast::types::SysInfo;
use termocast::types::WeatherCondition;
use termocast::types::WeatherDetails;
use termocast::types::WindInfo;

fn sunny_glyph() -> &'static str {
    r"
    \   /
     .-.
  ― (   ) ―
     `-'
    /   \
                "
}

fn snapshot(name: &str, description: &str) -> WeatherDetails {
    WeatherDetails {
        name: name.to_string(),
        dt: 1_700_000_000,
        weather: vec![WeatherCondition { description: description.to_string() }],
        main: MainReadings {
            temp: 30000,
            temp_min: 29500,
            temp_max: 30150,
            humidity: 40,
            pressure: 1012,
        },
        wind: WindInfo { speed: 350, deg: 270 },
        clouds: CloudCover { all: 20 },
        sys: SysInfo { sunrise: 1_699_990_000, sunset: 1_700_020_000 },
        timezone: 20700,
    }
}

fn day_probe(dt: u64, sunrise: u64, sunset: u64, timezone: u64) -> WeatherDetails {
    let mut d = snapshot("x", "clear sky");
    d.dt = dt;
    d.sys = SysInfo { sunrise, sunset };
    d.timezone = timezone;
    d
}

#[test]
fn is_day_between_sunrise_and_sunset() {
    assert!(is_day(&day_probe(1000, 500, 2000, 3600)));
}

#[test]
fn is_day_at_sunrise_boundary_is_day() {
    assert!(is_day(&day_probe(500, 500, 2000, 3600)));
}

#[test]
fn is_day_at_sunset_boundary_is_night() {
    assert!(!is_day(&day_probe(2000, 500, 2000, 3600)));
}

#[test]
fn is_day_before_sunrise_and_after_sunset_is_night() {
    assert!(!is_day(&day_probe(499, 500, 2000, 0)));
    assert!(!is_day(&day_probe(2001, 500, 2000, 0)));
}

#[test]
fn kelvin_300_renders_as_26_85_celsius() {
    let mut s = String::new();
    termocast::text::push_centi(&mut s, 30000 - 27315);
    assert_eq!(s, "26.85");
}

#[test]
fn centi_rendering_pads_and_signs() {
    let cases: [(i64, &str); 6] = [
        (0, "0.00"),
        (5, "0.05"),
        (-5, "-0.05"),
        (-350, "-3.50"),
        (101, "1.01"),
        (123456, "1234.56"),
    ];
    for (v, want) in cases {
        let mut s = String::new();
        termocast::text::push_centi(&mut s, v);
        assert_eq!(s, want);
    }
}

#[test]
fn whole_number_rendering() {
    let cases: [(u64, &str); 4] = [(0, "0"), (7, "7"), (10, "10"), (65535, "65535")];
    for (v, want) in cases {
        let mut s = String::new();
        termocast::text::push_u64_dec(&mut s, v);
        assert_eq!(s, want);
    }
}

#[test]
fn art_table_matches_condition_families() {
    let art = AsciiArt::default();
    assert_eq!(art.get_art("clear sky", true), sunny_glyph());
    assert!(art.get_art("scattered clouds", true).contains("(___.__)__)"));
    assert!(art.get_art("light rain", false).contains("' ' ' ' '"));
    assert!(art.get_art("Dirzzle", false).contains("' ' ' ' '"));
    assert!(art.get_art("thunderstorm", false).contains("⚡"));
    assert!(art.get_art("heavy snow", false).contains("* * * * *"));
    assert!(art.get_art("haze", true).contains("(  .      )"));
    assert!(art.get_art("smoke", true).contains("(  .      )"));
    assert!(art.get_art("fog", true).contains("(  .      )"));
    assert_eq!(art.get_art("tornado", true), "No art available for this condition");
}

#[test]
fn art_table_first_family_wins() {
    let art = AsciiArt::default();
    assert_eq!(art.get_art("clear with clouds", true), sunny_glyph());
}

#[test]
fn substring_search_edges() {
    assert!(termocast::text::str_contains("abc", ""));
    assert!(termocast::text::str_contains("abc", "abc"));
    assert!(termocast::text::str_contains("abc", "bc"));
    assert!(!termocast::text::str_contains("abc", "abcd"));
    assert!(!termocast::text::str_contains("", "a"));
    assert!(!termocast::text::str_contains("abac", "aba c"));
}

#[test]
fn frame_for_succeeded_shows_city_glyph_and_readings() {
    let art = AsciiArt::default();
    let status = FetchStatus::Succeeded(snapshot("Kathmandu", "clear sky"));
    let out = compose_frame(&status, true, &art);
    assert!(out.starts_with(sunny_glyph()));
    assert!(out.contains("City: Kathmandu\n"));
    assert!(out.contains("Temperature: 26.85°C\n"));
    assert!(out.contains("Min Temp: 21.85°C\n"));
    assert!(out.contains("Max Temp: 28.35°C\n"));
    assert!(out.contains("Humidity: 40%\n"));
    assert!(out.contains("Pressure: 1012 hPa\n"));
    assert!(out.contains("Wind Speed: 3.50 m/s\n"));
    assert!(out.contains("Wind Direction: 270°\n"));
    assert!(out.contains("Cloudiness: 20%\n"));
    assert!(out.contains("Description: clear sky\n"));
}

#[test]
fn frame_for_snapshot_without_conditions_uses_placeholder() {
    let art = AsciiArt::default();
    let mut d = snapshot("Kathmandu", "clear sky");
    d.weather.clear();
    let out = compose_frame(&FetchStatus::Succeeded(d), true, &art);
    assert!(out.starts_with("No art available for this condition"));
    assert!(out.contains("Description: N/A\n"));
}

#[test]
fn frame_for_in_flight_shows_fetching_notice() {
    let art = AsciiArt::default();
    let out = compose_frame(&FetchStatus::InFlight, true, &art);
    assert_eq!(out, "\nFetching weather data...");
}

#[test]
fn frame_for_failed_shows_not_found() {
    let art = AsciiArt::default();
    let out = compose_frame(&FetchStatus::Failed, true, &art);
    assert_eq!(out, "\nCity not found or error fetching data.");
}

#[test]
fn frame_for_idle_after_a_fetch_shows_not_found() {
    let art = AsciiArt::default();
    let out = compose_frame(&FetchStatus::Idle, true, &art);
    assert_eq!(out, "\nCity not found or error fetching data.");
}

#[test]
fn frame_before_any_fetch_shows_the_prompt() {
    let art = AsciiArt::default();
    let out = compose_frame(&FetchStatus::Idle, false, &art);
    assert_eq!(out, "\nPlease enter a city name to get the weather information.");
}

#[test]
fn empty_enter_still_renders_the_prompt() {
    let art = AsciiArt::default();
    let mut m = AppModel::new();
    let mut st = SharedWeatherState::new();
    let fetch = m.handle_event(&mut st, InputEvent::Enter);
    assert!(fetch.is_none());
    let out = compose_frame(&st.snapshot(), m.has_fetched_once, &art);
    assert_eq!(out, "\nPlease enter a city name to get the weather information.");
}

#[test]
fn kathmandu_render_after_completion() {
    let art = AsciiArt::default();
    let mut m = AppModel::new();
    let mut st = SharedWeatherState::new();
    for c in "Kathmandu".chars() {
        m.handle_event(&mut st, InputEvent::Character(c));
    }
    let (_city, id) = m.handle_event(&mut st, InputEvent::Enter).unwrap();
    st.complete(id, Ok(snapshot("Kathmandu", "clear sky")));
    let out = compose_frame(&st.snapshot(), m.has_fetched_once, &art);
    assert!(out.starts_with(sunny_glyph()));
    assert!(out.contains("City: Kathmandu\n"));
}

#[test]
fn phase_projection_follows_status_and_flags() {
    let m = AppModel::new();
    assert_eq!(m.phase(&FetchStatus::Idle), Phase::Editing);
    assert_eq!(m.phase(&FetchStatus::InFlight), Phase::Awaiting);
    assert_eq!(m.phase(&FetchStatus::Failed), Phase::Empty);
    assert_eq!(
        m.phase(&FetchStatus::Succeeded(snapshot("Kathmandu", "clear sky"))),
        Phase::Displaying
    );

    let mut fetched = AppModel::new();
    fetched.has_fetched_once = true;
    assert_eq!(fetched.phase(&FetchStatus::Idle), Phase::Empty);

    let mut exiting = AppModel::new();
    exiting.exit_requested = true;
    assert_eq!(exiting.phase(&FetchStatus::InFlight), Phase::Exiting);
}
