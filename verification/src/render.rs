//! Pure composition of the status panel's text: a function of the fetch
//! status and the has-fetched flag alone, with no I/O and no mutation. The
//! caller draws the returned text, and the input box beside it shows the
//! buffer verbatim.

use vstd::prelude::*;

use crate::art::art_spec;
use crate::art::AsciiArt;
use crate::state::FetchStatus;
use crate::text::centi_digits;
use crate::text::dec_digits;
use crate::text::push_centi;
use crate::text::push_u64_dec;
use crate::types::WeatherDetails;

verus! {

/// Hundredths of a kelvin between zero kelvin and zero Celsius: rendering a
/// temperature subtracts this from the stored centikelvin reading.
pub const CENTI_KELVIN_AT_ZERO_C: u32 = 27315;

/// Day iff the reading's local time lies between local sunrise (inclusive)
/// and local sunset (exclusive); each timestamp is adjusted by adding the
/// same timezone offset, so dawn counts as day and dusk as night.
pub open spec fn is_day_spec(d: WeatherDetails) -> bool {
    &&& d.sys.sunrise + d.timezone <= d.dt + d.timezone
    &&& d.dt + d.timezone < d.sys.sunset + d.timezone
}

/// Whether the snapshot was taken in daylight.
pub fn is_day(details: &WeatherDetails) -> (r: bool)
    ensures
        r == is_day_spec(*details),
{
    details.dt >= details.sys.sunrise && details.dt < details.sys.sunset
}

/// The primary condition description, or a placeholder when the provider
/// reported none.
pub open spec fn description_of(d: WeatherDetails) -> Seq<char> {
    if d.weather@.len() == 0 {
        "N/A"@
    } else {
        d.weather@[0].description@
    }
}

/// The full readings panel for one snapshot: glyph, city name, temperatures
/// in Celsius with two fraction digits, and the remaining readings as
/// provided.
pub open spec fn weather_text_spec(d: WeatherDetails) -> Seq<char> {
    art_spec(description_of(d)) + "\n\nCity: "@ + d.name@ + "\nTemperature: "@ + centi_digits(
        d.main.temp - CENTI_KELVIN_AT_ZERO_C,
    ) + "°C\nMin Temp: "@ + centi_digits(d.main.temp_min - CENTI_KELVIN_AT_ZERO_C)
        + "°C\nMax Temp: "@ + centi_digits(d.main.temp_max - CENTI_KELVIN_AT_ZERO_C)
        + "°C\nHumidity: "@ + dec_digits(d.main.humidity as nat) + "%\nPressure: "@ + dec_digits(
        d.main.pressure as nat,
    ) + " hPa\nWind Speed: "@ + centi_digits(d.wind.speed as int) + " m/s\nWind Direction: "@
        + dec_digits(d.wind.deg as nat) + "°\nCloudiness: "@ + dec_digits(d.clouds.all as nat)
        + "%\nDescription: "@ + description_of(d) + "\n"@
}

/// The status panel's text for the current tick, by display priority: a
/// snapshot shows its readings; an in-flight fetch shows the fetching
/// notice; a failed fetch — or an idle cell after at least one fetch —
/// shows the not-found notice; before any fetch, the prompt.
pub open spec fn frame_text_spec(status: FetchStatus, has_fetched_once: bool) -> Seq<char> {
    match status {
        FetchStatus::Succeeded(d) => weather_text_spec(d),
        FetchStatus::InFlight => "\nFetching weather data..."@,
        FetchStatus::Failed => "\nCity not found or error fetching data."@,
        FetchStatus::Idle => if has_fetched_once {
            "\nCity not found or error fetching data."@
        } else {
            "\nPlease enter a city name to get the weather information."@
        },
    }
}

/// Law: the frame is a function of what a status lets an observer read, so
/// rendering from the copy that [`crate::state::SharedWeatherState::snapshot`]
/// hands out shows exactly what rendering from the cell itself would show.
pub proof fn lemma_same_status_same_frame(a: FetchStatus, b: FetchStatus, has_fetched_once: bool)
    requires
        crate::state::same_status(a, b),
    ensures
        frame_text_spec(a, has_fetched_once) == frame_text_spec(b, has_fetched_once),
{
}

/// Builds the readings panel for one snapshot.
pub fn compose_weather_text(d: &WeatherDetails, art: &AsciiArt) -> (r: String)
    requires
        art.wf(),
    ensures
        r@ == weather_text_spec(*d),
{
    let description: &str = if d.weather.len() == 0 {
        "N/A"
    } else {
        d.weather[0].description.as_str()
    };
    let day = is_day(d);
    let mut out = String::new();
    out.append(art.get_art(description, day));
    out.append("\n\nCity: ");
    out.append(d.name.as_str());
    out.append("\nTemperature: ");
    push_centi(&mut out, d.main.temp as i64 - CENTI_KELVIN_AT_ZERO_C as i64);
    out.append("°C\nMin Temp: ");
    push_centi(&mut out, d.main.temp_min as i64 - CENTI_KELVIN_AT_ZERO_C as i64);
    out.append("°C\nMax Temp: ");
    push_centi(&mut out, d.main.temp_max as i64 - CENTI_KELVIN_AT_ZERO_C as i64);
    out.append("°C\nHumidity: ");
    push_u64_dec(&mut out, d.main.humidity as u64);
    out.append("%\nPressure: ");
    push_u64_dec(&mut out, d.main.pressure as u64);
    out.append(" hPa\nWind Speed: ");
    push_centi(&mut out, d.wind.speed as i64);
    out.append(" m/s\nWind Direction: ");
    push_u64_dec(&mut out, d.wind.deg as u64);
    out.append("°\nCloudiness: ");
    push_u64_dec(&mut out, d.clouds.all as u64);
    out.append("%\nDescription: ");
    out.append(description);
    out.append("\n");
    proof {
        assert(out@ =~= weather_text_spec(*d));
    }
    out
}

/// Composes the status panel's text for the current tick.
pub fn compose_frame(status: &FetchStatus, has_fetched_once: bool, art: &AsciiArt) -> (r: String)
    requires
        art.wf(),
    ensures
        r@ == frame_text_spec(*status, has_fetched_once),
{
    match status {
        FetchStatus::Succeeded(d) => compose_weather_text(d, art),
        FetchStatus::InFlight => "\nFetching weather data...".to_owned(),
        FetchStatus::Failed => "\nCity not found or error fetching data.".to_owned(),
        FetchStatus::Idle => if has_fetched_once {
            "\nCity not found or error fetching data.".to_owned()
        } else {
            "\nPlease enter a city name to get the weather information.".to_owned()
        },
    }
}

} // verus!
