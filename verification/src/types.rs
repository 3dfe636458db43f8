//! Plain-value weather records.
//!
//! Temperatures are kept in hundredths of a kelvin and wind speeds in
//! hundredths of a metre per second, so that the verified core never touches
//! floating point; the caller that decodes a provider response converts once
//! at the boundary.

use vstd::prelude::*;

verus! {

/// Why a fetch failed. Every variant renders as the same "failed" display
/// state; the variant itself is kept only for diagnostics in the caller.
#[derive(Clone, Copy, PartialEq, Eq, Structural, Debug)]
pub enum FetchError {
    /// The request could not be sent or the connection broke.
    Network,
    /// The provider answered with a non-success status.
    BadStatus,
    /// The response body could not be decoded into a snapshot.
    MalformedPayload,
}

/// Sunrise and sunset, as Unix timestamps in seconds.
#[derive(Clone, Copy, PartialEq, Eq, Structural, Debug)]
pub struct SysInfo {
    pub sunrise: u64,
    pub sunset: u64,
}

/// One reported condition, e.g. "scattered clouds".
#[derive(Debug)]
pub struct WeatherCondition {
    pub description: String,
}

impl Clone for WeatherCondition {
    fn clone(&self) -> (res: Self)
        ensures
            res == *self,
    {
        WeatherCondition { description: self.description.clone() }
    }
}

/// Temperature and air readings. Temperatures are hundredths of a kelvin.
#[derive(Clone, Copy, PartialEq, Eq, Structural, Debug)]
pub struct MainReadings {
    pub temp: u32,
    pub temp_min: u32,
    pub temp_max: u32,
    pub humidity: u8,
    pub pressure: u16,
}

/// Wind reading. `speed` is hundredths of a metre per second.
#[derive(Clone, Copy, PartialEq, Eq, Structural, Debug)]
pub struct WindInfo {
    pub speed: u32,
    pub deg: u16,
}

/// Cloud cover as a percentage.
#[derive(Clone, Copy, PartialEq, Eq, Structural, Debug)]
pub struct CloudCover {
    pub all: u8,
}

/// One immutable weather snapshot: created when a fetch completes, read-only
/// afterwards until a later fetch replaces it.
#[derive(Debug)]
pub struct WeatherDetails {
    pub name: String,
    /// Timestamp of the reading, Unix seconds.
    pub dt: u64,
    pub weather: Vec<WeatherCondition>,
    pub main: MainReadings,
    pub wind: WindInfo,
    pub clouds: CloudCover,
    pub sys: SysInfo,
    /// Offset of local time from UTC, in seconds.
    pub timezone: u64,
}

/// Two snapshots agree on everything an observer can read: every scalar
/// field, the name, and the sequence of reported conditions.
pub open spec fn same_snapshot(a: WeatherDetails, b: WeatherDetails) -> bool {
    &&& a.name == b.name
    &&& a.dt == b.dt
    &&& a.weather@ == b.weather@
    &&& a.main == b.main
    &&& a.wind == b.wind
    &&& a.clouds == b.clouds
    &&& a.sys == b.sys
    &&& a.timezone == b.timezone
}

impl Clone for WeatherDetails {
    fn clone(&self) -> (res: Self)
        ensures
            same_snapshot(*self, res),
    {
        let res = WeatherDetails {
            name: self.name.clone(),
            dt: self.dt,
            weather: self.weather.clone(),
            main: self.main,
            wind: self.wind,
            clouds: self.clouds,
            sys: self.sys,
            timezone: self.timezone,
        };
        proof {
            assert(res.weather@ =~= self.weather@);
        }
        res
    }
}

} // verus!
