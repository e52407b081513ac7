use vstd::prelude::*;

verus! {

/// One weather condition, such as `clear sky`.
#[derive(Clone, Debug, PartialEq, Eq)]
pub struct Weather {
    pub description: String,
}

/// Measured and felt temperature, in hundredths of a degree Celsius.
#[derive(Clone, Copy, Debug, PartialEq, Eq)]
pub struct Main {
    pub temp: i64,
    pub feels_like: i64,
}

/// Sunrise and sunset, in seconds since the Unix epoch.
#[derive(Clone, Copy, Debug, PartialEq, Eq)]
pub struct Sys {
    pub sunrise: i64,
    pub sunset: i64,
}

/// The current weather at one place.
#[derive(Clone, Debug, PartialEq, Eq)]
pub struct WeatherData {
    pub main: Main,
    pub weather: Vec<Weather>,
    pub sys: Sys,
}

/// One point of a forecast: conditions, temperature and the time `dt` it
/// is for (seconds since the Unix epoch).
#[derive(Clone, Debug, PartialEq, Eq)]
pub struct List {
    pub weather: Vec<Weather>,
    pub main: Main,
    pub dt: i64,
}

/// A forecast: its points in the order they come, earliest first.
#[derive(Clone, Debug, PartialEq, Eq)]
pub struct ForecastData {
    pub list: Vec<List>,
}

/// A fetch that did not give a record: the request failed or its answer
/// could not be read. The causes are not told apart.
#[derive(Clone, Copy, Debug, PartialEq, Eq)]
pub struct FetchError;

/// Where one fetch stands: still on its way, arrived, or failed.
#[derive(Clone, Debug, PartialEq, Eq)]
pub enum Slot<T> {
    Pending,
    Ready(T),
    Failed(FetchError),
}

/// The description of the first condition in a list, if there is one.
pub open spec fn first_condition(ws: Seq<Weather>) -> Option<Seq<char>> {
    if ws.len() > 0 {
        Some(ws[0].description@)
    } else {
        None
    }
}

/// The text of an optional string.
pub open spec fn opt_text(o: Option<String>) -> Option<Seq<char>> {
    match o {
        Some(s) => Some(s@),
        None => None,
    }
}

/// The description of the first condition in `ws`; none for an empty list.
pub fn first_description(ws: &Vec<Weather>) -> (r: Option<String>)
    ensures
        opt_text(r) == first_condition(ws@),
{
    if ws.len() > 0 {
        Some(ws[0].description.clone())
    } else {
        None
    }
}

} // verus!
