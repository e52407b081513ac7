use crate::model::{
    first_condition, first_description, opt_text, ForecastData, List, Slot, WeatherData,
};
use crate::temperature::{degrees_label, degrees_text, round_degrees, round_half_away};
use crate::time::{formatTime, time_text};
use vstd::prelude::*;

verus! {

/// One rendered forecast row: its clock time, its whole-degree temperature
/// and its condition (none when the point lists no condition).
#[derive(Clone, Debug, PartialEq, Eq)]
pub struct ForecastRow {
    pub time: String,
    pub temperature: String,
    pub condition: Option<String>,
}

/// What the page shows once the current weather has arrived.
#[derive(Clone, Debug, PartialEq, Eq)]
pub struct WeatherView {
    pub condition: Option<String>,
    pub temperature: String,
    pub feels_like: Option<String>,
    pub sunrise: String,
    pub sunset: String,
    pub forecast: Vec<ForecastRow>,
}

/// The line on the felt temperature, such as `Feels like: 12°C`.
pub open spec fn feels_like_text(d: int) -> Seq<char> {
    "Feels like: "@ + degrees_text(d)
}

/// The row shown for the forecast point `p`.
pub open spec fn row_shows(row: ForecastRow, p: List, offset_minutes: int) -> bool {
    &&& row.time@ == time_text(p.dt as int, offset_minutes)
    &&& row.temperature@ == degrees_text(round_half_away(p.main.temp as int))
    &&& opt_text(row.condition) == first_condition(p.weather@)
}

/// The rows shown for the forecast `f`: one per point, in order.
pub open spec fn rows_show(rows: Seq<ForecastRow>, f: ForecastData, offset_minutes: int) -> bool {
    &&& rows.len() == f.list@.len()
    &&& forall|i: int| 0 <= i < rows.len() ==> row_shows(#[trigger] rows[i], f.list@[i], offset_minutes)
}

/// The view shown for the current weather `d`, with the forecast rows when
/// the forecast slot is ready and none otherwise.
pub open spec fn view_shows(
    v: WeatherView,
    d: WeatherData,
    forecast: Slot<ForecastData>,
    offset_minutes: int,
) -> bool {
    let t = round_half_away(d.main.temp as int);
    let fl = round_half_away(d.main.feels_like as int);
    &&& opt_text(v.condition) == first_condition(d.weather@)
    &&& v.temperature@ == degrees_text(t)
    &&& opt_text(v.feels_like) == (if t != fl { Some(feels_like_text(fl)) } else { None })
    &&& v.sunrise@ == time_text(d.sys.sunrise as int, offset_minutes)
    &&& v.sunset@ == time_text(d.sys.sunset as int, offset_minutes)
    &&& match forecast {
        Slot::Ready(f) => rows_show(v.forecast@, f, offset_minutes),
        _ => v.forecast@.len() == 0,
    }
}

/// The row for one forecast point.
pub fn render_row(p: &List, utc_offset_minutes: i32) -> (r: ForecastRow)
    ensures
        row_shows(r, *p, utc_offset_minutes as int),
{
    ForecastRow {
        time: formatTime(p.dt, utc_offset_minutes),
        temperature: degrees_label(round_degrees(p.main.temp)),
        condition: first_description(&p.weather),
    }
}

/// The rows for a forecast, one per point in the forecast's order.
pub fn render_rows(f: &ForecastData, utc_offset_minutes: i32) -> (r: Vec<ForecastRow>)
    ensures
        rows_show(r@, *f, utc_offset_minutes as int),
{
    let mut rows: Vec<ForecastRow> = Vec::new();
    let n = f.list.len();
    for i in 0..n
        invariant
            n == f.list@.len(),
            rows@.len() == i,
            forall|j: int| 0 <= j < i ==> row_shows(#[trigger] rows@[j], f.list@[j], utc_offset_minutes as int),
    {
        rows.push(render_row(&f.list[i], utc_offset_minutes));
    }
    rows
}

/// Renders the two fetch slots. Nothing is shown until the current weather
/// is ready (a failed fetch shows nothing either); once it is, the view
/// holds its condition, rounded temperature, the felt temperature when it
/// rounds differently, sunrise and sunset, and the forecast rows when the
/// forecast is ready too.
pub fn render(
    weather: &Slot<WeatherData>,
    forecast: &Slot<ForecastData>,
    utc_offset_minutes: i32,
) -> (r: Option<WeatherView>)
    ensures
        match *weather {
            Slot::Ready(d) => r.is_some() && view_shows(r.unwrap(), d, *forecast, utc_offset_minutes as int),
            _ => r.is_none(),
        },
{
    match weather {
        Slot::Ready(d) => {
            let t = round_degrees(d.main.temp);
            let fl = round_degrees(d.main.feels_like);
            let feels_like = if t != fl {
                let mut line = String::from_str("Feels like: ");
                let label = degrees_label(fl);
                line.append(label.as_str());
                Some(line)
            } else {
                None
            };
            let rows = match forecast {
                Slot::Ready(f) => render_rows(f, utc_offset_minutes),
                _ => Vec::new(),
            };
            Some(WeatherView {
                condition: first_description(&d.weather),
                temperature: degrees_label(t),
                feels_like,
                sunrise: formatTime(d.sys.sunrise, utc_offset_minutes),
                sunset: formatTime(d.sys.sunset, utc_offset_minutes),
                forecast: rows,
            })
        },
        _ => None,
    }
}

} // verus!
