use weather_app::client::{encode_location, forecast_url, weather_url};
use weather_app::model::{FetchError, ForecastData, List, Main, Slot, Sys, Weather, WeatherData};
use weather_app::pipeline::Pipeline;
use weather_app::temperature::{degrees_label, round_degrees, shows_feels_like};
use weather_app::time::formatTime;
use weather_app::view::render;

fn conditions(texts: &[&str]) -> Vec<Weather> {
    texts.iter().map(|t| Weather { description: t.to_string() }).collect()
}

fn paris() -> WeatherData {
    WeatherData {
        main: Main { temp: 1520, feels_like: 1490 },
        weather: conditions(&["clear sky"]),
        sys: Sys { sunrise: 1700000000, sunset: 1700030000 },
    }
}

fn point(dt: i64, temp: i64, text: &str) -> List {
    List { weather: conditions(&[text]), main: Main { temp, feels_like: temp }, dt }
}

#[test]
fn rounds_half_away_from_zero() {
    assert_eq!(round_degrees(2040), 20);
    assert_eq!(round_degrees(2060), 21);
    assert_eq!(round_degrees(2050), 21);
    assert_eq!(round_degrees(-2050), -21);
    assert_eq!(round_degrees(-2040), -20);
    assert_eq!(round_degrees(0), 0);
    assert_eq!(round_degrees(i64::MIN), -92233720368547758);
    assert_eq!(round_degrees(i64::MAX), 92233720368547758);
}

#[test]
fn feels_like_only_when_rounding_differs() {
    assert!(!shows_feels_like(1520, 1490));
    assert!(shows_feels_like(2040, 2050));
    assert!(!shows_feels_like(2050, 2060));
}

#[test]
fn degree_labels() {
    assert_eq!(degrees_label(15), "15°C");
    assert_eq!(degrees_label(0), "0°C");
    assert_eq!(degrees_label(-7), "-7°C");
    assert_eq!(degrees_label(120), "120°C");
    assert_eq!(degrees_label(i64::MIN), "-9223372036854775808°C");
}

#[test]
fn clock_times() {
    assert_eq!(formatTime(0, 0), "00:00");
    assert_eq!(formatTime(1700000000, 0), "22:13");
    assert_eq!(formatTime(1700030000, 0), "06:33");
    assert_eq!(formatTime(1700000000, 120), "00:13");
    assert_eq!(formatTime(1700000000, -330), "16:43");
    assert_eq!(formatTime(-60, 0), "23:59");
    assert_eq!(formatTime(86399, 0), "23:59");
    assert_eq!(formatTime(i64::MAX, i32::MAX), formatTime(i64::MAX, i32::MAX));
}

#[test]
fn clock_times_have_two_digit_fields() {
    for t in [-1_000_000_007i64, -1, 0, 59, 3600, 45_296, 1_700_000_000, i64::MIN, i64::MAX] {
        for off in [-720i32, -330, 0, 60, 345, 840] {
            let s = formatTime(t, off);
            let b = s.as_bytes();
            assert_eq!(b.len(), 5);
            assert_eq!(b[2], b':');
            assert!(b[0].is_ascii_digit() && b[1].is_ascii_digit());
            assert!(b[3].is_ascii_digit() && b[4].is_ascii_digit());
            let h = (b[0] - b'0') as i128 * 10 + (b[1] - b'0') as i128;
            let m = (b[3] - b'0') as i128 * 10 + (b[4] - b'0') as i128;
            let sod = (t as i128 + off as i128 * 60).rem_euclid(86400);
            assert_eq!(h, sod / 3600);
            assert_eq!(m, sod % 3600 / 60);
        }
    }
}

#[test]
fn paris_current_weather() {
    let v = render(&Slot::Ready(paris()), &Slot::Pending, 0).unwrap();
    assert_eq!(v.temperature, "15°C");
    assert_eq!(v.feels_like, None);
    assert_eq!(v.condition, Some("clear sky".to_string()));
    assert_eq!(v.sunrise, "22:13");
    assert_eq!(v.sunset, "06:33");
    assert!(v.forecast.is_empty());
}

#[test]
fn feels_like_line_shown() {
    let mut d = paris();
    d.main = Main { temp: 2040, feels_like: 2050 };
    let v = render(&Slot::Ready(d), &Slot::Pending, 0).unwrap();
    assert_eq!(v.temperature, "20°C");
    assert_eq!(v.feels_like, Some("Feels like: 21°C".to_string()));
}

#[test]
fn empty_condition_list() {
    let mut d = paris();
    d.weather = Vec::new();
    let v = render(&Slot::Ready(d), &Slot::Pending, 0).unwrap();
    assert_eq!(v.condition, None);
    assert_eq!(v.temperature, "15°C");
}

#[test]
fn nothing_until_current_weather_ready() {
    let f = Slot::Ready(ForecastData { list: vec![point(0, 100, "rain")] });
    assert!(render(&Slot::Pending, &f, 0).is_none());
    assert!(render(&Slot::Failed(FetchError), &f, 0).is_none());
}

#[test]
fn three_forecast_rows_in_order() {
    let f = ForecastData {
        list: vec![
            point(1700000000, 1520, "clear sky"),
            point(1700010800, -240, "light snow"),
            point(1700021600, 999, "broken clouds"),
        ],
    };
    let v = render(&Slot::Ready(paris()), &Slot::Ready(f), 0).unwrap();
    assert_eq!(v.forecast.len(), 3);
    assert_eq!(v.forecast[0].time, "22:13");
    assert_eq!(v.forecast[0].temperature, "15°C");
    assert_eq!(v.forecast[0].condition, Some("clear sky".to_string()));
    assert_eq!(v.forecast[1].time, "01:13");
    assert_eq!(v.forecast[1].temperature, "-2°C");
    assert_eq!(v.forecast[1].condition, Some("light snow".to_string()));
    assert_eq!(v.forecast[2].time, "04:13");
    assert_eq!(v.forecast[2].temperature, "10°C");
    assert_eq!(v.forecast[2].condition, Some("broken clouds".to_string()));
}

#[test]
fn forecast_rows_wait_for_forecast() {
    let failed: Slot<ForecastData> = Slot::Failed(FetchError);
    let v = render(&Slot::Ready(paris()), &failed, 0).unwrap();
    assert!(v.forecast.is_empty());
}

#[test]
fn forecast_point_without_condition() {
    let p = List { weather: Vec::new(), main: Main { temp: 0, feels_like: 0 }, dt: 0 };
    let v = render(&Slot::Ready(paris()), &Slot::Ready(ForecastData { list: vec![p] }), 0).unwrap();
    assert_eq!(v.forecast[0].condition, None);
    assert_eq!(v.forecast[0].temperature, "0°C");
}

#[test]
fn location_change_starts_one_cycle() {
    let mut p = Pipeline::new(String::new());
    let first = p.dispatch();
    assert_eq!(first.generation, 0);
    assert_eq!(first.location, "");
    let d = p.set_location("Paris".to_string());
    assert_eq!(d.generation, 1);
    assert_eq!(d.location, "Paris");
    assert_eq!(p.generation(), 1);
    assert_eq!(p.location(), "Paris");
}

#[test]
fn superseded_results_are_dropped() {
    let mut p = Pipeline::new(String::new());
    let old = p.set_location("Par".to_string());
    let new = p.set_location("Paris".to_string());
    assert!(!p.receive_weather(old.generation, Ok(paris())));
    assert!(!p.receive_forecast(old.generation, Ok(ForecastData { list: Vec::new() })));
    assert!(p.show(0).is_none());
    assert!(p.receive_weather(new.generation, Ok(paris())));
    let v = p.show(0).unwrap();
    assert_eq!(v.temperature, "15°C");
    assert!(v.forecast.is_empty());
    let f = ForecastData { list: vec![point(1700000000, 1520, "clear sky")] };
    assert!(p.receive_forecast(new.generation, Ok(f)));
    assert_eq!(p.show(0).unwrap().forecast.len(), 1);
    p.set_location("Lyon".to_string());
    assert!(p.show(0).is_none());
}

#[test]
fn failed_fetch_shows_nothing() {
    let mut p = Pipeline::new("Nowhere".to_string());
    assert!(p.receive_weather(0, Err(FetchError)));
    assert!(p.show(0).is_none());
}

#[test]
fn location_survives_restore() {
    let mut p = Pipeline::restore(None);
    assert_eq!(p.location(), "");
    p.set_location("Tokyo".to_string());
    let kept = p.location().clone();
    let reloaded = Pipeline::restore(Some(kept));
    assert_eq!(reloaded.location(), "Tokyo");
    assert_eq!(reloaded.dispatch().location, "Tokyo");
}

#[test]
fn request_addresses() {
    assert_eq!(
        weather_url("Paris"),
        "https://api.openweathermap.org/data/2.5/weather?q=Paris&units=metric&cnt=8&appid=7484f462f852c04cbab6a6a5ad8c9d37"
    );
    assert_eq!(
        forecast_url(""),
        "https://api.openweathermap.org/data/2.5/forecast?q=&units=metric&cnt=8&appid=7484f462f852c04cbab6a6a5ad8c9d37"
    );
}

#[test]
fn location_encoding() {
    assert_eq!(encode_location("New York"), "New%20York");
    assert_eq!(encode_location("a&b=c#d"), "a%26b%3Dc%23d");
    assert_eq!(encode_location("São-Paulo_~."), "São-Paulo_~.");
    assert_eq!(encode_location("/?"), "%2F%3F");
}
