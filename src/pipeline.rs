use crate::model::{FetchError, ForecastData, Slot, WeatherData};
use crate::view::{render, view_shows, WeatherView};
use vstd::prelude::*;

verus! {

/// One fetch cycle to run: both records for `location`, tagged with the
/// cycle's generation so that their results can be matched to it.
#[derive(Clone, Debug, PartialEq, Eq)]
pub struct Dispatch {
    pub generation: u64,
    pub location: String,
}

/// The location typed by the user, the generation of the latest fetch
/// cycle, and the slots of that cycle's two fetches.
pub struct Pipeline {
    location: String,
    generation: u64,
    weather: Slot<WeatherData>,
    forecast: Slot<ForecastData>,
}

/// The state of a [`Pipeline`] in mathematical terms.
pub struct PipelineView {
    pub location: Seq<char>,
    pub generation: nat,
    pub weather: Slot<WeatherData>,
    pub forecast: Slot<ForecastData>,
}

/// The slot that a finished fetch leaves.
pub open spec fn slot_of<T>(r: Result<T, FetchError>) -> Slot<T> {
    match r {
        Ok(v) => Slot::Ready(v),
        Err(e) => Slot::Failed(e),
    }
}

impl PipelineView {
    /// A new location starts the next cycle, with both fetches pending.
    pub open spec fn changed(self, text: Seq<char>) -> PipelineView {
        PipelineView {
            location: text,
            generation: self.generation + 1,
            weather: Slot::Pending,
            forecast: Slot::Pending,
        }
    }

    /// A current-weather result fills its slot only when it belongs to the
    /// latest cycle.
    pub open spec fn with_weather(self, g: nat, r: Result<WeatherData, FetchError>) -> PipelineView {
        if g == self.generation {
            PipelineView { weather: slot_of(r), ..self }
        } else {
            self
        }
    }

    /// A forecast result fills its slot only when it belongs to the latest
    /// cycle.
    pub open spec fn with_forecast(self, g: nat, r: Result<ForecastData, FetchError>) -> PipelineView {
        if g == self.generation {
            PipelineView { forecast: slot_of(r), ..self }
        } else {
            self
        }
    }
}

impl View for Pipeline {
    type V = PipelineView;

    closed spec fn view(&self) -> PipelineView {
        PipelineView {
            location: self.location@,
            generation: self.generation as nat,
            weather: self.weather,
            forecast: self.forecast,
        }
    }
}

impl Pipeline {
    /// The state at mount: the first cycle, for `location`, with both
    /// fetches pending.
    pub fn new(location: String) -> (r: Pipeline)
        ensures
            r@ == (PipelineView {
                location: location@,
                generation: 0,
                weather: Slot::Pending,
                forecast: Slot::Pending,
            }),
    {
        Pipeline { location, generation: 0, weather: Slot::Pending, forecast: Slot::Pending }
    }

    /// The state at mount with the location kept from an earlier run, or the
    /// empty location when none was kept or it could not be read.
    pub fn restore(stored: Option<String>) -> (r: Pipeline)
        ensures
            r@.location == (match stored {
                Some(s) => s@,
                None => Seq::<char>::empty(),
            }),
            r@.generation == 0,
            r@.weather == Slot::<WeatherData>::Pending,
            r@.forecast == Slot::<ForecastData>::Pending,
    {
        match stored {
            Some(s) => Pipeline::new(s),
            None => Pipeline::new(String::new()),
        }
    }

    /// The location as typed.
    pub fn location(&self) -> (r: &String)
        ensures
            r@ == self@.location,
    {
        &self.location
    }

    /// The generation of the latest cycle.
    pub fn generation(&self) -> (r: u64)
        ensures
            r == self@.generation,
    {
        self.generation
    }

    /// The latest cycle's fetches.
    pub fn dispatch(&self) -> (r: Dispatch)
        ensures
            r.generation == self@.generation,
            r.location@ == self@.location,
    {
        Dispatch { generation: self.generation, location: self.location.clone() }
    }

    /// Takes a new location and starts one new cycle for it: both slots
    /// become pending and the returned fetches are the ones to run.
    pub fn set_location(&mut self, text: String) -> (r: Dispatch)
        requires
            old(self)@.generation < u64::MAX,
        ensures
            final(self)@ == old(self)@.changed(text@),
            r.generation == final(self)@.generation,
            r.location@ == text@,
    {
        self.generation = self.generation + 1;
        self.location = text;
        self.weather = Slot::Pending;
        self.forecast = Slot::Pending;
        self.dispatch()
    }

    /// Hands over the current-weather result of cycle `generation`; it is
    /// kept only when that cycle is the latest. Returns whether it was kept.
    pub fn receive_weather(&mut self, generation: u64, result: Result<WeatherData, FetchError>) -> (r: bool)
        ensures
            final(self)@ == old(self)@.with_weather(generation as nat, result),
            r == (generation == old(self)@.generation),
    {
        if generation == self.generation {
            self.weather = match result {
                Ok(d) => Slot::Ready(d),
                Err(e) => Slot::Failed(e),
            };
            true
        } else {
            false
        }
    }

    /// Hands over the forecast result of cycle `generation`; it is kept only
    /// when that cycle is the latest. Returns whether it was kept.
    pub fn receive_forecast(&mut self, generation: u64, result: Result<ForecastData, FetchError>) -> (r: bool)
        ensures
            final(self)@ == old(self)@.with_forecast(generation as nat, result),
            r == (generation == old(self)@.generation),
    {
        if generation == self.generation {
            self.forecast = match result {
                Ok(f) => Slot::Ready(f),
                Err(e) => Slot::Failed(e),
            };
            true
        } else {
            false
        }
    }

    /// What the page shows for the latest cycle's slots.
    pub fn show(&self, utc_offset_minutes: i32) -> (r: Option<WeatherView>)
        ensures
            match self@.weather {
                Slot::Ready(d) => r.is_some() && view_shows(r.unwrap(), d, self@.forecast, utc_offset_minutes as int),
                _ => r.is_none(),
            },
    {
        render(&self.weather, &self.forecast, utc_offset_minutes)
    }
}

/// Each change of location starts exactly one new cycle, for the new text,
/// with both fetches pending; a result of any cycle started before the
/// change leaves that state as it is, while a result of the new cycle fills
/// its slot.
pub proof fn lemma_change_supersedes(
    v: PipelineView,
    text: Seq<char>,
    g: nat,
    w: Result<WeatherData, FetchError>,
    f: Result<ForecastData, FetchError>,
)
    requires
        g <= v.generation,
    ensures
        v.changed(text).generation == v.generation + 1,
        v.changed(text).location == text,
        v.changed(text).weather == Slot::<WeatherData>::Pending,
        v.changed(text).forecast == Slot::<ForecastData>::Pending,
        v.changed(text).with_weather(g, w) == v.changed(text),
        v.changed(text).with_forecast(g, f) == v.changed(text),
        v.changed(text).with_weather(v.generation + 1, w).weather == slot_of(w),
        v.changed(text).with_forecast(v.generation + 1, f).forecast == slot_of(f),
{
}

} // verus!
