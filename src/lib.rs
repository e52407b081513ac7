//! Display logic of a small weather page: clock times, rounded
//! temperatures, the rendered view of the two fetched records, and the
//! generation counter that discards superseded fetch results.
pub mod time;
pub mod model;
pub mod temperature;
pub mod view;
pub mod pipeline;
pub mod client;
