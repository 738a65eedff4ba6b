//! What the procedures and functions of the library come to, stated from the outside: by what goes
//! in and what comes out, over whole runs where there is more than one step.
//!
//! - [`duplex_building`] and [`building`]: whole runs of building a stream;
//! - [`rates`]: whole runs of changing a sample rate;
//! - [`devices`]: what devices are described as, offer and are set to;
//! - [`rendering`]: device cycles and callbacks;
//! - [`streams`]: built streams and their devices;
//! - [`operations`]: what single operations give back;
//! - [`values`]: numbers, times, sizes and texts.

pub mod building;
pub mod devices;
pub mod duplex_building;
pub mod operations;
pub mod rates;
pub mod rendering;
pub mod streams;
pub mod values;
