//! A typed adapter for a JavaScript range-slider widget.
//!
//! The crate models the full communication contract between a host
//! application and one slider widget instance: the option record handed to
//! the widget at construction, the encoding of that record into the widget's
//! native configuration shape, the decoding of native callback payloads into
//! structured events, the overlay of host-supplied label text over the
//! widget's auto-generated tooltip and pip text, and the adapter's two-state
//! lifecycle (active until destroyed).  Date formatting and random test-data
//! generation for the date-slider application sit on top of the same model.

pub mod config;
pub mod dates;
pub mod event;
pub mod options;
pub mod random;
pub mod slider;
