//! A reader for a ranked-story feed: resolves a sort mode to a list
//! resource, bounds the list of story identifiers, collects the stories one
//! by one while tolerating individual failures, and lays the result out for
//! display. The library decides; a driver performs the network requests and
//! the printing that the library asks for.

pub mod text;
pub mod story;
pub mod json;
pub mod config;
pub mod error;
pub mod collector;
pub mod present;
pub mod pipeline;

pub use collector::{Collector, Progress};
pub use config::{item_url, list_url, Config, ConfigError, SortMode, DEFAULT_COUNT};
pub use error::{FetchError, TransportError};
pub use json::{decode_ids, decode_story};
pub use pipeline::{Action, Event, Phase, Pipeline, Step};
pub use present::{entry, render, Entry};
pub use story::{DecodeError, Field, FieldName, ItemFields, Story};
