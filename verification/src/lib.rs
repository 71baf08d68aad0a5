//! Natural language detection over a configurable set of candidate languages.
//!
//! The statistical engine is the `lingua` crate. This crate validates the
//! configuration, keeps the catalogue of languages as plain values and states,
//! for every operation, what a caller may rely on.
//!
//! The catalogue holds the languages whose `lingua` features the manifest
//! enables. Each language brings its models, some hundred megabytes for all
//! of them together, so the manifest names a dozen. A language that is not
//! enabled there is unknown here, by its name and by its codes.

pub mod config;
pub mod detector;
pub mod language;

pub use config::{resolve_languages, ConfigError, LanguageOrString, RelativeDistance};
pub use detector::{ranking_with_signal, Confidence, Detector};
pub use language::{Language, UnknownCodeError, UnknownLanguageError};
