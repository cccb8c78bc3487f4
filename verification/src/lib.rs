//! A memory-safety bridge around an embedded natural-language parsing engine.
//!
//! The engine itself lives behind a C ABI and runs inside its own managed
//! runtime; this crate owns everything on the near side of that boundary:
//! starting and stopping the foreign runtime exactly once per process,
//! wrapping the opaque pointers the engine hands out so that each is
//! destroyed at most once, and converting between native text and the
//! C calling convention's null-terminated byte buffers.

pub mod errors;
pub mod facade;
pub mod foreign;
pub mod handles;
pub mod runtime;
pub mod text;

pub use errors::DucklingError;
pub use facade::{
    default_locale_lang, get_current_ref_time, load_time_zones, parse_dimensions, parse_lang,
    parse_locale, parse_ref_time, parse_text,
};
pub use foreign::{ForeignEngine, HaskellValue};
pub use handles::{
    dimension_ptrs, wrap_dimension_ptrs, Context, DimensionWrapper, DucklingTimeWrapper,
    ForeignHandle, LanguageWrapper, LocaleWrapper, TimeZoneDatabaseWrapper,
};
pub use runtime::{init, shutdown, stop, Runtime};
pub use text::{marshal_texts, CText, ManagedString};
