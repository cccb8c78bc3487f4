//! The parsing facade: the per-call entry points a caller sees.
//!
//! Every operation converts its native inputs through the marshaling
//! layer, drives the engine through the [`ForeignEngine`] trait, and wraps
//! what comes back.  Two preconditions guard the whole surface, and both
//! are enforced here rather than assumed: the foreign runtime must be in
//! the `Running` state (otherwise `RuntimeNotInitialized` comes back and
//! the engine is never reached), and text must be free of embedded null
//! bytes (otherwise `InvalidText` comes back before any foreign call).
//! Handles passed in must still be live; that callers do not feed a
//! destroyed handle back in is the one demand stated as a precondition,
//! since a use-after-free cannot be turned into an error at this layer.

use vstd::prelude::*;
use crate::errors::DucklingError;
use crate::foreign::ForeignEngine;
use crate::handles::{
    dimension_ptrs, wrap_dimension_ptrs, Context, DimensionWrapper, DucklingTimeWrapper,
    LanguageWrapper, LocaleWrapper, TimeZoneDatabaseWrapper,
};
use crate::runtime::Runtime;
use crate::text::{decode_lossy, marshal_texts, text_marshalable, CText};

verus! {

/// Loads time-zone information from the Olson files under `path`.
/// Trouble with the files themselves is the engine's to report.
pub fn load_time_zones<E: ForeignEngine>(engine: &mut E, rt: &Runtime, path: &str) -> (r: Result<
    TimeZoneDatabaseWrapper,
    DucklingError,
>)
    ensures
        r is Ok <==> rt.is_running() && text_marshalable(path@),
        !rt.is_running() ==> r == Err::<TimeZoneDatabaseWrapper, DucklingError>(
            DucklingError::RuntimeNotInitialized,
        ),
        rt.is_running() && !text_marshalable(path@) ==> r == Err::<
            TimeZoneDatabaseWrapper,
            DucklingError,
        >(DucklingError::InvalidText),
        r matches Ok(w) ==> !w.cleared(),
{
    if !rt.running() {
        return Err(DucklingError::RuntimeNotInitialized);
    }
    let c_path = match CText::from_native(path) {
        Ok(t) => t,
        Err(e) => {
            return Err(e);
        },
    };
    let ptr = engine.load_time_zone_series(&c_path);
    Ok(TimeZoneDatabaseWrapper::adopt(ptr))
}

/// The current wall-clock reference time in the named IANA zone.
pub fn get_current_ref_time<E: ForeignEngine>(
    engine: &mut E,
    rt: &Runtime,
    tz_db: &TimeZoneDatabaseWrapper,
    tz: &str,
) -> (r: Result<DucklingTimeWrapper, DucklingError>)
    requires
        !tz_db.cleared(),
    ensures
        r is Ok <==> rt.is_running() && text_marshalable(tz@),
        !rt.is_running() ==> r == Err::<DucklingTimeWrapper, DucklingError>(
            DucklingError::RuntimeNotInitialized,
        ),
        rt.is_running() && !text_marshalable(tz@) ==> r == Err::<
            DucklingTimeWrapper,
            DucklingError,
        >(DucklingError::InvalidText),
        r matches Ok(w) ==> !w.cleared(),
{
    if !rt.running() {
        return Err(DucklingError::RuntimeNotInitialized);
    }
    let c_tz = match CText::from_native(tz) {
        Ok(t) => t,
        Err(e) => {
            return Err(e);
        },
    };
    let ptr = engine.current_ref_time(tz_db.value(), &c_tz);
    Ok(DucklingTimeWrapper::adopt(ptr))
}

/// A reference time built from a UNIX timestamp in the named IANA zone;
/// deterministic in its inputs, engine-side.
pub fn parse_ref_time<E: ForeignEngine>(
    engine: &mut E,
    rt: &Runtime,
    tz_db: &TimeZoneDatabaseWrapper,
    tz: &str,
    timestamp: i64,
) -> (r: Result<DucklingTimeWrapper, DucklingError>)
    requires
        !tz_db.cleared(),
    ensures
        r is Ok <==> rt.is_running() && text_marshalable(tz@),
        !rt.is_running() ==> r == Err::<DucklingTimeWrapper, DucklingError>(
            DucklingError::RuntimeNotInitialized,
        ),
        rt.is_running() && !text_marshalable(tz@) ==> r == Err::<
            DucklingTimeWrapper,
            DucklingError,
        >(DucklingError::InvalidText),
        r matches Ok(w) ==> !w.cleared(),
{
    if !rt.running() {
        return Err(DucklingError::RuntimeNotInitialized);
    }
    let c_tz = match CText::from_native(tz) {
        Ok(t) => t,
        Err(e) => {
            return Err(e);
        },
    };
    let ptr = engine.parse_ref_time(tz_db.value(), &c_tz, timestamp);
    Ok(DucklingTimeWrapper::adopt(ptr))
}

/// A language handle for an ISO-639-1 code.  An unsupported or unknown
/// code is no error: the engine defaults it to English.
pub fn parse_lang<E: ForeignEngine>(engine: &mut E, rt: &Runtime, lang: &str) -> (r: Result<
    LanguageWrapper,
    DucklingError,
>)
    ensures
        r is Ok <==> rt.is_running() && text_marshalable(lang@),
        !rt.is_running() ==> r == Err::<LanguageWrapper, DucklingError>(
            DucklingError::RuntimeNotInitialized,
        ),
        rt.is_running() && !text_marshalable(lang@) ==> r == Err::<LanguageWrapper, DucklingError>(
            DucklingError::InvalidText,
        ),
        r matches Ok(w) ==> !w.cleared(),
{
    if !rt.running() {
        return Err(DucklingError::RuntimeNotInitialized);
    }
    let c_lang = match CText::from_native(lang) {
        Ok(t) => t,
        Err(e) => {
            return Err(e);
        },
    };
    let ptr = engine.parse_lang(&c_lang);
    Ok(LanguageWrapper::adopt(ptr))
}

/// The default locale of a language.
pub fn default_locale_lang<E: ForeignEngine>(
    engine: &mut E,
    rt: &Runtime,
    lang: &LanguageWrapper,
) -> (r: Result<LocaleWrapper, DucklingError>)
    requires
        !lang.cleared(),
    ensures
        r is Ok <==> rt.is_running(),
        !rt.is_running() ==> r == Err::<LocaleWrapper, DucklingError>(
            DucklingError::RuntimeNotInitialized,
        ),
        r matches Ok(w) ==> !w.cleared(),
{
    if !rt.running() {
        return Err(DucklingError::RuntimeNotInitialized);
    }
    let ptr = engine.default_locale(lang.value());
    Ok(LocaleWrapper::adopt(ptr))
}

/// A locale parsed from text.  An invalid locale string is no error: the
/// engine falls back silently to the supplied default.
pub fn parse_locale<E: ForeignEngine>(
    engine: &mut E,
    rt: &Runtime,
    locale: &str,
    default_locale: &LocaleWrapper,
) -> (r: Result<LocaleWrapper, DucklingError>)
    requires
        !default_locale.cleared(),
    ensures
        r is Ok <==> rt.is_running() && text_marshalable(locale@),
        !rt.is_running() ==> r == Err::<LocaleWrapper, DucklingError>(
            DucklingError::RuntimeNotInitialized,
        ),
        rt.is_running() && !text_marshalable(locale@) ==> r == Err::<LocaleWrapper, DucklingError>(
            DucklingError::InvalidText,
        ),
        r matches Ok(w) ==> !w.cleared(),
{
    if !rt.running() {
        return Err(DucklingError::RuntimeNotInitialized);
    }
    let c_locale = match CText::from_native(locale) {
        Ok(t) => t,
        Err(e) => {
            return Err(e);
        },
    };
    let ptr = engine.parse_locale(&c_locale, default_locale.value());
    Ok(LocaleWrapper::adopt(ptr))
}

/// Turns an ordered list of dimension names into an ordered list of
/// dimension handles.  Every name is marshaled under the null-byte rule;
/// the engine's transient list is unpacked and released here, while
/// ownership of each identifier it held moves into a fresh wrapper.
/// Unknown names are the engine's concern, not an error of this layer.
pub fn parse_dimensions<E: ForeignEngine>(engine: &mut E, rt: &Runtime, dims: &Vec<String>) -> (r:
    Result<Vec<DimensionWrapper>, DucklingError>)
    ensures
        r is Ok <==> rt.is_running() && (forall|k: int|
            0 <= k < dims@.len() ==> text_marshalable(#[trigger] dims@[k]@)),
        !rt.is_running() ==> r == Err::<Vec<DimensionWrapper>, DucklingError>(
            DucklingError::RuntimeNotInitialized,
        ),
        rt.is_running() && (exists|k: int|
            0 <= k < dims@.len() && !text_marshalable(#[trigger] dims@[k]@)) ==> r == Err::<
            Vec<DimensionWrapper>,
            DucklingError,
        >(DucklingError::InvalidText),
        r matches Ok(ws) ==> forall|k: int| 0 <= k < ws@.len() ==> !(#[trigger] ws@[k]).cleared(),
{
    if !rt.running() {
        return Err(DucklingError::RuntimeNotInitialized);
    }
    let c_names = match marshal_texts(dims) {
        Ok(cs) => cs,
        Err(e) => {
            return Err(e);
        },
    };
    let list = engine.parse_dimensions(&c_names);
    let len = engine.dimension_list_length(list);
    let ptrs = engine.dimension_list_ptrs(list, len);
    engine.dimension_list_destroy(list);
    Ok(wrap_dimension_ptrs(&ptrs))
}

/// Parses text against a context and a list of dimensions.  A transient
/// foreign dimension list is built for the call and released before this
/// function returns, on every path; the engine's structured result comes
/// back decoded under the lossy rule, since it is machine-readable
/// content rather than an opaque token.
pub fn parse_text<E: ForeignEngine>(
    engine: &mut E,
    rt: &Runtime,
    text: &str,
    context: &Context,
    dimensions: &Vec<DimensionWrapper>,
    with_latent: bool,
) -> (r: Result<String, DucklingError>)
    requires
        !context.reference_time.cleared(),
        !context.locale.cleared(),
        forall|k: int| 0 <= k < dimensions@.len() ==> !(#[trigger] dimensions@[k]).cleared(),
    ensures
        r is Ok <==> rt.is_running() && text_marshalable(text@),
        !rt.is_running() ==> r == Err::<String, DucklingError>(
            DucklingError::RuntimeNotInitialized,
        ),
        rt.is_running() && !text_marshalable(text@) ==> r == Err::<String, DucklingError>(
            DucklingError::InvalidText,
        ),
{
    if !rt.running() {
        return Err(DucklingError::RuntimeNotInitialized);
    }
    let c_text = match CText::from_native(text) {
        Ok(t) => t,
        Err(e) => {
            return Err(e);
        },
    };
    let dim_ptrs = dimension_ptrs(dimensions);
    let dim_list = engine.dimension_list_create(&dim_ptrs);
    let raw = engine.parse_text(
        &c_text,
        context.reference_time.value(),
        context.locale.value(),
        dim_list,
        with_latent,
    );
    engine.dimension_list_destroy(dim_list);
    Ok(decode_lossy(&raw))
}

} // verus!
