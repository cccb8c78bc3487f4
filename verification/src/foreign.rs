//! The foreign boundary: the opaque values the engine hands out, and the
//! fixed C-ABI entry-point set the bridge drives.
//!
//! Everything below this boundary is out of the bridge's hands.  The bridge
//! never inspects a [`HaskellValue`]; it only stores one and later passes it
//! back to the engine that produced it.  Accordingly the [`ForeignEngine`]
//! trait carries no `ensures` at all: every proof in this crate holds for
//! every implementation of it, whether that is the real engine linked over
//! FFI or a counting test double.

use vstd::prelude::*;
use crate::text::CText;

verus! {

/// A stand-in for a pointer into the foreign runtime's heap.
///
/// The engine mints these; the bridge treats them as opaque tokens whose
/// only meaningful operation is handing them back to the engine, either as
/// an argument of a later call or to the matching destructor.
#[derive(Clone, Copy, Debug, PartialEq, Eq, Structural)]
pub enum HaskellValue {
    Opaque(u64),
}

/// The fixed entry-point set of the embedded parsing engine, plus the two
/// process services the lifecycle manager needs (starting and stopping the
/// foreign runtime, and installing the process-exit hook).
///
/// The trait promises nothing of its results: the engine's behaviour is an
/// external matter.  What the bridge guarantees — and proves — is that it
/// drives these entry points safely: no call before the runtime is running,
/// no destructor twice for the same handle, no text with an embedded null
/// byte, and the transient dimension list of a parse released before the
/// call returns.
pub trait ForeignEngine {
    /// Start the foreign managed runtime with an empty argument vector.
    fn runtime_init(&mut self);

    /// Install a process-exit hook that will run the shared shutdown path.
    fn install_exit_hook(&mut self);

    /// Shut the foreign managed runtime down.
    fn runtime_exit(&mut self);

    /// Load a time-zone database from the Olson files under `path`.
    fn load_time_zone_series(&mut self, path: &CText) -> HaskellValue;

    /// The current wall-clock time in the named IANA zone.
    fn current_ref_time(&mut self, tzdb: HaskellValue, tz: &CText) -> HaskellValue;

    /// A reference time from a UNIX timestamp in the named IANA zone.
    fn parse_ref_time(&mut self, tzdb: HaskellValue, tz: &CText, timestamp: i64) -> HaskellValue;

    /// A language handle for an ISO-639-1 code; the engine defaults
    /// unsupported codes to English rather than failing.
    fn parse_lang(&mut self, lang: &CText) -> HaskellValue;

    /// The default locale of a language.
    fn default_locale(&mut self, lang: HaskellValue) -> HaskellValue;

    /// A locale parsed from text, falling back to the given default.
    fn parse_locale(&mut self, locale: &CText, default_locale: HaskellValue) -> HaskellValue;

    /// A foreign list of dimension identifiers parsed from the given names.
    fn parse_dimensions(&mut self, names: &Vec<CText>) -> HaskellValue;

    /// How many dimension identifiers a foreign dimension list holds.
    fn dimension_list_length(&mut self, dims: HaskellValue) -> usize;

    /// The `len` pointers a foreign dimension list holds, read from its
    /// backing array; ownership of each element transfers to the caller.
    fn dimension_list_ptrs(&mut self, dims: HaskellValue, len: usize) -> Vec<HaskellValue>;

    /// Pack individual dimension identifiers into a fresh foreign list.
    fn dimension_list_create(&mut self, ptrs: &Vec<HaskellValue>) -> HaskellValue;

    /// Release a foreign dimension list (not the identifiers it held).
    fn dimension_list_destroy(&mut self, dims: HaskellValue);

    /// Destroy one dimension identifier.
    fn dimension_destroy(&mut self, dim: HaskellValue);

    /// Destroy a time-zone database.
    fn tzdb_destroy(&mut self, db: HaskellValue);

    /// Destroy a reference-time value.
    fn time_destroy(&mut self, time: HaskellValue);

    /// Destroy a language handle.
    fn lang_destroy(&mut self, lang: HaskellValue);

    /// Destroy a locale handle.
    fn locale_destroy(&mut self, locale: HaskellValue);

    /// Run the parse proper: the engine returns its result as the bytes of
    /// a C string (a machine-readable structured token).
    fn parse_text(
        &mut self,
        text: &CText,
        reference_time: HaskellValue,
        locale: HaskellValue,
        dimensions: HaskellValue,
        with_latent: bool,
    ) -> Vec<u8>;
}

} // verus!
