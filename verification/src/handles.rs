//! The opaque handle wrappers: one caller-visible type per foreign
//! resource category.
//!
//! Each wrapper exclusively owns exactly one foreign pointer.  Its
//! destruction protocol — the matching foreign destructor — fires at most
//! once per instance, whether an explicit clear or a finalizer triggers
//! it; the one-shot guard lives in [`ForeignHandle`] and is shared by all
//! wrapper types.

use vstd::prelude::*;
use crate::foreign::{ForeignEngine, HaskellValue};

verus! {

/// One exclusively owned foreign pointer together with its consumed flag.
///
/// The flag makes the release a one-shot: the pointer comes out of
/// [`ForeignHandle::release`] on the first call alone, so whatever
/// destructor the owner runs on it cannot run twice.
#[derive(Debug)]
pub struct ForeignHandle {
    value: HaskellValue,
    released: bool,
}

impl ForeignHandle {
    /// The foreign pointer this handle owns.
    pub closed spec fn spec_value(self) -> HaskellValue {
        self.value
    }

    /// Whether the handle was already released.
    pub closed spec fn released(self) -> bool {
        self.released
    }

    /// The state after a call of [`ForeignHandle::release`].
    pub closed spec fn release_step(self) -> ForeignHandle {
        ForeignHandle { released: true, ..self }
    }

    /// Whether a call of [`ForeignHandle::release`] on this state hands
    /// the pointer out for destruction.
    pub open spec fn release_fires(self) -> bool {
        !self.released()
    }

    /// Takes exclusive ownership of a foreign pointer fresh from the
    /// engine.
    pub fn adopt(value: HaskellValue) -> (h: ForeignHandle)
        ensures
            !h.released(),
            h.spec_value() == value,
    {
        ForeignHandle { value, released: false }
    }

    /// The owned pointer, for handing back to the engine as an argument.
    pub fn value(&self) -> (v: HaskellValue)
        requires
            !self.released(),
        ensures
            v == self.spec_value(),
    {
        self.value
    }

    /// Whether the handle was already released.
    pub fn is_released(&self) -> (b: bool)
        ensures
            b == self.released(),
    {
        self.released
    }

    /// Consumes the one-shot: the first call returns the owned pointer so
    /// that the caller may destroy it; every later call returns nothing.
    pub fn release(&mut self) -> (r: Option<HaskellValue>)
        ensures
            *final(self) == old(self).release_step(),
            final(self).released(),
            final(self).spec_value() == old(self).spec_value(),
            r == if old(self).released() { None::<HaskellValue> } else {
                Some(old(self).spec_value())
            },
    {
        if self.released {
            None
        } else {
            self.released = true;
            Some(self.value)
        }
    }
}

/// Law: a handle releases its pointer at most once — after any release,
/// a further release changes nothing and hands nothing out, so the foreign
/// destructor behind it cannot be reached twice.  Every wrapper type below
/// inherits this through its `clear`.
pub proof fn lemma_release_at_most_once(h: ForeignHandle)
    ensures
        !h.release_step().release_fires(),
        h.release_step().release_step() == h.release_step(),
{
}

/// Handle to the time-zone database the engine loaded.
#[derive(Debug)]
pub struct TimeZoneDatabaseWrapper {
    handle: ForeignHandle,
}

impl TimeZoneDatabaseWrapper {
    /// The foreign pointer this wrapper owns.
    pub closed spec fn spec_value(self) -> HaskellValue {
        self.handle.spec_value()
    }

    /// Whether the foreign destructor already ran for this wrapper.
    pub closed spec fn cleared(self) -> bool {
        self.handle.released()
    }

    /// Wraps a foreign pointer fresh from the engine.  Only the facade and
    /// the extension boundary construct wrappers; a caller never invents
    /// the pointer value.
    pub fn adopt(value: HaskellValue) -> (w: Self)
        ensures
            !w.cleared(),
            w.spec_value() == value,
    {
        TimeZoneDatabaseWrapper { handle: ForeignHandle::adopt(value) }
    }

    /// The owned pointer, for handing back to the engine.
    pub fn value(&self) -> (v: HaskellValue)
        requires
            !self.cleared(),
        ensures
            v == self.spec_value(),
    {
        self.handle.value()
    }

    /// Whether the foreign destructor already ran for this wrapper.
    pub fn is_cleared(&self) -> (b: bool)
        ensures
            b == self.cleared(),
    {
        self.handle.is_released()
    }

    /// Runs the category's foreign destructor, on the first call alone;
    /// later calls reach the engine not at all.  The returned flag says
    /// whether this call was the one that destroyed the pointer.
    pub fn clear<E: ForeignEngine>(&mut self, engine: &mut E) -> (fired: bool)
        ensures
            final(self).cleared(),
            final(self).spec_value() == old(self).spec_value(),
            fired == !old(self).cleared(),
    {
        match self.handle.release() {
            Some(v) => {
                engine.tzdb_destroy(v);
                true
            },
            None => false,
        }
    }
}

/// Handle to a reference-time value held by the engine.
#[derive(Debug)]
pub struct DucklingTimeWrapper {
    handle: ForeignHandle,
}

impl DucklingTimeWrapper {
    /// The foreign pointer this wrapper owns.
    pub closed spec fn spec_value(self) -> HaskellValue {
        self.handle.spec_value()
    }

    /// Whether the foreign destructor already ran for this wrapper.
    pub closed spec fn cleared(self) -> bool {
        self.handle.released()
    }

    /// Wraps a foreign pointer fresh from the engine.
    pub fn adopt(value: HaskellValue) -> (w: Self)
        ensures
            !w.cleared(),
            w.spec_value() == value,
    {
        DucklingTimeWrapper { handle: ForeignHandle::adopt(value) }
    }

    /// The owned pointer, for handing back to the engine.
    pub fn value(&self) -> (v: HaskellValue)
        requires
            !self.cleared(),
        ensures
            v == self.spec_value(),
    {
        self.handle.value()
    }

    /// Whether the foreign destructor already ran for this wrapper.
    pub fn is_cleared(&self) -> (b: bool)
        ensures
            b == self.cleared(),
    {
        self.handle.is_released()
    }

    /// Runs the category's foreign destructor, on the first call alone.
    pub fn clear<E: ForeignEngine>(&mut self, engine: &mut E) -> (fired: bool)
        ensures
            final(self).cleared(),
            final(self).spec_value() == old(self).spec_value(),
            fired == !old(self).cleared(),
    {
        match self.handle.release() {
            Some(v) => {
                engine.time_destroy(v);
                true
            },
            None => false,
        }
    }
}

/// Handle to a language code held by the engine.
#[derive(Debug)]
pub struct LanguageWrapper {
    handle: ForeignHandle,
}

impl LanguageWrapper {
    /// The foreign pointer this wrapper owns.
    pub closed spec fn spec_value(self) -> HaskellValue {
        self.handle.spec_value()
    }

    /// Whether the foreign destructor already ran for this wrapper.
    pub closed spec fn cleared(self) -> bool {
        self.handle.released()
    }

    /// Wraps a foreign pointer fresh from the engine.
    pub fn adopt(value: HaskellValue) -> (w: Self)
        ensures
            !w.cleared(),
            w.spec_value() == value,
    {
        LanguageWrapper { handle: ForeignHandle::adopt(value) }
    }

    /// The owned pointer, for handing back to the engine.
    pub fn value(&self) -> (v: HaskellValue)
        requires
            !self.cleared(),
        ensures
            v == self.spec_value(),
    {
        self.handle.value()
    }

    /// Whether the foreign destructor already ran for this wrapper.
    pub fn is_cleared(&self) -> (b: bool)
        ensures
            b == self.cleared(),
    {
        self.handle.is_released()
    }

    /// Runs the category's foreign destructor, on the first call alone.
    pub fn clear<E: ForeignEngine>(&mut self, engine: &mut E) -> (fired: bool)
        ensures
            final(self).cleared(),
            final(self).spec_value() == old(self).spec_value(),
            fired == !old(self).cleared(),
    {
        match self.handle.release() {
            Some(v) => {
                engine.lang_destroy(v);
                true
            },
            None => false,
        }
    }
}

/// Handle to a locale held by the engine.
#[derive(Debug)]
pub struct LocaleWrapper {
    handle: ForeignHandle,
}

impl LocaleWrapper {
    /// The foreign pointer this wrapper owns.
    pub closed spec fn spec_value(self) -> HaskellValue {
        self.handle.spec_value()
    }

    /// Whether the foreign destructor already ran for this wrapper.
    pub closed spec fn cleared(self) -> bool {
        self.handle.released()
    }

    /// Wraps a foreign pointer fresh from the engine.
    pub fn adopt(value: HaskellValue) -> (w: Self)
        ensures
            !w.cleared(),
            w.spec_value() == value,
    {
        LocaleWrapper { handle: ForeignHandle::adopt(value) }
    }

    /// The owned pointer, for handing back to the engine.
    pub fn value(&self) -> (v: HaskellValue)
        requires
            !self.cleared(),
        ensures
            v == self.spec_value(),
    {
        self.handle.value()
    }

    /// Whether the foreign destructor already ran for this wrapper.
    pub fn is_cleared(&self) -> (b: bool)
        ensures
            b == self.cleared(),
    {
        self.handle.is_released()
    }

    /// Runs the category's foreign destructor, on the first call alone.
    pub fn clear<E: ForeignEngine>(&mut self, engine: &mut E) -> (fired: bool)
        ensures
            final(self).cleared(),
            final(self).spec_value() == old(self).spec_value(),
            fired == !old(self).cleared(),
    {
        match self.handle.release() {
            Some(v) => {
                engine.locale_destroy(v);
                true
            },
            None => false,
        }
    }
}

/// Handle to one parsing-dimension identifier held by the engine.
#[derive(Debug)]
pub struct DimensionWrapper {
    handle: ForeignHandle,
}

impl DimensionWrapper {
    /// The foreign pointer this wrapper owns.
    pub closed spec fn spec_value(self) -> HaskellValue {
        self.handle.spec_value()
    }

    /// Whether the foreign destructor already ran for this wrapper.
    pub closed spec fn cleared(self) -> bool {
        self.handle.released()
    }

    /// Wraps a foreign pointer fresh from the engine.
    pub fn adopt(value: HaskellValue) -> (w: Self)
        ensures
            !w.cleared(),
            w.spec_value() == value,
    {
        DimensionWrapper { handle: ForeignHandle::adopt(value) }
    }

    /// The owned pointer, for handing back to the engine.
    pub fn value(&self) -> (v: HaskellValue)
        requires
            !self.cleared(),
        ensures
            v == self.spec_value(),
    {
        self.handle.value()
    }

    /// Whether the foreign destructor already ran for this wrapper.
    pub fn is_cleared(&self) -> (b: bool)
        ensures
            b == self.cleared(),
    {
        self.handle.is_released()
    }

    /// Runs the category's foreign destructor, on the first call alone.
    pub fn clear<E: ForeignEngine>(&mut self, engine: &mut E) -> (fired: bool)
        ensures
            final(self).cleared(),
            final(self).spec_value() == old(self).spec_value(),
            fired == !old(self).cleared(),
    {
        match self.handle.release() {
            Some(v) => {
                engine.dimension_destroy(v);
                true
            },
            None => false,
        }
    }
}

/// Unpacks a foreign array of dimension pointers into an ordered list of
/// fresh wrappers: one wrapper per pointer, in order, the i-th wrapper
/// taking exclusive ownership of the i-th pointer.
pub fn wrap_dimension_ptrs(ptrs: &Vec<HaskellValue>) -> (ws: Vec<DimensionWrapper>)
    ensures
        ws@.len() == ptrs@.len(),
        forall|k: int|
            0 <= k < ptrs@.len() ==> (#[trigger] ws@[k]).spec_value() == ptrs@[k]
                && !ws@[k].cleared(),
{
    let n = ptrs.len();
    let mut ws: Vec<DimensionWrapper> = Vec::new();
    let mut i: usize = 0;
    while i < n
        invariant
            n == ptrs@.len(),
            0 <= i <= n,
            ws@.len() == i,
            forall|k: int|
                0 <= k < i ==> (#[trigger] ws@[k]).spec_value() == ptrs@[k] && !ws@[k].cleared(),
        decreases n - i,
    {
        ws.push(DimensionWrapper::adopt(ptrs[i]));
        i = i + 1;
    }
    ws
}

/// Packs an ordered list of live dimension wrappers into the pointer list
/// a transient foreign array is built from: one pointer per wrapper, in
/// order, the i-th pointer being exactly the one the i-th wrapper owns.
/// Ownership does not move: the wrappers stay live.
pub fn dimension_ptrs(dimensions: &Vec<DimensionWrapper>) -> (ptrs: Vec<HaskellValue>)
    requires
        forall|k: int| 0 <= k < dimensions@.len() ==> !(#[trigger] dimensions@[k]).cleared(),
    ensures
        ptrs@.len() == dimensions@.len(),
        forall|k: int|
            0 <= k < dimensions@.len() ==> #[trigger] ptrs@[k] == dimensions@[k].spec_value(),
{
    let n = dimensions.len();
    let mut ptrs: Vec<HaskellValue> = Vec::new();
    let mut i: usize = 0;
    while i < n
        invariant
            n == dimensions@.len(),
            0 <= i <= n,
            ptrs@.len() == i,
            forall|k: int| 0 <= k < n ==> !(#[trigger] dimensions@[k]).cleared(),
            forall|k: int| 0 <= k < i ==> #[trigger] ptrs@[k] == dimensions@[k].spec_value(),
        decreases n - i,
    {
        let w = &dimensions[i];
        ptrs.push(w.value());
        i = i + 1;
    }
    ptrs
}

/// The reference time and locale a parse runs against.
///
/// A `Context` owns its two fields as values, but the foreign pointers
/// inside them remain the independently destroyed resources of their
/// wrappers; dropping a `Context` destroys no foreign memory.
#[derive(Debug)]
pub struct Context {
    /// The point in time relative expressions are resolved against.
    pub reference_time: DucklingTimeWrapper,
    /// The locale the text is parsed under.
    pub locale: LocaleWrapper,
}

impl Context {
    /// Pairs a reference time with a locale.
    pub fn new(reference_time: DucklingTimeWrapper, locale: LocaleWrapper) -> (c: Context)
        ensures
            c.reference_time == reference_time,
            c.locale == locale,
    {
        Context { reference_time, locale }
    }
}

} // verus!
