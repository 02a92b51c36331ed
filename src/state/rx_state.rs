//! The contracts of reactive state: every state type has one reactive
//! counterpart, and the two convert into each other without loss.
use std::collections::HashMap;
use vstd::prelude::*;

verus! {

/// A reactive value that can be collapsed back into the plain value it
/// stands for.
pub trait MakeUnrx: Sized {
    /// The plain type.
    type Unrx;

    /// The plain value that this reactive value stands for.
    spec fn unrx_view(&self) -> Self::Unrx;

    /// Collapses the reactive value into its plain value.
    fn make_unrx(self) -> (r: Self::Unrx)
        ensures
            r == self.unrx_view(),
    ;
}

/// A plain state type with a reactive counterpart.
pub trait MakeRx: Sized {
    /// The reactive type.
    type Rx: MakeUnrx<Unrx = Self>;

    /// Whether hot state reloading leaves this type out of thawing, so that
    /// freshly generated state always wins (a development-only setting).
    spec fn hsr_ignored() -> bool;

    fn hsr_ignore() -> (r: bool)
        ensures
            r == Self::hsr_ignored(),
    ;

    /// Makes the reactive counterpart of the value, which stands for the
    /// value itself.
    fn make_rx(self) -> (r: Self::Rx)
        ensures
            r.unrx_view() == self,
    ;
}

/// A reactive value that can be frozen into a string, to be thawed after a
/// full reload.
pub trait Freeze {
    fn freeze(&self) -> String;
}

/// A marker for plain state types that are used without a reactive
/// counterpart of their own.
pub trait UnreactiveState {}

/// The reactive counterpart of an unreactive state type: the value itself.
pub struct UnreactiveStateWrapper<T: UnreactiveState>(pub T);

impl<T: UnreactiveState> MakeRx for T {
    type Rx = UnreactiveStateWrapper<T>;

    /// Unreactive state never changes in the browser, so there is nothing
    /// to preserve across reloads.
    open spec fn hsr_ignored() -> bool {
        true
    }

    fn hsr_ignore() -> (r: bool) {
        true
    }

    fn make_rx(self) -> (r: UnreactiveStateWrapper<T>) {
        UnreactiveStateWrapper(self)
    }
}

impl<T: UnreactiveState> MakeUnrx for UnreactiveStateWrapper<T> {
    type Unrx = T;

    open spec fn unrx_view(&self) -> T {
        self.0
    }

    fn make_unrx(self) -> (r: T) {
        self.0
    }
}

/// Whether hot state reloading restores frozen state of type `S`: only
/// where some was frozen and the type does not opt out.
pub fn should_thaw<S: MakeRx>(frozen_available: bool) -> (r: bool)
    ensures
        r == (frozen_available && !S::hsr_ignored()),
{
    frozen_available && !S::hsr_ignore()
}

/// Making a value reactive and collapsing it again gives the value back,
/// for every state type.
pub fn round_trip<T: MakeRx>(v: T) -> (r: T)
    ensures
        r == v,
{
    v.make_rx().make_unrx()
}

/// A map used as state, whose entries are each made reactive in the
/// browser.
pub struct RxHashMap<K, V>(pub HashMap<K, V>);

impl<K, V> RxHashMap<K, V> {
    /// The map itself.
    pub fn get(&self) -> (r: &HashMap<K, V>)
        ensures
            *r == self.0,
    {
        &self.0
    }
}

impl<K, V> From<HashMap<K, V>> for RxHashMap<K, V> {
    fn from(value: HashMap<K, V>) -> (r: RxHashMap<K, V>) {
        RxHashMap(value)
    }
}

impl<K, V> vstd::std_specs::convert::FromSpecImpl<HashMap<K, V>> for RxHashMap<K, V> {
    open spec fn obeys_from_spec() -> bool {
        true
    }

    open spec fn from_spec(v: HashMap<K, V>) -> RxHashMap<K, V> {
        RxHashMap(v)
    }
}

} // verus!
