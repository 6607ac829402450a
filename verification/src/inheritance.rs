//! A derived type and the base it embeds.
//!
//! A [`SubClassA`] owns exactly one [`BaseClass`], built in the same step as
//! the derived state and never replaced. The base is reached through a
//! read-only view, so a method of the base keeps its meaning when it is
//! called on behalf of the derived instance.

use vstd::prelude::*;
use crate::errors::{ErrorCategory, NativeError, NativeErrorView};

verus! {

/// What a [`BaseClass`] holds.
pub struct BaseClassView {
    pub id: int,
}

/// What a [`SubClassA`] holds: its own field and the state of its base.
pub struct SubClassAView {
    pub base: BaseClassView,
    pub id2: int,
}

impl BaseClassView {
    /// What `methoda` returns on a base in this state.
    pub open spec fn methoda(self) -> int {
        self.id
    }
}

impl SubClassAView {
    /// The state of the embedded base.
    pub open spec fn as_super(self) -> BaseClassView {
        self.base
    }

    /// What `methoda` returns on a derived instance in this state: what the
    /// base returns.
    pub open spec fn methoda(self) -> int {
        self.as_super().methoda()
    }

    /// What `get_id` returns on a derived instance in this state.
    pub open spec fn get_id(self) -> int {
        self.id2
    }

    /// The state after `set_id(value)`: the field is replaced, the base is
    /// untouched.
    pub open spec fn set_id(self, value: int) -> SubClassAView {
        SubClassAView { base: self.base, id2: value }
    }
}

/// The state of a base built with `id`.
pub open spec fn base_of(id: int) -> BaseClassView {
    BaseClassView { id }
}

/// The state of a derived instance built with `id`: its own field is
/// `34 * id`, its base is the base built with `id`.
pub open spec fn derived_of(id: int) -> SubClassAView {
    SubClassAView { base: base_of(id), id2: 34 * id }
}

/// Whether a derived instance can be built with `id`: its own field has to
/// fit 32 bits.
pub open spec fn constructible(id: int) -> bool {
    i32::MIN <= 34 * id <= i32::MAX
}

/// The failure of the derived constructor for an `id` out of range.
pub open spec fn id_rejected() -> NativeErrorView {
    NativeErrorView {
        declared: Some(ErrorCategory::InvalidArgument),
        message: "id is out of range"@,
    }
}

/// The base type.
#[derive(Clone, Copy, Debug, PartialEq, Eq)]
pub struct BaseClass {
    id: i32,
}

impl View for BaseClass {
    type V = BaseClassView;

    closed spec fn view(&self) -> BaseClassView {
        BaseClassView { id: self.id as int }
    }
}

impl BaseClass {
    /// A base with the given `id`. Every `id` is accepted.
    pub fn new(id: i32) -> (base: BaseClass)
        ensures
            base@ == base_of(id as int),
    {
        BaseClass { id }
    }

    /// The `id` of this base. Never fails.
    pub fn methoda(&self) -> (outcome: Result<i32, NativeError>)
        ensures
            outcome matches Ok(id) && id == self@.methoda(),
    {
        Ok(self.id)
    }
}

/// The derived type. It embeds its base.
#[derive(Clone, Copy, Debug, PartialEq, Eq)]
pub struct SubClassA {
    base: BaseClass,
    id2: i32,
}

impl View for SubClassA {
    type V = SubClassAView;

    closed spec fn view(&self) -> SubClassAView {
        SubClassAView { base: self.base@, id2: self.id2 as int }
    }
}

impl SubClassA {
    /// The embedded base is one that the constructor of the derived type
    /// accepts: no write to the derived instance changes that.
    #[verifier::type_invariant]
    spec fn base_in_range(self) -> bool {
        constructible(self.base.id as int)
    }

    /// Builds the derived state and its base in one step. An `id` whose
    /// 34-fold does not fit 32 bits is rejected as `InvalidArgument`, and
    /// nothing is built.
    pub fn new(id: i32) -> (outcome: Result<SubClassA, NativeError>)
        ensures
            match outcome {
                Ok(derived) => constructible(id as int) && derived@ == derived_of(id as int),
                Err(error) => !constructible(id as int) && error@ == id_rejected(),
            },
    {
        match id.checked_mul(34) {
            Some(id2) => Ok(SubClassA { base: BaseClass::new(id), id2 }),
            None => Err(NativeError::new(ErrorCategory::InvalidArgument, "id is out of range")),
        }
    }

    /// The embedded base, for reading only. Its `id` is one that the
    /// constructor accepts.
    pub fn as_super(&self) -> (base: &BaseClass)
        ensures
            base@ == self@.as_super(),
            constructible(base@.id),
    {
        proof {
            use_type_invariant(self);
        }
        &self.base
    }

    /// Calls `methoda` of the base on the embedded base. Never fails.
    pub fn methoda(&self) -> (outcome: Result<i32, NativeError>)
        ensures
            outcome matches Ok(id) && id == self@.methoda() && constructible(id as int),
    {
        self.as_super().methoda()
    }

    /// The derived instance's own field. Never fails.
    pub fn get_id(&self) -> (outcome: Result<i32, NativeError>)
        ensures
            outcome matches Ok(id) && id == self@.get_id(),
    {
        Ok(self.id2)
    }

    /// Replaces the derived instance's own field. Every value is accepted;
    /// the base is untouched.
    pub fn set_id(&mut self, value: i32) -> (outcome: Result<(), NativeError>)
        ensures
            outcome == Ok::<(), NativeError>(()),
            final(self)@ == old(self)@.set_id(value as int),
    {
        proof {
            use_type_invariant(&*self);
        }
        self.id2 = value;
        Ok(())
    }
}

/// A derived instance built with `id` answers `methoda` as a base built
/// with the same `id` does, and both answer `id`.
pub proof fn lemma_derived_delegates_to_base(id: int)
    ensures
        derived_of(id).as_super() == base_of(id),
        derived_of(id).methoda() == base_of(id).methoda(),
        derived_of(id).methoda() == id,
{
}

/// Reading the field after writing it gives the value written, whatever the
/// state was before, and the base of the instance stays as it was.
pub proof fn lemma_set_then_get(state: SubClassAView, value: int)
    ensures
        state.set_id(value).get_id() == value,
        state.set_id(value).as_super() == state.as_super(),
        state.set_id(value).methoda() == state.methoda(),
        state.set_id(value).set_id(value) == state.set_id(value),
{
}

} // verus!
