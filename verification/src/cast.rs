//! Cast strategies: the single point where type erasure is reversed.
//!
//! A cast strategy takes a type-erased cell and a compile-time-known target —
//! a concrete value type or a capability interface — and produces a typed,
//! read-only reference, or a typed error.  Casting is pure and synchronous:
//! it never suspends, never mutates the cell, and preserves the cell's
//! identity in the reference it produces.

use core::marker::PhantomData;
use vstd::pervasive::unreached;
use vstd::prelude::*;

use crate::cell::{CellContent, CellId, ValueUniverse};

verus! {

/// The error a failed cast reports.
#[derive(Clone, Copy, PartialEq, Eq, Structural, Debug)]
pub enum CastError {
    /// A concrete-type cast was attempted against a cell whose runtime type
    /// identity differs from the requested type's identity.
    TypeMismatch { expected: u64, found: u64 },
}

/// A concrete value type that can be stored in type-erased cells of the
/// universe `Self::Universe`.
///
/// Each implementation reserves one runtime type identity tag and says how a
/// typed value embeds into, and is recovered from, its erased image.  The
/// proof obligations make the registration sound: erased values carry the
/// reserved tag, and the embedding loses nothing.
pub trait VcValueType: Sized {
    /// The universe of erased values this type is stored in.
    type Universe: ValueUniverse;

    /// The runtime type identity reserved for this value type.
    spec fn value_type_id() -> u64;

    /// The erased image of a typed value.
    spec fn erase_spec(v: Self) -> Self::Universe;

    /// Read the runtime type identity reserved for this value type.
    fn type_id() -> (t: u64)
        ensures
            t == Self::value_type_id(),
    ;

    /// Erase a typed value for storage in a cell.
    fn erase(v: Self) -> (u: Self::Universe)
        ensures
            u == Self::erase_spec(v),
    ;

    /// Recover the typed value from an erased one.  Recovery succeeds exactly
    /// when the erased value's runtime identity is this type's identity, and
    /// recovers the value whose erased image the cell held.
    fn try_recover(u: Self::Universe) -> (r: Option<Self>)
        ensures
            (r is Some) == (u.type_tag() == Self::value_type_id()),
            r matches Some(v) ==> Self::erase_spec(v) == u,
    ;

    /// Erased values of this type carry this type's identity tag.
    proof fn erased_type_id(v: Self)
        ensures
            Self::erase_spec(v).type_tag() == Self::value_type_id(),
    ;

    /// Erasure loses nothing: distinct values have distinct erased images.
    proof fn erase_injective(a: Self, b: Self)
        requires
            Self::erase_spec(a) == Self::erase_spec(b),
        ensures
            a == b,
    ;
}

/// A capability interface over erased values of the universe
/// `Self::Universe`: a declared set of runtime type identities whose values
/// carry an implementation of the interface.
///
/// Conformance is established where a concrete value is first exposed as
/// implementing the interface — the cast itself cannot re-derive it from the
/// type tag alone, so the trait-interface cast demands it as a precondition
/// instead of checking anything at run time.
pub trait VcValueTrait {
    /// The universe of erased values this interface is declared over.
    type Universe: ValueUniverse;

    /// Which runtime type identities carry an implementation of the
    /// interface.
    spec fn implemented_by(tag: u64) -> bool;
}

/// A read-only, shareable view of a cell as a specific concrete value type.
///
/// Obtained only through the concrete-type cast strategy, which checks the
/// cell's runtime identity before constructing the reference.  The reference
/// keeps the identity of the cell it was cast from.
pub struct ReadRef<T> {
    value: T,
    cell: Option<CellId>,
}

impl<T> ReadRef<T> {
    /// The typed value this reference reads.
    pub closed spec fn value(self) -> T {
        self.value
    }

    /// The identity of the cell this reference was cast from.
    pub closed spec fn cell_id(self) -> Option<CellId> {
        self.cell
    }

    pub(crate) fn new(value: T, cell: Option<CellId>) -> (r: Self)
        ensures
            r.value() == value,
            r.cell_id() == cell,
    {
        ReadRef { value, cell }
    }

    /// Read the value.  No virtual dispatch: the caller knows `T` statically.
    pub fn get(&self) -> (r: &T)
        ensures
            *r == self.value(),
    {
        &self.value
    }

    /// The identity of the cell this reference was cast from.
    pub fn cell(&self) -> (c: Option<CellId>)
        ensures
            c == self.cell_id(),
    {
        self.cell
    }
}

/// A read-only, shareable view of a cell restricted to a capability
/// interface `I`; the concrete type behind it stays erased.
///
/// A trait reference exists only over cells whose runtime identity is
/// declared to carry the interface: that conformance is this type's
/// invariant, established by the trait-interface cast's precondition and
/// handed back to every reader of the reference.
pub struct TraitRef<I: VcValueTrait> {
    content: I::Universe,
    cell: Option<CellId>,
}

impl<I: VcValueTrait> TraitRef<I> {
    /// Conformance: the erased value's runtime identity carries the
    /// interface.
    #[verifier::type_invariant]
    spec fn conformant(self) -> bool {
        I::implemented_by(self.content.type_tag())
    }

    /// The erased value this reference exposes through the interface.
    pub closed spec fn content_spec(self) -> I::Universe {
        self.content
    }

    /// The identity of the cell this reference was cast from.
    pub closed spec fn cell_id(self) -> Option<CellId> {
        self.cell
    }

    pub(crate) fn new(content: I::Universe, cell: Option<CellId>) -> (r: Self)
        requires
            I::implemented_by(content.type_tag()),
        ensures
            r.content_spec() == content,
            r.cell_id() == cell,
    {
        TraitRef { content, cell }
    }

    /// Read the erased value, together with the guarantee that its runtime
    /// identity carries the interface — the evidence every interface
    /// dispatcher over the universe requires.
    pub fn get(&self) -> (r: &I::Universe)
        ensures
            *r == self.content_spec(),
            I::implemented_by(self.content_spec().type_tag()),
    {
        proof {
            use_type_invariant(&*self);
        }
        &self.content
    }

    /// The identity of the cell this reference was cast from.
    pub fn cell(&self) -> (c: Option<CellId>)
        ensures
            c == self.cell_id(),
    {
        self.cell
    }
}

/// A cast strategy: shared behavior of the concrete-type and trait-interface
/// casts, so resolution can apply either uniformly.
///
/// This should not be implemented by users.
pub trait VcCast: Sized {
    /// The universe of erased values the strategy casts from.
    type Universe: ValueUniverse;

    /// The typed reference the strategy produces.
    type Output;

    /// The cells the strategy may be applied to.  The trait-interface cast
    /// trusts upstream conformance and so admits only conformant cells; the
    /// concrete-type cast admits every cell.
    spec fn admissible(content: CellContent<Self::Universe>) -> bool;

    /// The admissible cells on which the cast is owed success.
    spec fn succeeds(content: CellContent<Self::Universe>) -> bool;

    /// What a successful cast of this cell produced.
    spec fn cast_ok(content: CellContent<Self::Universe>, out: Self::Output) -> bool;

    /// What a failed cast of this cell reports.
    spec fn cast_err(content: CellContent<Self::Universe>, err: CastError) -> bool;

    /// Apply the strategy: pure, synchronous, never suspends, and preserves
    /// the cell's identity in the reference it produces.
    fn cast(content: CellContent<Self::Universe>) -> (r: Result<Self::Output, CastError>)
        requires
            Self::admissible(content),
        ensures
            (r is Ok) == Self::succeeds(content),
            r matches Ok(out) ==> Self::cast_ok(content, out),
            r matches Err(e) ==> Self::cast_err(content, e),
    ;

    /// Casting one cell twice can only produce one reference: the strategy
    /// is a pure function of the cell and the target.
    proof fn cast_deterministic(content: CellContent<Self::Universe>, a: Self::Output, b: Self::Output)
        requires
            Self::cast_ok(content, a),
            Self::cast_ok(content, b),
        ensures
            a == b,
    ;
}

/// Casts an arbitrary cell content into a `ReadRef<T>`.
pub struct VcValueTypeCast<T> {
    _phantom: PhantomData<T>,
}

impl<T: VcValueType> VcCast for VcValueTypeCast<T> {
    type Universe = T::Universe;

    type Output = ReadRef<T>;

    /// The concrete-type cast admits every cell: the identity check below
    /// rejects the ill-typed ones with a typed error.
    open spec fn admissible(content: CellContent<T::Universe>) -> bool {
        true
    }

    /// Success is owed exactly when the cell's runtime identity is `T`'s.
    open spec fn succeeds(content: CellContent<T::Universe>) -> bool {
        content.payload.type_tag() == T::value_type_id()
    }

    /// The reference reads the value whose erased image the cell held, under
    /// the cell's own identity.
    open spec fn cast_ok(content: CellContent<T::Universe>, out: ReadRef<T>) -> bool {
        &&& T::erase_spec(out.value()) == content.payload
        &&& out.cell_id() == content.provenance
    }

    /// Failure names both identities: the requested one and the cell's.
    open spec fn cast_err(content: CellContent<T::Universe>, err: CastError) -> bool {
        err == (CastError::TypeMismatch {
            expected: T::value_type_id(),
            found: content.payload.type_tag(),
        })
    }

    fn cast(content: CellContent<T::Universe>) -> (r: Result<ReadRef<T>, CastError>) {
        let provenance = content.provenance;
        let found = content.payload.tag();
        let expected = T::type_id();
        if found == expected {
            match T::try_recover(content.payload) {
                Some(v) => Ok(ReadRef::new(v, provenance)),
                None => unreached(),
            }
        } else {
            Err(CastError::TypeMismatch { expected, found })
        }
    }

    proof fn cast_deterministic(content: CellContent<T::Universe>, a: ReadRef<T>, b: ReadRef<T>) {
        T::erase_injective(a.value(), b.value());
    }
}

/// Casts an arbitrary cell content into a `TraitRef<I>`.
pub struct VcValueTraitCast<I> {
    _phantom: PhantomData<I>,
}

impl<I: VcValueTrait> VcCast for VcValueTraitCast<I> {
    type Universe = I::Universe;

    type Output = TraitRef<I>;

    /// The trait-interface cast trusts that the cell was only ever exposed
    /// as holding a value implementing `I`; it admits exactly the cells for
    /// which that conformance is established, and performs no independent
    /// structural check — none is possible once the type is erased.
    open spec fn admissible(content: CellContent<I::Universe>) -> bool {
        I::implemented_by(content.payload.type_tag())
    }

    /// An admissible trait-interface cast always succeeds.
    open spec fn succeeds(content: CellContent<I::Universe>) -> bool {
        true
    }

    /// The reference exposes exactly the cell's erased value, under the
    /// cell's own identity.
    open spec fn cast_ok(content: CellContent<I::Universe>, out: TraitRef<I>) -> bool {
        &&& out.content_spec() == content.payload
        &&& out.cell_id() == content.provenance
    }

    open spec fn cast_err(content: CellContent<I::Universe>, err: CastError) -> bool {
        false
    }

    fn cast(content: CellContent<I::Universe>) -> (r: Result<TraitRef<I>, CastError>) {
        let provenance = content.provenance;
        Ok(TraitRef::new(content.payload, provenance))
    }

    proof fn cast_deterministic(content: CellContent<I::Universe>, a: TraitRef<I>, b: TraitRef<I>) {
    }
}

/// Cast a type-erased cell into a reference typed at the concrete value type
/// `T`: the cell's runtime identity is checked against `T`'s — checked, not
/// assumed — and on a match the erased value is recovered without a deep
/// copy, under the cell's own identity.  On a mismatch the error names the
/// requested identity and the cell's.
pub fn cast_to_concrete<T: VcValueType>(cell: CellContent<T::Universe>) -> (r: Result<
    ReadRef<T>,
    CastError,
>)
    ensures
        (r is Ok) == VcValueTypeCast::<T>::succeeds(cell),
        r matches Ok(out) ==> VcValueTypeCast::<T>::cast_ok(cell, out),
        r matches Err(e) ==> VcValueTypeCast::<T>::cast_err(cell, e),
{
    <VcValueTypeCast<T> as VcCast>::cast(cell)
}

/// Cast a type-erased cell into a reference restricted to the capability
/// interface `I`.  The precondition is the upstream conformance guarantee:
/// the cell was only ever exposed as holding a value implementing `I`, a
/// fact established where the value was first wrapped and that no runtime
/// check could re-derive here.  Under it, the cast always succeeds.
pub fn cast_to_trait<I: VcValueTrait>(cell: CellContent<I::Universe>) -> (r: Result<
    TraitRef<I>,
    CastError,
>)
    requires
        I::implemented_by(cell.payload.type_tag()),
    ensures
        r is Ok,
        r matches Ok(out) ==> VcValueTraitCast::<I>::cast_ok(cell, out),
{
    <VcValueTraitCast<I> as VcCast>::cast(cell)
}

/// The proof-of-conformance path: wrap a concrete value into a cell exposed
/// as implementing the interface `I`.  Conformance of the value's type is
/// established here, once, where the concrete type is still known — every
/// later trait-interface cast over the cell trusts it and re-checks nothing.
pub fn erase_conformant<T, I>(v: T, provenance: Option<CellId>) -> (c: CellContent<T::Universe>) where
    T: VcValueType,
    I: VcValueTrait<Universe = T::Universe>,

    requires
        I::implemented_by(T::value_type_id()),
    ensures
        c.payload == T::erase_spec(v),
        c.provenance == provenance,
        VcValueTraitCast::<I>::admissible(c),
{
    proof {
        T::erased_type_id(v);
    }
    CellContent { payload: T::erase(v), provenance }
}

/// Law: a cell holding the erased image of a value `v` of type `T`, cast
/// with the concrete-type strategy targeting `T`, is owed success, and every
/// reference that cast can produce reads back exactly `v` under the cell's
/// identity.
pub proof fn lemma_concrete_cast_roundtrip<T: VcValueType>(v: T, content: CellContent<T::Universe>)
    requires
        content.payload == T::erase_spec(v),
    ensures
        VcValueTypeCast::<T>::succeeds(content),
        forall|out: ReadRef<T>|
            VcValueTypeCast::<T>::cast_ok(content, out) ==> out.value() == v && out.cell_id()
                == content.provenance,
{
    T::erased_type_id(v);
    assert forall|out: ReadRef<T>| VcValueTypeCast::<T>::cast_ok(content, out) implies out.value()
        == v && out.cell_id() == content.provenance by {
        T::erase_injective(out.value(), v);
    }
}

/// Law: a cell holding a value of one concrete type, cast with the
/// concrete-type strategy targeting a type of a different runtime identity,
/// is owed failure, and every error that cast can report is the mismatch
/// naming the requested identity and the cell's.
pub proof fn lemma_concrete_cast_mismatch<T1, T2>(v: T1, content: CellContent<T1::Universe>) where
    T1: VcValueType,
    T2: VcValueType<Universe = T1::Universe>,

    requires
        content.payload == T1::erase_spec(v),
        T1::value_type_id() != T2::value_type_id(),
    ensures
        !VcValueTypeCast::<T2>::succeeds(content),
        forall|e: CastError|
            VcValueTypeCast::<T2>::cast_err(content, e) ==> e == (CastError::TypeMismatch {
                expected: T2::value_type_id(),
                found: T1::value_type_id(),
            }),
{
    T1::erased_type_id(v);
}

/// Law: a cell holding the erased image of a concrete value whose type's
/// identity is declared to carry the interface `I` is admissible to the
/// trait-interface strategy for `I`, that cast is owed success, and every
/// reference it can produce exposes exactly the erased value under the
/// cell's identity — so every interface call through the reference
/// dispatches to the concrete value's implementation.
pub proof fn lemma_trait_cast_dispatch<T, I>(v: T, content: CellContent<T::Universe>) where
    T: VcValueType,
    I: VcValueTrait<Universe = T::Universe>,

    requires
        content.payload == T::erase_spec(v),
        I::implemented_by(T::value_type_id()),
    ensures
        VcValueTraitCast::<I>::admissible(content),
        VcValueTraitCast::<I>::succeeds(content),
        forall|out: TraitRef<I>|
            VcValueTraitCast::<I>::cast_ok(content, out) ==> out.content_spec() == T::erase_spec(v)
                && out.cell_id() == content.provenance,
{
    T::erased_type_id(v);
}

} // verus!
