//! A small universe of built-in value kinds.
//!
//! This is the registration side of the casting layer for a few common
//! concrete types: an integer, a text, and a banner — a formatter that
//! implements the one capability interface declared here, `Describable`.
//! Each concrete type reserves its own runtime identity tag, and the
//! interface declares which tags carry it; the proofs those registrations
//! owe are discharged here once and serve every cast thereafter.

use vstd::pervasive::unreached;
use vstd::prelude::*;

use crate::cast::{TraitRef, VcValueTrait, VcValueType};
use crate::cell::ValueUniverse;

verus! {

/// Runtime type identity of `i64` values.
pub const TAG_INT: u64 = 1;

/// Runtime type identity of `String` values.
pub const TAG_TEXT: u64 = 2;

/// Runtime type identity of `Banner` values.
pub const TAG_BANNER: u64 = 3;

/// A formatter: a concrete value type that can describe itself as text.
pub struct Banner {
    pub text: String,
}

impl Banner {
    /// The description this banner produces.
    pub open spec fn describe_spec(self) -> Seq<char> {
        self.text@
    }

    /// Produce the banner's description.
    pub fn describe(&self) -> (r: String)
        ensures
            r@ == self.describe_spec(),
    {
        self.text.clone()
    }
}

/// The erased form of every built-in value: one variant per concrete type.
pub enum BuiltinValue {
    Int(i64),
    Text(String),
    Banner(Banner),
}

impl ValueUniverse for BuiltinValue {
    open spec fn type_tag(self) -> u64 {
        match self {
            BuiltinValue::Int(_) => TAG_INT,
            BuiltinValue::Text(_) => TAG_TEXT,
            BuiltinValue::Banner(_) => TAG_BANNER,
        }
    }

    fn tag(&self) -> (t: u64) {
        match self {
            BuiltinValue::Int(_) => TAG_INT,
            BuiltinValue::Text(_) => TAG_TEXT,
            BuiltinValue::Banner(_) => TAG_BANNER,
        }
    }
}

impl VcValueType for i64 {
    type Universe = BuiltinValue;

    open spec fn value_type_id() -> u64 {
        TAG_INT
    }

    open spec fn erase_spec(v: i64) -> BuiltinValue {
        BuiltinValue::Int(v)
    }

    fn type_id() -> (t: u64) {
        TAG_INT
    }

    fn erase(v: i64) -> (u: BuiltinValue) {
        BuiltinValue::Int(v)
    }

    fn try_recover(u: BuiltinValue) -> (r: Option<i64>) {
        match u {
            BuiltinValue::Int(v) => Some(v),
            _ => None,
        }
    }

    proof fn erased_type_id(v: i64) {
    }

    proof fn erase_injective(a: i64, b: i64) {
    }
}

impl VcValueType for String {
    type Universe = BuiltinValue;

    open spec fn value_type_id() -> u64 {
        TAG_TEXT
    }

    open spec fn erase_spec(v: String) -> BuiltinValue {
        BuiltinValue::Text(v)
    }

    fn type_id() -> (t: u64) {
        TAG_TEXT
    }

    fn erase(v: String) -> (u: BuiltinValue) {
        BuiltinValue::Text(v)
    }

    fn try_recover(u: BuiltinValue) -> (r: Option<String>) {
        match u {
            BuiltinValue::Text(v) => Some(v),
            _ => None,
        }
    }

    proof fn erased_type_id(v: String) {
    }

    proof fn erase_injective(a: String, b: String) {
    }
}

impl VcValueType for Banner {
    type Universe = BuiltinValue;

    open spec fn value_type_id() -> u64 {
        TAG_BANNER
    }

    open spec fn erase_spec(v: Banner) -> BuiltinValue {
        BuiltinValue::Banner(v)
    }

    fn type_id() -> (t: u64) {
        TAG_BANNER
    }

    fn erase(v: Banner) -> (u: BuiltinValue) {
        BuiltinValue::Banner(v)
    }

    fn try_recover(u: BuiltinValue) -> (r: Option<Banner>) {
        match u {
            BuiltinValue::Banner(v) => Some(v),
            _ => None,
        }
    }

    proof fn erased_type_id(v: Banner) {
    }

    proof fn erase_injective(a: Banner, b: Banner) {
    }
}

/// The capability interface of values that can describe themselves as text.
/// Texts and banners carry it; integers do not.
pub struct Describable;

impl VcValueTrait for Describable {
    type Universe = BuiltinValue;

    open spec fn implemented_by(tag: u64) -> bool {
        tag == TAG_TEXT || tag == TAG_BANNER
    }
}

/// What describing an erased value yields, for each concrete type carrying
/// the interface.
pub open spec fn describe_of(u: BuiltinValue) -> Seq<char>
    recommends
        Describable::implemented_by(u.type_tag()),
{
    match u {
        BuiltinValue::Text(s) => s@,
        BuiltinValue::Banner(b) => b.describe_spec(),
        BuiltinValue::Int(_) => Seq::empty(),
    }
}

/// Interface dispatch for `Describable`: callable only with the conformance
/// evidence a trait reference hands out, and dispatching to the concrete
/// value's own implementation.
pub fn describe_value(u: &BuiltinValue) -> (r: String)
    requires
        Describable::implemented_by(u.type_tag()),
    ensures
        r@ == describe_of(*u),
{
    match u {
        BuiltinValue::Text(s) => s.clone(),
        BuiltinValue::Banner(b) => b.describe(),
        BuiltinValue::Int(_) => unreached(),
    }
}

/// Call the interface through a trait reference: one indirect dispatch on
/// the erased value, with the reference's own conformance as the evidence.
pub fn describe_ref(t: &TraitRef<Describable>) -> (r: String)
    ensures
        r@ == describe_of(t.content_spec()),
{
    describe_value(t.get())
}

/// Law: describing through a trait reference equals calling the concrete
/// type's implementation directly — here for banners.
pub proof fn lemma_describe_banner_direct(b: Banner, t: TraitRef<Describable>)
    requires
        t.content_spec() == <Banner as VcValueType>::erase_spec(b),
    ensures
        describe_of(t.content_spec()) == b.describe_spec(),
{
}

/// Law: describing through a trait reference equals reading the concrete
/// text directly — here for texts.
pub proof fn lemma_describe_text_direct(s: String, t: TraitRef<Describable>)
    requires
        t.content_spec() == <String as VcValueType>::erase_spec(s),
    ensures
        describe_of(t.content_spec()) == s@,
{
}

} // verus!
