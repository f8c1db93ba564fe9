//! Attributes: constant values attached to operations.

use vstd::prelude::*;
use crate::fmt::{render, rendered, FmtError};
use crate::foreign::{ask, replied, serves, Call, Reply};
use crate::private::Sealed;
use crate::foreign::AttributeKind;
use crate::identifier::Identifier;
use crate::raw::{MlirAttribute, MlirNamedAttribute};
use crate::string_ref::StringRef;

verus! {

/// A constant value associated with an operation. Uniqued: copies refer to
/// the same attribute, which lives as long as its context.
#[derive(Clone, Copy, Debug)]
pub struct Attribute {
    pub(crate) inner: MlirAttribute,
}

impl View for Attribute {
    type V = MlirAttribute;

    closed spec fn view(&self) -> MlirAttribute {
        self.inner
    }
}

impl Sealed for Attribute {
}

impl Attribute {
    #[verifier::type_invariant]
    spec fn live(self) -> bool {
        !self.inner.is_null()
    }

    /// Whether `wrapped` is what wrapping `raw` gives: nothing for the null
    /// handle, and otherwise a value that holds `raw`.
    pub open spec fn wraps(wrapped: Option<Attribute>, raw: MlirAttribute) -> bool {
        match wrapped {
            Some(w) => w@ == raw && !raw.is_null(),
            None => raw.is_null(),
        }
    }

    /// Wraps a raw handle.
    pub fn from_raw(raw: MlirAttribute) -> (wrapped: Option<Attribute>)
        ensures
            Attribute::wraps(wrapped, raw),
    {
        if raw.is_null() {
            return None;
        }
        Some(Attribute { inner: raw })
    }

    /// The raw handle, for passing to the foreign interface. It is never
    /// null.
    pub fn as_raw(&self) -> (raw: MlirAttribute)
        ensures
            raw == self@,
            !raw.is_null(),
    {
        proof {
            use_type_invariant(self);
        }
        self.inner
    }

    /// Whether the foreign library holds the two to be equal.
    pub fn eq<'r, F: Fn(Call<'_>) -> Reply<'r>>(&self, other: &Attribute, ffi: &F) -> (equal: bool)
        requires
            serves(ffi),
        ensures
            exists|reply: Reply<'r>| #[trigger]
                replied(ffi, Call::AttributeEqual { a: self@, b: other@ }, reply) && equal
                    == reply.flag(),
    {
        let reply = ask(ffi, Call::AttributeEqual { a: self.as_raw(), b: other.as_raw() });
        reply.flag()
    }

    /// The text the foreign library prints for the value, or the error if
    /// what it printed is not well-formed UTF-8.
    pub fn print<'r, F: Fn(Call<'_>) -> Reply<'r>>(&self, ffi: &F) -> (text: Result<String, FmtError>)
        requires
            serves(ffi),
        ensures
            exists|reply: Reply<'r>| #[trigger]
                replied(ffi, Call::AttributePrint { attr: self@ }, reply) && rendered(
                    reply.printed(),
                    text,
                ),
    {
        let reply = ask(ffi, Call::AttributePrint { attr: self.as_raw() });
        render(&reply)
    }

    /// Whether the attribute is of the given kind.
    pub fn is_a<'r, F: Fn(Call<'_>) -> Reply<'r>>(&self, kind: AttributeKind, ffi: &F) -> (yes: bool)
        requires
            serves(ffi),
        ensures
            exists|reply: Reply<'r>| #[trigger]
                replied(ffi, Call::AttributeIsA { kind, attr: self@ }, reply) && yes
                    == reply.flag(),
    {
        let reply = ask(ffi, Call::AttributeIsA { kind, attr: self.as_raw() });
        reply.flag()
    }

    /// Whether the attribute is an affine map.
    pub fn is_affine_map<'r, F: Fn(Call<'_>) -> Reply<'r>>(&self, ffi: &F) -> (yes: bool)
        requires
            serves(ffi),
        ensures
            exists|reply: Reply<'r>| #[trigger]
                replied(ffi, Call::AttributeIsA { kind: AttributeKind::AffineMap, attr: self@ }, reply)
                    && yes == reply.flag(),
    {
        self.is_a(AttributeKind::AffineMap, ffi)
    }

    /// Whether the attribute is an array.
    pub fn is_array<'r, F: Fn(Call<'_>) -> Reply<'r>>(&self, ffi: &F) -> (yes: bool)
        requires
            serves(ffi),
        ensures
            exists|reply: Reply<'r>| #[trigger]
                replied(ffi, Call::AttributeIsA { kind: AttributeKind::Array, attr: self@ }, reply)
                    && yes == reply.flag(),
    {
        self.is_a(AttributeKind::Array, ffi)
    }

    /// Whether the attribute is a boolean.
    pub fn is_bool<'r, F: Fn(Call<'_>) -> Reply<'r>>(&self, ffi: &F) -> (yes: bool)
        requires
            serves(ffi),
        ensures
            exists|reply: Reply<'r>| #[trigger]
                replied(ffi, Call::AttributeIsA { kind: AttributeKind::Bool, attr: self@ }, reply)
                    && yes == reply.flag(),
    {
        self.is_a(AttributeKind::Bool, ffi)
    }

    /// Whether the attribute is a dictionary.
    pub fn is_dictionary<'r, F: Fn(Call<'_>) -> Reply<'r>>(&self, ffi: &F) -> (yes: bool)
        requires
            serves(ffi),
        ensures
            exists|reply: Reply<'r>| #[trigger]
                replied(ffi, Call::AttributeIsA { kind: AttributeKind::Dictionary, attr: self@ }, reply)
                    && yes == reply.flag(),
    {
        self.is_a(AttributeKind::Dictionary, ffi)
    }

    /// Whether the attribute is a flat symbol reference.
    pub fn is_flat_symbol_ref<'r, F: Fn(Call<'_>) -> Reply<'r>>(&self, ffi: &F) -> (yes: bool)
        requires
            serves(ffi),
        ensures
            exists|reply: Reply<'r>| #[trigger]
                replied(ffi, Call::AttributeIsA { kind: AttributeKind::FlatSymbolRef, attr: self@ }, reply)
                    && yes == reply.flag(),
    {
        self.is_a(AttributeKind::FlatSymbolRef, ffi)
    }

    /// Whether the attribute is a floating-point number.
    pub fn is_float<'r, F: Fn(Call<'_>) -> Reply<'r>>(&self, ffi: &F) -> (yes: bool)
        requires
            serves(ffi),
        ensures
            exists|reply: Reply<'r>| #[trigger]
                replied(ffi, Call::AttributeIsA { kind: AttributeKind::Float, attr: self@ }, reply)
                    && yes == reply.flag(),
    {
        self.is_a(AttributeKind::Float, ffi)
    }

    /// Whether the attribute is an integer.
    pub fn is_integer<'r, F: Fn(Call<'_>) -> Reply<'r>>(&self, ffi: &F) -> (yes: bool)
        requires
            serves(ffi),
        ensures
            exists|reply: Reply<'r>| #[trigger]
                replied(ffi, Call::AttributeIsA { kind: AttributeKind::Integer, attr: self@ }, reply)
                    && yes == reply.flag(),
    {
        self.is_a(AttributeKind::Integer, ffi)
    }

    /// Whether the attribute is an integer set.
    pub fn is_integer_set<'r, F: Fn(Call<'_>) -> Reply<'r>>(&self, ffi: &F) -> (yes: bool)
        requires
            serves(ffi),
        ensures
            exists|reply: Reply<'r>| #[trigger]
                replied(ffi, Call::AttributeIsA { kind: AttributeKind::IntegerSet, attr: self@ }, reply)
                    && yes == reply.flag(),
    {
        self.is_a(AttributeKind::IntegerSet, ffi)
    }

    /// Whether the attribute is opaque.
    pub fn is_opaque<'r, F: Fn(Call<'_>) -> Reply<'r>>(&self, ffi: &F) -> (yes: bool)
        requires
            serves(ffi),
        ensures
            exists|reply: Reply<'r>| #[trigger]
                replied(ffi, Call::AttributeIsA { kind: AttributeKind::Opaque, attr: self@ }, reply)
                    && yes == reply.flag(),
    {
        self.is_a(AttributeKind::Opaque, ffi)
    }

    /// Whether the attribute is a string.
    pub fn is_string<'r, F: Fn(Call<'_>) -> Reply<'r>>(&self, ffi: &F) -> (yes: bool)
        requires
            serves(ffi),
        ensures
            exists|reply: Reply<'r>| #[trigger]
                replied(ffi, Call::AttributeIsA { kind: AttributeKind::String, attr: self@ }, reply)
                    && yes == reply.flag(),
    {
        self.is_a(AttributeKind::String, ffi)
    }

    /// Whether the attribute is a symbol reference.
    pub fn is_symbol_ref<'r, F: Fn(Call<'_>) -> Reply<'r>>(&self, ffi: &F) -> (yes: bool)
        requires
            serves(ffi),
        ensures
            exists|reply: Reply<'r>| #[trigger]
                replied(ffi, Call::AttributeIsA { kind: AttributeKind::SymbolRef, attr: self@ }, reply)
                    && yes == reply.flag(),
    {
        self.is_a(AttributeKind::SymbolRef, ffi)
    }

    /// Whether the attribute is the unit attribute.
    pub fn is_unit<'r, F: Fn(Call<'_>) -> Reply<'r>>(&self, ffi: &F) -> (yes: bool)
        requires
            serves(ffi),
        ensures
            exists|reply: Reply<'r>| #[trigger]
                replied(ffi, Call::AttributeIsA { kind: AttributeKind::Unit, attr: self@ }, reply)
                    && yes == reply.flag(),
    {
        self.is_a(AttributeKind::Unit, ffi)
    }

    /// The array attribute with the given elements, or `None` if the
    /// foreign library returns none.
    pub fn array<'r, F: Fn(Call<'_>) -> Reply<'r>>(elements: &[Attribute], ffi: &F) -> (attr: Option<Attribute>)
        requires
            serves(ffi),
        ensures
            exists|call: Call<'_>, reply: Reply<'r>| #[trigger]
                replied(ffi, call, reply) && (call matches Call::ArrayAttrGet { elements: e }
                    && e@ == attribute_handles(elements@)) && Attribute::wraps(
                    attr,
                    reply.attribute(),
                ),
    {
        let raws = raw_attributes(elements);
        let reply = ask(ffi, Call::ArrayAttrGet { elements: raws.as_slice() });
        Attribute::from_raw(reply.attribute())
    }

    /// The string attribute with the given text, or `None` if the foreign
    /// library returns none.
    pub fn string<'r, F: Fn(Call<'_>) -> Reply<'r>>(s: StringRef<'_>, ffi: &F) -> (attr: Option<Attribute>)
        requires
            serves(ffi),
        ensures
            exists|call: Call<'_>, reply: Reply<'r>| #[trigger]
                replied(ffi, call, reply) && (call matches Call::StringAttrGet { value } && value@
                    == s@) && Attribute::wraps(attr, reply.attribute()),
    {
        let reply = ask(ffi, Call::StringAttrGet { value: s.as_raw() });
        Attribute::from_raw(reply.attribute())
    }

    /// The attribute an identifier is. An identifier is a string attribute
    /// under another handle type: the two handles carry the same address.
    pub fn from_identifier(value: Identifier) -> (attr: Attribute)
        ensures
            attr@.ptr == value@.ptr,
    {
        let raw = value.as_raw();
        Attribute { inner: MlirAttribute { ptr: raw.ptr } }
    }
}

impl From<Identifier> for Attribute {
    fn from(value: Identifier) -> (attr: Attribute)
        ensures
            attr@.ptr == value@.ptr,
    {
        let raw = value.as_raw();
        Attribute { inner: MlirAttribute { ptr: raw.ptr } }
    }
}

impl vstd::std_specs::convert::FromSpecImpl<Identifier> for Attribute {
    open spec fn obeys_from_spec() -> bool {
        true
    }

    closed spec fn from_spec(value: Identifier) -> Attribute {
        Attribute { inner: MlirAttribute { ptr: value@.ptr } }
    }
}

/// The raw handles of `attributes`, in order.
pub open spec fn attribute_handles(attributes: Seq<Attribute>) -> Seq<MlirAttribute> {
    attributes.map_values(|a: Attribute| a@)
}

/// Lays `attributes` out as the foreign interface takes them.
pub fn raw_attributes(attributes: &[Attribute]) -> (raws: Vec<MlirAttribute>)
    ensures
        raws@ == attribute_handles(attributes@),
{
    let mut raws: Vec<MlirAttribute> = Vec::new();
    let mut i: usize = 0;
    while i < attributes.len()
        invariant
            i <= attributes.len(),
            raws@ == attribute_handles(attributes@.take(i as int)),
        decreases attributes.len() - i,
    {
        raws.push(attributes[i].as_raw());
        assert(attribute_handles(attributes@.take(i + 1)) =~= attribute_handles(attributes@.take(i as int)).push(
            attributes@[i as int]@,
        ));
        i += 1;
    }
    assert(attributes@.take(i as int) =~= attributes@);
    raws
}

/// A name paired with an attribute.
#[derive(Clone, Copy, Debug)]
pub struct NamedAttribute {
    pub name: Identifier,
    pub attribute: Attribute,
}

impl View for NamedAttribute {
    type V = MlirNamedAttribute;

    open spec fn view(&self) -> MlirNamedAttribute {
        MlirNamedAttribute { name: self.name@, attribute: self.attribute@ }
    }
}

impl NamedAttribute {
    /// Pairs `name` with `attribute`.
    pub fn get(name: Identifier, attribute: Attribute) -> (named: NamedAttribute)
        ensures
            named.name == name,
            named.attribute == attribute,
    {
        NamedAttribute { name, attribute }
    }

    /// The pair in the layout the foreign interface takes.
    pub fn as_raw(&self) -> (raw: MlirNamedAttribute)
        ensures
            raw == self@,
            !raw.name.is_null(),
            !raw.attribute.is_null(),
    {
        MlirNamedAttribute { name: self.name.as_raw(), attribute: self.attribute.as_raw() }
    }
}

/// The raw handles of `attributes`, in order.
pub open spec fn named_attribute_handles(attributes: Seq<NamedAttribute>) -> Seq<MlirNamedAttribute> {
    attributes.map_values(|a: NamedAttribute| a@)
}

/// Lays `attributes` out as the foreign interface takes them.
pub fn raw_named_attributes(attributes: &[NamedAttribute]) -> (raws: Vec<MlirNamedAttribute>)
    ensures
        raws@ == named_attribute_handles(attributes@),
{
    let mut raws: Vec<MlirNamedAttribute> = Vec::new();
    let mut i: usize = 0;
    while i < attributes.len()
        invariant
            i <= attributes.len(),
            raws@ == named_attribute_handles(attributes@.take(i as int)),
        decreases attributes.len() - i,
    {
        raws.push(attributes[i].as_raw());
        assert(named_attribute_handles(attributes@.take(i + 1)) =~= named_attribute_handles(attributes@.take(i as int)).push(
            attributes@[i as int]@,
        ));
        i += 1;
    }
    assert(attributes@.take(i as int) =~= attributes@);
    raws
}

} // verus!
