//! Attributes of a known kind.

use vstd::prelude::*;
use crate::attribute::{
    attribute_handles, named_attribute_handles, raw_attributes, raw_named_attributes, Attribute,
    NamedAttribute,
};
use crate::fmt::FmtError;
use crate::fmt::rendered;
use crate::foreign::{ask, replied, serves, Call, Reply};
use crate::raw::MlirAttribute;
use crate::string_ref::StringRef;
use crate::ty::Type;

verus! {

/// The name under which a function-like operation keeps its type.
pub const FUNCTION_TYPE_ATTR_NAME: &'static str = "function_type";

/// The name under which a function-like operation keeps the attributes of
/// its arguments.
pub const FUNCTION_ARG_DICT_ATTR_NAME: &'static str = "arg_attrs";

/// The name under which a function-like operation keeps the attributes of
/// its results.
pub const FUNCTION_RESULT_DICT_ATTR_NAME: &'static str = "res_attrs";

/// An attribute that is an array of attributes.
#[derive(Clone, Copy, Debug)]
pub struct ArrayAttr {
    inner: Attribute,
}

impl View for ArrayAttr {
    type V = MlirAttribute;

    closed spec fn view(&self) -> MlirAttribute {
        self.inner@
    }
}

impl ArrayAttr {
    /// Whether `wrapped` is what wrapping `raw` gives: nothing for the null
    /// handle, and otherwise a value that holds `raw`.
    pub open spec fn wraps(wrapped: Option<ArrayAttr>, raw: MlirAttribute) -> bool {
        match wrapped {
            Some(w) => w@ == raw && !raw.is_null(),
            None => raw.is_null(),
        }
    }

    /// Wraps a raw handle. The caller vouches that the attribute is of this
    /// kind.
    pub fn from_raw(attr: MlirAttribute) -> (wrapped: Option<ArrayAttr>)
        ensures
            ArrayAttr::wraps(wrapped, attr),
    {
        match Attribute::from_raw(attr) {
            Some(inner) => Some(ArrayAttr { inner }),
            None => None,
        }
    }

    /// The raw handle, for passing to the foreign interface. It is never
    /// null.
    pub fn as_raw(&self) -> (raw: MlirAttribute)
        ensures
            raw == self@,
            !raw.is_null(),
    {
        self.inner.as_raw()
    }

    /// The attribute, seen as any attribute.
    pub fn to_attribute(&self) -> (attr: Attribute)
        ensures
            attr@ == self@,
    {
        self.inner
    }

    /// Whether the foreign library holds the two to be equal.
    pub fn eq<'r, F: Fn(Call<'_>) -> Reply<'r>>(&self, other: &ArrayAttr, ffi: &F) -> (equal: bool)
        requires
            serves(ffi),
        ensures
            exists|reply: Reply<'r>| #[trigger]
                replied(ffi, Call::AttributeEqual { a: self@, b: other@ }, reply) && equal
                    == reply.flag(),
    {
        assert(self@ == self.inner@ && other@ == other.inner@);
        self.inner.eq(&other.inner, ffi)
    }

    /// The text the foreign library prints for the attribute, or the error
    /// if what it printed is not well-formed UTF-8.
    pub fn print<'r, F: Fn(Call<'_>) -> Reply<'r>>(&self, ffi: &F) -> (text: Result<String, FmtError>)
        requires
            serves(ffi),
        ensures
            exists|reply: Reply<'r>| #[trigger]
                replied(ffi, Call::AttributePrint { attr: self@ }, reply) && rendered(
                    reply.printed(),
                    text,
                ),
    {
        assert(self@ == self.inner@);
        self.inner.print(ffi)
    }
}

impl From<ArrayAttr> for Attribute {
    fn from(other: ArrayAttr) -> (attr: Attribute)
        ensures
            attr@ == other@,
    {
        other.inner
    }
}

impl vstd::std_specs::convert::FromSpecImpl<ArrayAttr> for Attribute {
    open spec fn obeys_from_spec() -> bool {
        true
    }

    closed spec fn from_spec(other: ArrayAttr) -> Attribute {
        other.inner
    }
}

/// An attribute that is a dictionary from names to attributes.
#[derive(Clone, Copy, Debug)]
pub struct DictionaryAttr {
    inner: Attribute,
}

impl View for DictionaryAttr {
    type V = MlirAttribute;

    closed spec fn view(&self) -> MlirAttribute {
        self.inner@
    }
}

impl DictionaryAttr {
    /// Whether `wrapped` is what wrapping `raw` gives: nothing for the null
    /// handle, and otherwise a value that holds `raw`.
    pub open spec fn wraps(wrapped: Option<DictionaryAttr>, raw: MlirAttribute) -> bool {
        match wrapped {
            Some(w) => w@ == raw && !raw.is_null(),
            None => raw.is_null(),
        }
    }

    /// Wraps a raw handle. The caller vouches that the attribute is of this
    /// kind.
    pub fn from_raw(attr: MlirAttribute) -> (wrapped: Option<DictionaryAttr>)
        ensures
            DictionaryAttr::wraps(wrapped, attr),
    {
        match Attribute::from_raw(attr) {
            Some(inner) => Some(DictionaryAttr { inner }),
            None => None,
        }
    }

    /// The raw handle, for passing to the foreign interface. It is never
    /// null.
    pub fn as_raw(&self) -> (raw: MlirAttribute)
        ensures
            raw == self@,
            !raw.is_null(),
    {
        self.inner.as_raw()
    }

    /// The attribute, seen as any attribute.
    pub fn to_attribute(&self) -> (attr: Attribute)
        ensures
            attr@ == self@,
    {
        self.inner
    }

    /// Whether the foreign library holds the two to be equal.
    pub fn eq<'r, F: Fn(Call<'_>) -> Reply<'r>>(&self, other: &DictionaryAttr, ffi: &F) -> (equal: bool)
        requires
            serves(ffi),
        ensures
            exists|reply: Reply<'r>| #[trigger]
                replied(ffi, Call::AttributeEqual { a: self@, b: other@ }, reply) && equal
                    == reply.flag(),
    {
        assert(self@ == self.inner@ && other@ == other.inner@);
        self.inner.eq(&other.inner, ffi)
    }

    /// The text the foreign library prints for the attribute, or the error
    /// if what it printed is not well-formed UTF-8.
    pub fn print<'r, F: Fn(Call<'_>) -> Reply<'r>>(&self, ffi: &F) -> (text: Result<String, FmtError>)
        requires
            serves(ffi),
        ensures
            exists|reply: Reply<'r>| #[trigger]
                replied(ffi, Call::AttributePrint { attr: self@ }, reply) && rendered(
                    reply.printed(),
                    text,
                ),
    {
        assert(self@ == self.inner@);
        self.inner.print(ffi)
    }
}

impl From<DictionaryAttr> for Attribute {
    fn from(other: DictionaryAttr) -> (attr: Attribute)
        ensures
            attr@ == other@,
    {
        other.inner
    }
}

impl vstd::std_specs::convert::FromSpecImpl<DictionaryAttr> for Attribute {
    open spec fn obeys_from_spec() -> bool {
        true
    }

    closed spec fn from_spec(other: DictionaryAttr) -> Attribute {
        other.inner
    }
}

/// An attribute that refers to a symbol by its name alone.
#[derive(Clone, Copy, Debug)]
pub struct FlatSymbolRefAttr {
    inner: Attribute,
}

impl View for FlatSymbolRefAttr {
    type V = MlirAttribute;

    closed spec fn view(&self) -> MlirAttribute {
        self.inner@
    }
}

impl FlatSymbolRefAttr {
    /// Whether `wrapped` is what wrapping `raw` gives: nothing for the null
    /// handle, and otherwise a value that holds `raw`.
    pub open spec fn wraps(wrapped: Option<FlatSymbolRefAttr>, raw: MlirAttribute) -> bool {
        match wrapped {
            Some(w) => w@ == raw && !raw.is_null(),
            None => raw.is_null(),
        }
    }

    /// Wraps a raw handle. The caller vouches that the attribute is of this
    /// kind.
    pub fn from_raw(attr: MlirAttribute) -> (wrapped: Option<FlatSymbolRefAttr>)
        ensures
            FlatSymbolRefAttr::wraps(wrapped, attr),
    {
        match Attribute::from_raw(attr) {
            Some(inner) => Some(FlatSymbolRefAttr { inner }),
            None => None,
        }
    }

    /// The raw handle, for passing to the foreign interface. It is never
    /// null.
    pub fn as_raw(&self) -> (raw: MlirAttribute)
        ensures
            raw == self@,
            !raw.is_null(),
    {
        self.inner.as_raw()
    }

    /// The attribute, seen as any attribute.
    pub fn to_attribute(&self) -> (attr: Attribute)
        ensures
            attr@ == self@,
    {
        self.inner
    }

    /// Whether the foreign library holds the two to be equal.
    pub fn eq<'r, F: Fn(Call<'_>) -> Reply<'r>>(&self, other: &FlatSymbolRefAttr, ffi: &F) -> (equal: bool)
        requires
            serves(ffi),
        ensures
            exists|reply: Reply<'r>| #[trigger]
                replied(ffi, Call::AttributeEqual { a: self@, b: other@ }, reply) && equal
                    == reply.flag(),
    {
        assert(self@ == self.inner@ && other@ == other.inner@);
        self.inner.eq(&other.inner, ffi)
    }

    /// The text the foreign library prints for the attribute, or the error
    /// if what it printed is not well-formed UTF-8.
    pub fn print<'r, F: Fn(Call<'_>) -> Reply<'r>>(&self, ffi: &F) -> (text: Result<String, FmtError>)
        requires
            serves(ffi),
        ensures
            exists|reply: Reply<'r>| #[trigger]
                replied(ffi, Call::AttributePrint { attr: self@ }, reply) && rendered(
                    reply.printed(),
                    text,
                ),
    {
        assert(self@ == self.inner@);
        self.inner.print(ffi)
    }
}

impl From<FlatSymbolRefAttr> for Attribute {
    fn from(other: FlatSymbolRefAttr) -> (attr: Attribute)
        ensures
            attr@ == other@,
    {
        other.inner
    }
}

impl vstd::std_specs::convert::FromSpecImpl<FlatSymbolRefAttr> for Attribute {
    open spec fn obeys_from_spec() -> bool {
        true
    }

    closed spec fn from_spec(other: FlatSymbolRefAttr) -> Attribute {
        other.inner
    }
}

/// An attribute that holds a type.
#[derive(Clone, Copy, Debug)]
pub struct TypeAttr {
    inner: Attribute,
}

impl View for TypeAttr {
    type V = MlirAttribute;

    closed spec fn view(&self) -> MlirAttribute {
        self.inner@
    }
}

impl TypeAttr {
    /// Whether `wrapped` is what wrapping `raw` gives: nothing for the null
    /// handle, and otherwise a value that holds `raw`.
    pub open spec fn wraps(wrapped: Option<TypeAttr>, raw: MlirAttribute) -> bool {
        match wrapped {
            Some(w) => w@ == raw && !raw.is_null(),
            None => raw.is_null(),
        }
    }

    /// Wraps a raw handle. The caller vouches that the attribute is of this
    /// kind.
    pub fn from_raw(attr: MlirAttribute) -> (wrapped: Option<TypeAttr>)
        ensures
            TypeAttr::wraps(wrapped, attr),
    {
        match Attribute::from_raw(attr) {
            Some(inner) => Some(TypeAttr { inner }),
            None => None,
        }
    }

    /// The raw handle, for passing to the foreign interface. It is never
    /// null.
    pub fn as_raw(&self) -> (raw: MlirAttribute)
        ensures
            raw == self@,
            !raw.is_null(),
    {
        self.inner.as_raw()
    }

    /// The attribute, seen as any attribute.
    pub fn to_attribute(&self) -> (attr: Attribute)
        ensures
            attr@ == self@,
    {
        self.inner
    }

    /// Whether the foreign library holds the two to be equal.
    pub fn eq<'r, F: Fn(Call<'_>) -> Reply<'r>>(&self, other: &TypeAttr, ffi: &F) -> (equal: bool)
        requires
            serves(ffi),
        ensures
            exists|reply: Reply<'r>| #[trigger]
                replied(ffi, Call::AttributeEqual { a: self@, b: other@ }, reply) && equal
                    == reply.flag(),
    {
        assert(self@ == self.inner@ && other@ == other.inner@);
        self.inner.eq(&other.inner, ffi)
    }

    /// The text the foreign library prints for the attribute, or the error
    /// if what it printed is not well-formed UTF-8.
    pub fn print<'r, F: Fn(Call<'_>) -> Reply<'r>>(&self, ffi: &F) -> (text: Result<String, FmtError>)
        requires
            serves(ffi),
        ensures
            exists|reply: Reply<'r>| #[trigger]
                replied(ffi, Call::AttributePrint { attr: self@ }, reply) && rendered(
                    reply.printed(),
                    text,
                ),
    {
        assert(self@ == self.inner@);
        self.inner.print(ffi)
    }
}

impl From<TypeAttr> for Attribute {
    fn from(other: TypeAttr) -> (attr: Attribute)
        ensures
            attr@ == other@,
    {
        other.inner
    }
}

impl vstd::std_specs::convert::FromSpecImpl<TypeAttr> for Attribute {
    open spec fn obeys_from_spec() -> bool {
        true
    }

    closed spec fn from_spec(other: TypeAttr) -> Attribute {
        other.inner
    }
}

impl FlatSymbolRefAttr {
    /// The reference to the symbol called `symbol`, or `None` if the
    /// foreign library returns none.
    pub fn new<'r, F: Fn(Call<'_>) -> Reply<'r>>(symbol: StringRef<'_>, ffi: &F) -> (attr: Option<FlatSymbolRefAttr>)
        requires
            serves(ffi),
        ensures
            exists|call: Call<'_>, reply: Reply<'r>| #[trigger]
                replied(ffi, call, reply) && (call matches Call::FlatSymbolRefAttrGet {
                    symbol: s,
                } && s@ == symbol@) && FlatSymbolRefAttr::wraps(attr, reply.attribute()),
    {
        let reply = ask(ffi, Call::FlatSymbolRefAttrGet { symbol: symbol.as_raw() });
        FlatSymbolRefAttr::from_raw(reply.attribute())
    }

    /// The name of the symbol referred to, as the foreign library holds it.
    pub fn value<'r, F: Fn(Call<'_>) -> Reply<'r>>(&self, ffi: &F) -> (name: Option<StringRef<'r>>)
        requires
            serves(ffi),
        ensures
            exists|reply: Reply<'r>| #[trigger]
                replied(ffi, Call::FlatSymbolRefAttrGetValue { attr: self@ }, reply)
                    && StringRef::shows(name, reply.text()),
    {
        let reply = ask(ffi, Call::FlatSymbolRefAttrGetValue { attr: self.as_raw() });
        StringRef::from_reply(&reply)
    }
}

impl ArrayAttr {
    /// The array attribute with the given elements, or `None` if the
    /// foreign library returns none.
    pub fn create<'r, F: Fn(Call<'_>) -> Reply<'r>>(elements: &[Attribute], ffi: &F) -> (attr: Option<ArrayAttr>)
        requires
            serves(ffi),
        ensures
            exists|call: Call<'_>, reply: Reply<'r>| #[trigger]
                replied(ffi, call, reply) && (call matches Call::ArrayAttrGet { elements: e }
                    && e@ == attribute_handles(elements@)) && ArrayAttr::wraps(
                    attr,
                    reply.attribute(),
                ),
    {
        let raws = raw_attributes(elements);
        let reply = ask(ffi, Call::ArrayAttrGet { elements: raws.as_slice() });
        ArrayAttr::from_raw(reply.attribute())
    }
}

impl DictionaryAttr {
    /// The dictionary attribute with the given entries, or `None` if the
    /// foreign library returns none.
    pub fn create<'r, F: Fn(Call<'_>) -> Reply<'r>>(elements: &[NamedAttribute], ffi: &F) -> (attr: Option<DictionaryAttr>)
        requires
            serves(ffi),
        ensures
            exists|call: Call<'_>, reply: Reply<'r>| #[trigger]
                replied(ffi, call, reply) && (call matches Call::DictionaryAttrGet {
                    elements: e,
                } && e@ == named_attribute_handles(elements@)) && DictionaryAttr::wraps(
                    attr,
                    reply.attribute(),
                ),
    {
        let raws = raw_named_attributes(elements);
        let reply = ask(ffi, Call::DictionaryAttrGet { elements: raws.as_slice() });
        DictionaryAttr::from_raw(reply.attribute())
    }
}

impl TypeAttr {
    /// The attribute that holds `ty`, or `None` if the foreign library
    /// returns none.
    pub fn get<'r, F: Fn(Call<'_>) -> Reply<'r>>(ty: Type, ffi: &F) -> (attr: Option<TypeAttr>)
        requires
            serves(ffi),
        ensures
            exists|reply: Reply<'r>| #[trigger]
                replied(ffi, Call::TypeAttrGet { ty: ty@ }, reply) && TypeAttr::wraps(
                    attr,
                    reply.attribute(),
                ),
    {
        let reply = ask(ffi, Call::TypeAttrGet { ty: ty.as_raw() });
        TypeAttr::from_raw(reply.attribute())
    }
}

} // verus!
