//! The type system: types, and narrowing a type to what it concretely is.

use vstd::prelude::*;
use crate::fmt::{render, rendered, FmtError};
use crate::foreign::{ask, replied, serves, Call, Reply};
use crate::private::Sealed;
use crate::raw::MlirType;

verus! {

/// A type. Uniqued: copies refer to the same type, which lives as long as
/// its context.
#[derive(Clone, Copy, Debug)]
pub struct Type {
    pub(crate) inner: MlirType,
}

impl View for Type {
    type V = MlirType;

    closed spec fn view(&self) -> MlirType {
        self.inner
    }
}

impl Sealed for Type {
}

impl Type {
    #[verifier::type_invariant]
    spec fn live(self) -> bool {
        !self.inner.is_null()
    }

    /// Whether `wrapped` is what wrapping `raw` gives: nothing for the null
    /// handle, and otherwise a value that holds `raw`.
    pub open spec fn wraps(wrapped: Option<Type>, raw: MlirType) -> bool {
        match wrapped {
            Some(w) => w@ == raw && !raw.is_null(),
            None => raw.is_null(),
        }
    }

    /// Wraps a raw handle.
    pub fn from_raw(raw: MlirType) -> (wrapped: Option<Type>)
        ensures
            Type::wraps(wrapped, raw),
    {
        if raw.is_null() {
            return None;
        }
        Some(Type { inner: raw })
    }

    /// The raw handle, for passing to the foreign interface. It is never
    /// null.
    pub fn as_raw(&self) -> (raw: MlirType)
        ensures
            raw == self@,
            !raw.is_null(),
    {
        proof {
            use_type_invariant(self);
        }
        self.inner
    }

    /// Whether the foreign library holds the two to be equal.
    pub fn eq<'r, F: Fn(Call<'_>) -> Reply<'r>>(&self, other: &Type, ffi: &F) -> (equal: bool)
        requires
            serves(ffi),
        ensures
            exists|reply: Reply<'r>| #[trigger]
                replied(ffi, Call::TypeEqual { a: self@, b: other@ }, reply) && equal
                    == reply.flag(),
    {
        let reply = ask(ffi, Call::TypeEqual { a: self.as_raw(), b: other.as_raw() });
        reply.flag()
    }

    /// The text the foreign library prints for the value, or the error if
    /// what it printed is not well-formed UTF-8.
    pub fn print<'r, F: Fn(Call<'_>) -> Reply<'r>>(&self, ffi: &F) -> (text: Result<String, FmtError>)
        requires
            serves(ffi),
        ensures
            exists|reply: Reply<'r>| #[trigger]
                replied(ffi, Call::TypePrint { ty: self@ }, reply) && rendered(
                    reply.printed(),
                    text,
                ),
    {
        let reply = ask(ffi, Call::TypePrint { ty: self.as_raw() });
        render(&reply)
    }

    /// Whether the type is a function type.
    pub fn is_function<'r, F: Fn(Call<'_>) -> Reply<'r>>(&self, ffi: &F) -> (yes: bool)
        requires
            serves(ffi),
        ensures
            exists|reply: Reply<'r>| #[trigger]
                replied(ffi, Call::TypeIsAFunction { ty: self@ }, reply) && yes == reply.flag(),
    {
        let reply = ask(ffi, Call::TypeIsAFunction { ty: self.as_raw() });
        reply.flag()
    }

    /// Narrows the type to `T`: `Ok` with the same type seen as a `T` if the
    /// foreign library says it is one, and otherwise `Err` with the type
    /// itself.
    pub fn downcast<'r, T: TypeSubtype, F: Fn(Call<'_>) -> Reply<'r>>(self, ffi: &F) -> (narrowed:
        Result<T, Type>)
        requires
            serves(ffi),
        ensures
            exists|reply: Reply<'r>| #[trigger]
                replied(ffi, T::question(self@), reply) && narrows(
                    self@,
                    reply.flag(),
                    narrowed,
                ),
    {
        T::downcast_from(self, ffi)
    }
}

/// The raw handles of `types`, in order.
pub open spec fn type_handles(types: Seq<Type>) -> Seq<MlirType> {
    types.map_values(|t: Type| t@)
}

/// Lays `types` out as the foreign interface takes them.
pub fn raw_types(types: &[Type]) -> (raws: Vec<MlirType>)
    ensures
        raws@ == type_handles(types@),
{
    let mut raws: Vec<MlirType> = Vec::new();
    let mut i: usize = 0;
    while i < types.len()
        invariant
            i <= types.len(),
            raws@ == type_handles(types@.take(i as int)),
        decreases types.len() - i,
    {
        raws.push(types[i].as_raw());
        assert(type_handles(types@.take(i + 1)) =~= type_handles(types@.take(i as int)).push(
            types@[i as int]@,
        ));
        i += 1;
    }
    assert(types@.take(i as int) =~= types@);
    raws
}

/// Whether `narrowed` is what narrowing the type `ty` gives when the answer
/// to "is it one?" is `yes`: the same type either way, as the subtype if it
/// is one and handed back unchanged if it is not.
pub open spec fn narrows<T: TypeSubtype>(ty: MlirType, yes: bool, narrowed: Result<T, Type>) -> bool {
    match narrowed {
        Ok(sub) => yes && sub.as_type() == ty,
        Err(back) => !yes && back@ == ty,
    }
}

/// A concrete kind of type that a [`Type`] can be narrowed to.
///
/// An implementation answers `can_downcast` with `true` only for types
/// whose concrete kind it is, and hands back from `downcast_from_unchecked`
/// the very type it was given.
pub trait TypeSubtype: Sized {
    /// The type this value is.
    spec fn as_type(&self) -> MlirType;

    /// The foreign call that tells whether `ty` is of this kind.
    spec fn question(ty: MlirType) -> Call<'static>;

    /// Whether `ty` is of this kind.
    fn can_downcast<'r, F: Fn(Call<'_>) -> Reply<'r>>(ty: &Type, ffi: &F) -> (can: bool)
        requires
            serves(ffi),
        ensures
            exists|reply: Reply<'r>| #[trigger]
                replied(ffi, Self::question(ty@), reply) && can == reply.flag(),
    ;

    /// Sees `ty` as this kind without asking. The caller vouches that `ty`
    /// is of this kind.
    fn downcast_from_unchecked(ty: Type) -> (sub: Self)
        ensures
            sub.as_type() == ty@,
    ;

    /// Narrows `ty` to this kind: `Ok` if it is of this kind, and otherwise
    /// `Err` with `ty` itself.
    fn downcast_from<'r, F: Fn(Call<'_>) -> Reply<'r>>(ty: Type, ffi: &F) -> (narrowed: Result<Self, Type>)
        requires
            serves(ffi),
        ensures
            exists|reply: Reply<'r>| #[trigger]
                replied(ffi, Self::question(ty@), reply) && match narrowed {
                    Ok(sub) => reply.flag() && sub.as_type() == ty@,
                    Err(back) => !reply.flag() && back@ == ty@,
                },
    {
        if Self::can_downcast(&ty, ffi) {
            Ok(Self::downcast_from_unchecked(ty))
        } else {
            Err(ty)
        }
    }
}

/// The 16-bit brain floating-point type.
#[derive(Clone, Copy, Debug)]
pub struct BF16Type {
    inner: Type,
}

impl View for BF16Type {
    type V = MlirType;

    closed spec fn view(&self) -> MlirType {
        self.inner@
    }
}

impl BF16Type {
    /// Whether `wrapped` is what wrapping `raw` gives: nothing for the null
    /// handle, and otherwise a value that holds `raw`.
    pub open spec fn wraps(wrapped: Option<BF16Type>, raw: MlirType) -> bool {
        match wrapped {
            Some(w) => w@ == raw && !raw.is_null(),
            None => raw.is_null(),
        }
    }

    /// Wraps a raw handle. The caller vouches that the type is of this
    /// kind.
    pub fn from_raw(ty: MlirType) -> (wrapped: Option<BF16Type>)
        ensures
            BF16Type::wraps(wrapped, ty),
    {
        match Type::from_raw(ty) {
            Some(inner) => Some(BF16Type { inner }),
            None => None,
        }
    }

    /// The raw handle, for passing to the foreign interface. It is never
    /// null.
    pub fn as_raw(&self) -> (raw: MlirType)
        ensures
            raw == self@,
            !raw.is_null(),
    {
        self.inner.as_raw()
    }

    /// The type, seen as any type.
    pub fn to_type(&self) -> (ty: Type)
        ensures
            ty@ == self@,
    {
        self.inner
    }

    /// Whether the foreign library holds the two to be equal.
    pub fn eq<'r, F: Fn(Call<'_>) -> Reply<'r>>(&self, other: &BF16Type, ffi: &F) -> (equal: bool)
        requires
            serves(ffi),
        ensures
            exists|reply: Reply<'r>| #[trigger]
                replied(ffi, Call::TypeEqual { a: self@, b: other@ }, reply) && equal
                    == reply.flag(),
    {
        assert(self@ == self.inner@ && other@ == other.inner@);
        self.inner.eq(&other.inner, ffi)
    }

    /// The text the foreign library prints for the type, or the error if
    /// what it printed is not well-formed UTF-8.
    pub fn print<'r, F: Fn(Call<'_>) -> Reply<'r>>(&self, ffi: &F) -> (text: Result<String, FmtError>)
        requires
            serves(ffi),
        ensures
            exists|reply: Reply<'r>| #[trigger]
                replied(ffi, Call::TypePrint { ty: self@ }, reply) && rendered(
                    reply.printed(),
                    text,
                ),
    {
        assert(self@ == self.inner@);
        self.inner.print(ffi)
    }
}

impl From<BF16Type> for Type {
    fn from(other: BF16Type) -> (ty: Type)
        ensures
            ty@ == other@,
    {
        other.inner
    }
}

impl vstd::std_specs::convert::FromSpecImpl<BF16Type> for Type {
    open spec fn obeys_from_spec() -> bool {
        true
    }

    closed spec fn from_spec(other: BF16Type) -> Type {
        other.inner
    }
}

/// The 16-bit floating-point type.
#[derive(Clone, Copy, Debug)]
pub struct F16Type {
    inner: Type,
}

impl View for F16Type {
    type V = MlirType;

    closed spec fn view(&self) -> MlirType {
        self.inner@
    }
}

impl F16Type {
    /// Whether `wrapped` is what wrapping `raw` gives: nothing for the null
    /// handle, and otherwise a value that holds `raw`.
    pub open spec fn wraps(wrapped: Option<F16Type>, raw: MlirType) -> bool {
        match wrapped {
            Some(w) => w@ == raw && !raw.is_null(),
            None => raw.is_null(),
        }
    }

    /// Wraps a raw handle. The caller vouches that the type is of this
    /// kind.
    pub fn from_raw(ty: MlirType) -> (wrapped: Option<F16Type>)
        ensures
            F16Type::wraps(wrapped, ty),
    {
        match Type::from_raw(ty) {
            Some(inner) => Some(F16Type { inner }),
            None => None,
        }
    }

    /// The raw handle, for passing to the foreign interface. It is never
    /// null.
    pub fn as_raw(&self) -> (raw: MlirType)
        ensures
            raw == self@,
            !raw.is_null(),
    {
        self.inner.as_raw()
    }

    /// The type, seen as any type.
    pub fn to_type(&self) -> (ty: Type)
        ensures
            ty@ == self@,
    {
        self.inner
    }

    /// Whether the foreign library holds the two to be equal.
    pub fn eq<'r, F: Fn(Call<'_>) -> Reply<'r>>(&self, other: &F16Type, ffi: &F) -> (equal: bool)
        requires
            serves(ffi),
        ensures
            exists|reply: Reply<'r>| #[trigger]
                replied(ffi, Call::TypeEqual { a: self@, b: other@ }, reply) && equal
                    == reply.flag(),
    {
        assert(self@ == self.inner@ && other@ == other.inner@);
        self.inner.eq(&other.inner, ffi)
    }

    /// The text the foreign library prints for the type, or the error if
    /// what it printed is not well-formed UTF-8.
    pub fn print<'r, F: Fn(Call<'_>) -> Reply<'r>>(&self, ffi: &F) -> (text: Result<String, FmtError>)
        requires
            serves(ffi),
        ensures
            exists|reply: Reply<'r>| #[trigger]
                replied(ffi, Call::TypePrint { ty: self@ }, reply) && rendered(
                    reply.printed(),
                    text,
                ),
    {
        assert(self@ == self.inner@);
        self.inner.print(ffi)
    }
}

impl From<F16Type> for Type {
    fn from(other: F16Type) -> (ty: Type)
        ensures
            ty@ == other@,
    {
        other.inner
    }
}

impl vstd::std_specs::convert::FromSpecImpl<F16Type> for Type {
    open spec fn obeys_from_spec() -> bool {
        true
    }

    closed spec fn from_spec(other: F16Type) -> Type {
        other.inner
    }
}

/// The 32-bit floating-point type.
#[derive(Clone, Copy, Debug)]
pub struct F32Type {
    inner: Type,
}

impl View for F32Type {
    type V = MlirType;

    closed spec fn view(&self) -> MlirType {
        self.inner@
    }
}

impl F32Type {
    /// Whether `wrapped` is what wrapping `raw` gives: nothing for the null
    /// handle, and otherwise a value that holds `raw`.
    pub open spec fn wraps(wrapped: Option<F32Type>, raw: MlirType) -> bool {
        match wrapped {
            Some(w) => w@ == raw && !raw.is_null(),
            None => raw.is_null(),
        }
    }

    /// Wraps a raw handle. The caller vouches that the type is of this
    /// kind.
    pub fn from_raw(ty: MlirType) -> (wrapped: Option<F32Type>)
        ensures
            F32Type::wraps(wrapped, ty),
    {
        match Type::from_raw(ty) {
            Some(inner) => Some(F32Type { inner }),
            None => None,
        }
    }

    /// The raw handle, for passing to the foreign interface. It is never
    /// null.
    pub fn as_raw(&self) -> (raw: MlirType)
        ensures
            raw == self@,
            !raw.is_null(),
    {
        self.inner.as_raw()
    }

    /// The type, seen as any type.
    pub fn to_type(&self) -> (ty: Type)
        ensures
            ty@ == self@,
    {
        self.inner
    }

    /// Whether the foreign library holds the two to be equal.
    pub fn eq<'r, F: Fn(Call<'_>) -> Reply<'r>>(&self, other: &F32Type, ffi: &F) -> (equal: bool)
        requires
            serves(ffi),
        ensures
            exists|reply: Reply<'r>| #[trigger]
                replied(ffi, Call::TypeEqual { a: self@, b: other@ }, reply) && equal
                    == reply.flag(),
    {
        assert(self@ == self.inner@ && other@ == other.inner@);
        self.inner.eq(&other.inner, ffi)
    }

    /// The text the foreign library prints for the type, or the error if
    /// what it printed is not well-formed UTF-8.
    pub fn print<'r, F: Fn(Call<'_>) -> Reply<'r>>(&self, ffi: &F) -> (text: Result<String, FmtError>)
        requires
            serves(ffi),
        ensures
            exists|reply: Reply<'r>| #[trigger]
                replied(ffi, Call::TypePrint { ty: self@ }, reply) && rendered(
                    reply.printed(),
                    text,
                ),
    {
        assert(self@ == self.inner@);
        self.inner.print(ffi)
    }
}

impl From<F32Type> for Type {
    fn from(other: F32Type) -> (ty: Type)
        ensures
            ty@ == other@,
    {
        other.inner
    }
}

impl vstd::std_specs::convert::FromSpecImpl<F32Type> for Type {
    open spec fn obeys_from_spec() -> bool {
        true
    }

    closed spec fn from_spec(other: F32Type) -> Type {
        other.inner
    }
}

/// The 64-bit floating-point type.
#[derive(Clone, Copy, Debug)]
pub struct F64Type {
    inner: Type,
}

impl View for F64Type {
    type V = MlirType;

    closed spec fn view(&self) -> MlirType {
        self.inner@
    }
}

impl F64Type {
    /// Whether `wrapped` is what wrapping `raw` gives: nothing for the null
    /// handle, and otherwise a value that holds `raw`.
    pub open spec fn wraps(wrapped: Option<F64Type>, raw: MlirType) -> bool {
        match wrapped {
            Some(w) => w@ == raw && !raw.is_null(),
            None => raw.is_null(),
        }
    }

    /// Wraps a raw handle. The caller vouches that the type is of this
    /// kind.
    pub fn from_raw(ty: MlirType) -> (wrapped: Option<F64Type>)
        ensures
            F64Type::wraps(wrapped, ty),
    {
        match Type::from_raw(ty) {
            Some(inner) => Some(F64Type { inner }),
            None => None,
        }
    }

    /// The raw handle, for passing to the foreign interface. It is never
    /// null.
    pub fn as_raw(&self) -> (raw: MlirType)
        ensures
            raw == self@,
            !raw.is_null(),
    {
        self.inner.as_raw()
    }

    /// The type, seen as any type.
    pub fn to_type(&self) -> (ty: Type)
        ensures
            ty@ == self@,
    {
        self.inner
    }

    /// Whether the foreign library holds the two to be equal.
    pub fn eq<'r, F: Fn(Call<'_>) -> Reply<'r>>(&self, other: &F64Type, ffi: &F) -> (equal: bool)
        requires
            serves(ffi),
        ensures
            exists|reply: Reply<'r>| #[trigger]
                replied(ffi, Call::TypeEqual { a: self@, b: other@ }, reply) && equal
                    == reply.flag(),
    {
        assert(self@ == self.inner@ && other@ == other.inner@);
        self.inner.eq(&other.inner, ffi)
    }

    /// The text the foreign library prints for the type, or the error if
    /// what it printed is not well-formed UTF-8.
    pub fn print<'r, F: Fn(Call<'_>) -> Reply<'r>>(&self, ffi: &F) -> (text: Result<String, FmtError>)
        requires
            serves(ffi),
        ensures
            exists|reply: Reply<'r>| #[trigger]
                replied(ffi, Call::TypePrint { ty: self@ }, reply) && rendered(
                    reply.printed(),
                    text,
                ),
    {
        assert(self@ == self.inner@);
        self.inner.print(ffi)
    }
}

impl From<F64Type> for Type {
    fn from(other: F64Type) -> (ty: Type)
        ensures
            ty@ == other@,
    {
        other.inner
    }
}

impl vstd::std_specs::convert::FromSpecImpl<F64Type> for Type {
    open spec fn obeys_from_spec() -> bool {
        true
    }

    closed spec fn from_spec(other: F64Type) -> Type {
        other.inner
    }
}

/// A function type: some input types and some result types.
#[derive(Clone, Copy, Debug)]
pub struct FunctionType {
    inner: Type,
}

impl View for FunctionType {
    type V = MlirType;

    closed spec fn view(&self) -> MlirType {
        self.inner@
    }
}

impl FunctionType {
    /// Whether `wrapped` is what wrapping `raw` gives: nothing for the null
    /// handle, and otherwise a value that holds `raw`.
    pub open spec fn wraps(wrapped: Option<FunctionType>, raw: MlirType) -> bool {
        match wrapped {
            Some(w) => w@ == raw && !raw.is_null(),
            None => raw.is_null(),
        }
    }

    /// Wraps a raw handle. The caller vouches that the type is of this
    /// kind.
    pub fn from_raw(ty: MlirType) -> (wrapped: Option<FunctionType>)
        ensures
            FunctionType::wraps(wrapped, ty),
    {
        match Type::from_raw(ty) {
            Some(inner) => Some(FunctionType { inner }),
            None => None,
        }
    }

    /// The raw handle, for passing to the foreign interface. It is never
    /// null.
    pub fn as_raw(&self) -> (raw: MlirType)
        ensures
            raw == self@,
            !raw.is_null(),
    {
        self.inner.as_raw()
    }

    /// The type, seen as any type.
    pub fn to_type(&self) -> (ty: Type)
        ensures
            ty@ == self@,
    {
        self.inner
    }

    /// Whether the foreign library holds the two to be equal.
    pub fn eq<'r, F: Fn(Call<'_>) -> Reply<'r>>(&self, other: &FunctionType, ffi: &F) -> (equal: bool)
        requires
            serves(ffi),
        ensures
            exists|reply: Reply<'r>| #[trigger]
                replied(ffi, Call::TypeEqual { a: self@, b: other@ }, reply) && equal
                    == reply.flag(),
    {
        assert(self@ == self.inner@ && other@ == other.inner@);
        self.inner.eq(&other.inner, ffi)
    }

    /// The text the foreign library prints for the type, or the error if
    /// what it printed is not well-formed UTF-8.
    pub fn print<'r, F: Fn(Call<'_>) -> Reply<'r>>(&self, ffi: &F) -> (text: Result<String, FmtError>)
        requires
            serves(ffi),
        ensures
            exists|reply: Reply<'r>| #[trigger]
                replied(ffi, Call::TypePrint { ty: self@ }, reply) && rendered(
                    reply.printed(),
                    text,
                ),
    {
        assert(self@ == self.inner@);
        self.inner.print(ffi)
    }
}

impl From<FunctionType> for Type {
    fn from(other: FunctionType) -> (ty: Type)
        ensures
            ty@ == other@,
    {
        other.inner
    }
}

impl vstd::std_specs::convert::FromSpecImpl<FunctionType> for Type {
    open spec fn obeys_from_spec() -> bool {
        true
    }

    closed spec fn from_spec(other: FunctionType) -> Type {
        other.inner
    }
}

impl TypeSubtype for FunctionType {
    open spec fn as_type(&self) -> MlirType {
        self@
    }

    open spec fn question(ty: MlirType) -> Call<'static> {
        Call::TypeIsAFunction { ty }
    }

    fn can_downcast<'r, F: Fn(Call<'_>) -> Reply<'r>>(ty: &Type, ffi: &F) -> (can: bool) {
        assert(Self::question(ty@) == Call::TypeIsAFunction { ty: ty@ });
        ty.is_function(ffi)
    }

    fn downcast_from_unchecked(ty: Type) -> (sub: FunctionType) {
        FunctionType { inner: ty }
    }
}

impl FunctionType {
    /// The type of functions from `inputs` to `results`, or `None` if the
    /// foreign library returns none.
    pub fn get<'r, F: Fn(Call<'_>) -> Reply<'r>>(inputs: &[Type], results: &[Type], ffi: &F) -> (ty: Option<
        FunctionType,
    >)
        requires
            serves(ffi),
        ensures
            exists|call: Call<'_>, reply: Reply<'r>| #[trigger]
                replied(ffi, call, reply) && (call matches Call::FunctionTypeGet {
                    inputs: i,
                    results: o,
                } && i@ == type_handles(inputs@) && o@ == type_handles(results@))
                    && FunctionType::wraps(ty, reply.ty()),
    {
        let raw_inputs = raw_types(inputs);
        let raw_results = raw_types(results);
        let reply = ask(
            ffi,
            Call::FunctionTypeGet {
                inputs: raw_inputs.as_slice(),
                results: raw_results.as_slice(),
            },
        );
        FunctionType::from_raw(reply.ty())
    }
}

} // verus!
