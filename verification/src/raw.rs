//! The plain-data handles that cross the C interface of MLIR and CIRCT.
//!
//! Every handle is one address-sized word that refers to memory owned by the
//! foreign library. The address zero universally means "no value". Nothing in
//! this module attaches ownership to a handle: that is the business of the
//! wrappers built on top of it.

use vstd::prelude::*;

verus! {

/// The raw handle of an attribute.
#[derive(Clone, Copy, Debug, PartialEq, Eq, Hash, Structural)]
pub struct MlirAttribute {
    pub ptr: usize,
}

impl MlirAttribute {
    /// The handle that refers to nothing.
    pub fn null() -> (raw: MlirAttribute)
        ensures
            raw.is_null(),
            raw.ptr == 0,
    {
        MlirAttribute { ptr: 0 }
    }

    pub open spec fn spec_is_null(&self) -> bool {
        self.ptr == 0
    }

    /// Whether the handle refers to nothing.
    #[verifier::when_used_as_spec(spec_is_null)]
    pub fn is_null(&self) -> (b: bool)
        ensures
            b == self.is_null(),
    {
        self.ptr == 0
    }
}

/// The raw handle of a block.
#[derive(Clone, Copy, Debug, PartialEq, Eq, Hash, Structural)]
pub struct MlirBlock {
    pub ptr: usize,
}

impl MlirBlock {
    /// The handle that refers to nothing.
    pub fn null() -> (raw: MlirBlock)
        ensures
            raw.is_null(),
            raw.ptr == 0,
    {
        MlirBlock { ptr: 0 }
    }

    pub open spec fn spec_is_null(&self) -> bool {
        self.ptr == 0
    }

    /// Whether the handle refers to nothing.
    #[verifier::when_used_as_spec(spec_is_null)]
    pub fn is_null(&self) -> (b: bool)
        ensures
            b == self.is_null(),
    {
        self.ptr == 0
    }
}

/// The raw handle of a context.
#[derive(Clone, Copy, Debug, PartialEq, Eq, Hash, Structural)]
pub struct MlirContext {
    pub ptr: usize,
}

impl MlirContext {
    /// The handle that refers to nothing.
    pub fn null() -> (raw: MlirContext)
        ensures
            raw.is_null(),
            raw.ptr == 0,
    {
        MlirContext { ptr: 0 }
    }

    pub open spec fn spec_is_null(&self) -> bool {
        self.ptr == 0
    }

    /// Whether the handle refers to nothing.
    #[verifier::when_used_as_spec(spec_is_null)]
    pub fn is_null(&self) -> (b: bool)
        ensures
            b == self.is_null(),
    {
        self.ptr == 0
    }
}

/// The raw handle of a dialect.
#[derive(Clone, Copy, Debug, PartialEq, Eq, Hash, Structural)]
pub struct MlirDialect {
    pub ptr: usize,
}

impl MlirDialect {
    /// The handle that refers to nothing.
    pub fn null() -> (raw: MlirDialect)
        ensures
            raw.is_null(),
            raw.ptr == 0,
    {
        MlirDialect { ptr: 0 }
    }

    pub open spec fn spec_is_null(&self) -> bool {
        self.ptr == 0
    }

    /// Whether the handle refers to nothing.
    #[verifier::when_used_as_spec(spec_is_null)]
    pub fn is_null(&self) -> (b: bool)
        ensures
            b == self.is_null(),
    {
        self.ptr == 0
    }
}

/// The raw handle of a dialect registration hook.
#[derive(Clone, Copy, Debug, PartialEq, Eq, Hash, Structural)]
pub struct MlirDialectHandle {
    pub ptr: usize,
}

impl MlirDialectHandle {
    /// The handle that refers to nothing.
    pub fn null() -> (raw: MlirDialectHandle)
        ensures
            raw.is_null(),
            raw.ptr == 0,
    {
        MlirDialectHandle { ptr: 0 }
    }

    pub open spec fn spec_is_null(&self) -> bool {
        self.ptr == 0
    }

    /// Whether the handle refers to nothing.
    #[verifier::when_used_as_spec(spec_is_null)]
    pub fn is_null(&self) -> (b: bool)
        ensures
            b == self.is_null(),
    {
        self.ptr == 0
    }
}

/// The raw handle of a dialect registry.
#[derive(Clone, Copy, Debug, PartialEq, Eq, Hash, Structural)]
pub struct MlirDialectRegistry {
    pub ptr: usize,
}

impl MlirDialectRegistry {
    /// The handle that refers to nothing.
    pub fn null() -> (raw: MlirDialectRegistry)
        ensures
            raw.is_null(),
            raw.ptr == 0,
    {
        MlirDialectRegistry { ptr: 0 }
    }

    pub open spec fn spec_is_null(&self) -> bool {
        self.ptr == 0
    }

    /// Whether the handle refers to nothing.
    #[verifier::when_used_as_spec(spec_is_null)]
    pub fn is_null(&self) -> (b: bool)
        ensures
            b == self.is_null(),
    {
        self.ptr == 0
    }
}

/// The raw handle of an identifier.
#[derive(Clone, Copy, Debug, PartialEq, Eq, Hash, Structural)]
pub struct MlirIdentifier {
    pub ptr: usize,
}

impl MlirIdentifier {
    /// The handle that refers to nothing.
    pub fn null() -> (raw: MlirIdentifier)
        ensures
            raw.is_null(),
            raw.ptr == 0,
    {
        MlirIdentifier { ptr: 0 }
    }

    pub open spec fn spec_is_null(&self) -> bool {
        self.ptr == 0
    }

    /// Whether the handle refers to nothing.
    #[verifier::when_used_as_spec(spec_is_null)]
    pub fn is_null(&self) -> (b: bool)
        ensures
            b == self.is_null(),
    {
        self.ptr == 0
    }
}

/// The raw handle of a location.
#[derive(Clone, Copy, Debug, PartialEq, Eq, Hash, Structural)]
pub struct MlirLocation {
    pub ptr: usize,
}

impl MlirLocation {
    /// The handle that refers to nothing.
    pub fn null() -> (raw: MlirLocation)
        ensures
            raw.is_null(),
            raw.ptr == 0,
    {
        MlirLocation { ptr: 0 }
    }

    pub open spec fn spec_is_null(&self) -> bool {
        self.ptr == 0
    }

    /// Whether the handle refers to nothing.
    #[verifier::when_used_as_spec(spec_is_null)]
    pub fn is_null(&self) -> (b: bool)
        ensures
            b == self.is_null(),
    {
        self.ptr == 0
    }
}

/// The raw handle of a module.
#[derive(Clone, Copy, Debug, PartialEq, Eq, Hash, Structural)]
pub struct MlirModule {
    pub ptr: usize,
}

impl MlirModule {
    /// The handle that refers to nothing.
    pub fn null() -> (raw: MlirModule)
        ensures
            raw.is_null(),
            raw.ptr == 0,
    {
        MlirModule { ptr: 0 }
    }

    pub open spec fn spec_is_null(&self) -> bool {
        self.ptr == 0
    }

    /// Whether the handle refers to nothing.
    #[verifier::when_used_as_spec(spec_is_null)]
    pub fn is_null(&self) -> (b: bool)
        ensures
            b == self.is_null(),
    {
        self.ptr == 0
    }
}

/// The raw handle of an operation.
#[derive(Clone, Copy, Debug, PartialEq, Eq, Hash, Structural)]
pub struct MlirOperation {
    pub ptr: usize,
}

impl MlirOperation {
    /// The handle that refers to nothing.
    pub fn null() -> (raw: MlirOperation)
        ensures
            raw.is_null(),
            raw.ptr == 0,
    {
        MlirOperation { ptr: 0 }
    }

    pub open spec fn spec_is_null(&self) -> bool {
        self.ptr == 0
    }

    /// Whether the handle refers to nothing.
    #[verifier::when_used_as_spec(spec_is_null)]
    pub fn is_null(&self) -> (b: bool)
        ensures
            b == self.is_null(),
    {
        self.ptr == 0
    }
}

/// The raw handle of a region.
#[derive(Clone, Copy, Debug, PartialEq, Eq, Hash, Structural)]
pub struct MlirRegion {
    pub ptr: usize,
}

impl MlirRegion {
    /// The handle that refers to nothing.
    pub fn null() -> (raw: MlirRegion)
        ensures
            raw.is_null(),
            raw.ptr == 0,
    {
        MlirRegion { ptr: 0 }
    }

    pub open spec fn spec_is_null(&self) -> bool {
        self.ptr == 0
    }

    /// Whether the handle refers to nothing.
    #[verifier::when_used_as_spec(spec_is_null)]
    pub fn is_null(&self) -> (b: bool)
        ensures
            b == self.is_null(),
    {
        self.ptr == 0
    }
}

/// The raw handle of a symbol table.
#[derive(Clone, Copy, Debug, PartialEq, Eq, Hash, Structural)]
pub struct MlirSymbolTable {
    pub ptr: usize,
}

impl MlirSymbolTable {
    /// The handle that refers to nothing.
    pub fn null() -> (raw: MlirSymbolTable)
        ensures
            raw.is_null(),
            raw.ptr == 0,
    {
        MlirSymbolTable { ptr: 0 }
    }

    pub open spec fn spec_is_null(&self) -> bool {
        self.ptr == 0
    }

    /// Whether the handle refers to nothing.
    #[verifier::when_used_as_spec(spec_is_null)]
    pub fn is_null(&self) -> (b: bool)
        ensures
            b == self.is_null(),
    {
        self.ptr == 0
    }
}

/// The raw handle of a type.
#[derive(Clone, Copy, Debug, PartialEq, Eq, Hash, Structural)]
pub struct MlirType {
    pub ptr: usize,
}

impl MlirType {
    /// The handle that refers to nothing.
    pub fn null() -> (raw: MlirType)
        ensures
            raw.is_null(),
            raw.ptr == 0,
    {
        MlirType { ptr: 0 }
    }

    pub open spec fn spec_is_null(&self) -> bool {
        self.ptr == 0
    }

    /// Whether the handle refers to nothing.
    #[verifier::when_used_as_spec(spec_is_null)]
    pub fn is_null(&self) -> (b: bool)
        ensures
            b == self.is_null(),
    {
        self.ptr == 0
    }
}

/// The raw handle of a value.
#[derive(Clone, Copy, Debug, PartialEq, Eq, Hash, Structural)]
pub struct MlirValue {
    pub ptr: usize,
}

impl MlirValue {
    /// The handle that refers to nothing.
    pub fn null() -> (raw: MlirValue)
        ensures
            raw.is_null(),
            raw.ptr == 0,
    {
        MlirValue { ptr: 0 }
    }

    pub open spec fn spec_is_null(&self) -> bool {
        self.ptr == 0
    }

    /// Whether the handle refers to nothing.
    #[verifier::when_used_as_spec(spec_is_null)]
    pub fn is_null(&self) -> (b: bool)
        ensures
            b == self.is_null(),
    {
        self.ptr == 0
    }
}

/// A name paired with an attribute, as the C interface lays it out.
#[derive(Clone, Copy, Debug, PartialEq, Eq, Hash, Structural)]
pub struct MlirNamedAttribute {
    pub name: MlirIdentifier,
    pub attribute: MlirAttribute,
}

/// One field of a hardware struct type, as the C interface lays it out.
#[derive(Clone, Copy, Debug, PartialEq, Eq, Hash, Structural)]
pub struct HWStructFieldInfo {
    pub name: MlirIdentifier,
    pub ty: MlirType,
}

/// A view of bytes owned by someone else: the safe rendering of a
/// (pointer, length) pair. The bytes carry no terminator and need not be
/// valid UTF-8.
#[derive(Clone, Copy, Debug)]
pub struct MlirStringRef<'a> {
    pub data: &'a [u8],
}

impl<'a> View for MlirStringRef<'a> {
    type V = Seq<u8>;

    open spec fn view(&self) -> Seq<u8> {
        self.data@
    }
}

impl<'a> MlirStringRef<'a> {
    /// The number of bytes in view.
    pub fn length(&self) -> (n: usize)
        ensures
            n == self@.len(),
    {
        self.data.len()
    }
}

} // verus!
