//! The foreign interface, described as data.
//!
//! Verified code never reaches into the C library itself. It describes each
//! foreign call as a [`Call`], hands it to a dispatcher supplied by the
//! embedder, and interprets the [`Reply`] that comes back. The dispatcher is
//! any function from calls to replies; nothing is assumed of it beyond
//! accepting every call, so each contract in this crate is stated relative to
//! what the dispatcher actually answered.

use vstd::prelude::*;
use crate::raw::{
    HWStructFieldInfo, MlirAttribute, MlirBlock, MlirContext, MlirDialect, MlirDialectHandle,
    MlirDialectRegistry, MlirIdentifier, MlirLocation, MlirModule, MlirNamedAttribute,
    MlirOperation, MlirRegion, MlirStringRef, MlirSymbolTable, MlirType, MlirValue,
};

verus! {

/// The concrete kinds an attribute can be asked about.
#[derive(Clone, Copy, Debug, PartialEq, Eq, Structural)]
pub enum AttributeKind {
    AffineMap,
    Array,
    Bool,
    Dictionary,
    FlatSymbolRef,
    Float,
    Integer,
    IntegerSet,
    Opaque,
    String,
    SymbolRef,
    Unit,
}

/// The hardware-dialect kinds a type can be asked about.
#[derive(Clone, Copy, Debug, PartialEq, Eq, Structural)]
pub enum HwTypeKind {
    Array,
    InOut,
    Int,
    Struct,
    TypeAlias,
    Value,
}

/// How a call must reach the process-wide context.
#[derive(Clone, Copy, Debug, PartialEq, Eq, Structural)]
pub enum Access {
    /// The call does not take the process-wide context.
    Direct,
    /// The call takes the context and the foreign library synchronizes it
    /// internally: any number of threads may make it at once.
    Shared,
    /// The call takes the context and the foreign library does not
    /// synchronize it: it must run under the context's lock.
    Exclusive,
}

/// One call into the C interface, with its arguments as plain data.
///
/// Calls that work on the process-wide context do not name it: the
/// dispatcher supplies it, in the manner [`Call::access`] prescribes.
#[allow(inconsistent_fields)]
#[derive(Clone, Copy, Debug)]
pub enum Call<'a> {
    AttributeEqual { a: MlirAttribute, b: MlirAttribute },
    AttributePrint { attr: MlirAttribute },
    AttributeIsA { kind: AttributeKind, attr: MlirAttribute },
    ArrayAttrGet { elements: &'a [MlirAttribute] },
    DictionaryAttrGet { elements: &'a [MlirNamedAttribute] },
    FlatSymbolRefAttrGet { symbol: MlirStringRef<'a> },
    FlatSymbolRefAttrGetValue { attr: MlirAttribute },
    StringAttrGet { value: MlirStringRef<'a> },
    TypeAttrGet { ty: MlirType },
    BlockCreate { args: &'a [MlirType], locs: &'a [MlirLocation] },
    BlockDestroy { block: MlirBlock },
    BlockEqual { a: MlirBlock, b: MlirBlock },
    BlockAddArgument { block: MlirBlock, ty: MlirType, loc: MlirLocation },
    BlockGetTerminator { block: MlirBlock },
    BlockGetParentOperation { block: MlirBlock },
    BlockDetach { block: MlirBlock },
    BlockGetNextInRegion { block: MlirBlock },
    ContextCreate,
    ContextDestroy { context: MlirContext },
    ContextEqual { a: MlirContext, b: MlirContext },
    ContextAppendDialectRegistry { context: MlirContext, registry: MlirDialectRegistry },
    DialectEqual { a: MlirDialect, b: MlirDialect },
    DialectGetNamespace { dialect: MlirDialect },
    DialectHandleGetNamespace { handle: MlirDialectHandle },
    DialectHandleRegisterDialect { handle: MlirDialectHandle },
    DialectHandleLoadDialect { handle: MlirDialectHandle },
    DialectRegistryCreate,
    DialectRegistryDestroy { registry: MlirDialectRegistry },
    IdentifierGet { name: MlirStringRef<'a> },
    IdentifierStr { ident: MlirIdentifier },
    LocationEqual { a: MlirLocation, b: MlirLocation },
    LocationPrint { location: MlirLocation },
    LocationCallSiteGet { callee: MlirLocation, caller: MlirLocation },
    LocationFileLineColGet { filename: MlirStringRef<'a>, line: u32, col: u32 },
    LocationFusedGet { locations: &'a [MlirLocation], metadata: MlirAttribute },
    LocationUnknownGet,
    ModuleCreateEmpty { location: MlirLocation },
    ModuleCreateParse { module: MlirStringRef<'a> },
    ModuleGetBody { module: MlirModule },
    ModuleDestroy { module: MlirModule },
    OperationCreate {
        name: MlirStringRef<'a>,
        location: MlirLocation,
        results: &'a [MlirType],
        operands: &'a [MlirValue],
        regions: &'a [MlirRegion],
        attributes: &'a [MlirNamedAttribute],
    },
    OperationDestroy { operation: MlirOperation },
    OperationEqual { a: MlirOperation, b: MlirOperation },
    OperationPrint { operation: MlirOperation },
    RegionCreate,
    RegionDestroy { region: MlirRegion },
    RegionEqual { a: MlirRegion, b: MlirRegion },
    RegionAppendOwnedBlock { region: MlirRegion, block: MlirBlock },
    RegionGetFirstBlock { region: MlirRegion },
    RegionInsertOwnedBlockBefore { region: MlirRegion, reference: MlirBlock, block: MlirBlock },
    RegionInsertOwnedBlockAfter { region: MlirRegion, reference: MlirBlock, block: MlirBlock },
    SymbolTableGetSymbolAttributeName,
    SymbolTableGetVisibilityAttributeName,
    SymbolTableDestroy { table: MlirSymbolTable },
    TypeEqual { a: MlirType, b: MlirType },
    TypePrint { ty: MlirType },
    TypeIsAFunction { ty: MlirType },
    FunctionTypeGet { inputs: &'a [MlirType], results: &'a [MlirType] },
    ValueEqual { a: MlirValue, b: MlirValue },
    HwTypeIsA { kind: HwTypeKind, ty: MlirType },
    HwStructTypeGet { fields: &'a [HWStructFieldInfo] },
    HwInOutTypeGet { element: MlirType },
}

/// What a foreign call handed back.
#[derive(Debug)]
pub enum Reply<'r> {
    /// The call returns nothing.
    Done,
    Flag(bool),
    /// A view of text that the foreign library owns.
    Text(MlirStringRef<'r>),
    /// The chunks a foreign printer streamed, in order, each copied out of
    /// the buffer it was delivered in.
    Printed(Vec<Vec<u8>>),
    Attribute(MlirAttribute),
    Block(MlirBlock),
    Context(MlirContext),
    Dialect(MlirDialect),
    DialectRegistry(MlirDialectRegistry),
    Identifier(MlirIdentifier),
    Location(MlirLocation),
    Module(MlirModule),
    Operation(MlirOperation),
    Region(MlirRegion),
    Type(MlirType),
    Value(MlirValue),
}

/// The views of the chunks.
pub open spec fn chunk_views(chunks: Seq<Vec<u8>>) -> Seq<Seq<u8>> {
    chunks.map_values(|c: Vec<u8>| c@)
}

/// The dispatcher accepts every call.
pub open spec fn serves<'r, F: Fn(Call<'_>) -> Reply<'r>>(ffi: &F) -> bool {
    forall|call: Call<'_>| ffi.requires((call,))
}

/// `reply` is an answer the dispatcher may give to `call`.
pub open spec fn replied<'r, F: Fn(Call<'_>) -> Reply<'r>>(
    ffi: &F,
    call: Call<'_>,
    reply: Reply<'r>,
) -> bool {
    ffi.ensures((call,), reply)
}

/// Makes one foreign call through the dispatcher.
pub fn ask<'r, F: Fn(Call<'_>) -> Reply<'r>>(ffi: &F, call: Call<'_>) -> (reply: Reply<'r>)
    requires
        serves(ffi),
    ensures
        replied(ffi, call, reply),
{
    ffi(call)
}

impl<'a> Call<'a> {
    pub open spec fn spec_access(&self) -> Access {
        match *self {
            Call::DialectHandleRegisterDialect { .. }
            | Call::DialectHandleLoadDialect { .. }
            | Call::ModuleCreateParse { .. } => Access::Exclusive,
            Call::ArrayAttrGet { .. }
            | Call::DictionaryAttrGet { .. }
            | Call::FlatSymbolRefAttrGet { .. }
            | Call::StringAttrGet { .. }
            | Call::TypeAttrGet { .. }
            | Call::IdentifierGet { .. }
            | Call::LocationFileLineColGet { .. }
            | Call::LocationFusedGet { .. }
            | Call::LocationUnknownGet
            | Call::FunctionTypeGet { .. }
            | Call::HwStructTypeGet { .. }
            | Call::HwInOutTypeGet { .. } => Access::Shared,
            _ => Access::Direct,
        }
    }

    /// The discipline under which this call must reach the process-wide
    /// context. Registering and loading dialects and parsing modules are not
    /// synchronized by the foreign library and need the lock; creating
    /// uniqued values is synchronized internally; everything else works on
    /// the handles it is given and takes no context.
    #[verifier::when_used_as_spec(spec_access)]
    pub fn access(&self) -> (access: Access)
        ensures
            access == self.access(),
    {
        match *self {
            Call::DialectHandleRegisterDialect { .. }
            | Call::DialectHandleLoadDialect { .. }
            | Call::ModuleCreateParse { .. } => Access::Exclusive,
            Call::ArrayAttrGet { .. }
            | Call::DictionaryAttrGet { .. }
            | Call::FlatSymbolRefAttrGet { .. }
            | Call::StringAttrGet { .. }
            | Call::TypeAttrGet { .. }
            | Call::IdentifierGet { .. }
            | Call::LocationFileLineColGet { .. }
            | Call::LocationFusedGet { .. }
            | Call::LocationUnknownGet
            | Call::FunctionTypeGet { .. }
            | Call::HwStructTypeGet { .. }
            | Call::HwInOutTypeGet { .. } => Access::Shared,
            _ => Access::Direct,
        }
    }
}

impl<'r> Reply<'r> {
    /// The flag the reply carries; `false` for any other reply.
    pub open spec fn spec_flag(&self) -> bool {
        *self matches Reply::Flag(b) && b
    }

    /// The flag the reply carries; `false` for any other reply.
    #[verifier::when_used_as_spec(spec_flag)]
    pub fn flag(&self) -> (b: bool)
        ensures
            b == self.flag(),
    {
        match self {
            Reply::Flag(b) => *b,
            _ => false,
        }
    }

    /// The chunks a printer streamed, in order; none for any other reply.
    pub open spec fn printed(&self) -> Seq<Seq<u8>> {
        match *self {
            Reply::Printed(chunks) => chunk_views(chunks@),
            _ => Seq::empty(),
        }
    }

    /// The text the reply carries, if it carries text.
    pub open spec fn spec_text(&self) -> Option<MlirStringRef<'r>> {
        match *self {
            Reply::Text(s) => Some(s),
            _ => None,
        }
    }

    /// The text the reply carries, if it carries text.
    #[verifier::when_used_as_spec(spec_text)]
    pub fn text(&self) -> (s: Option<MlirStringRef<'r>>)
        ensures
            s == self.text(),
    {
        match self {
            Reply::Text(s) => Some(*s),
            _ => None,
        }
    }

    /// The attribute handle the reply carries; the null handle for any other
    /// reply.
    pub open spec fn spec_attribute(&self) -> MlirAttribute {
        match *self {
            Reply::Attribute(raw) => raw,
            _ => MlirAttribute { ptr: 0 },
        }
    }

    /// The attribute handle the reply carries; the null handle for any other
    /// reply.
    #[verifier::when_used_as_spec(spec_attribute)]
    pub fn attribute(&self) -> (raw: MlirAttribute)
        ensures
            raw == self.attribute(),
    {
        match self {
            Reply::Attribute(raw) => *raw,
            _ => MlirAttribute::null(),
        }
    }

    /// The block handle the reply carries; the null handle for any other
    /// reply.
    pub open spec fn spec_block(&self) -> MlirBlock {
        match *self {
            Reply::Block(raw) => raw,
            _ => MlirBlock { ptr: 0 },
        }
    }

    /// The block handle the reply carries; the null handle for any other
    /// reply.
    #[verifier::when_used_as_spec(spec_block)]
    pub fn block(&self) -> (raw: MlirBlock)
        ensures
            raw == self.block(),
    {
        match self {
            Reply::Block(raw) => *raw,
            _ => MlirBlock::null(),
        }
    }

    /// The context handle the reply carries; the null handle for any other
    /// reply.
    pub open spec fn spec_context(&self) -> MlirContext {
        match *self {
            Reply::Context(raw) => raw,
            _ => MlirContext { ptr: 0 },
        }
    }

    /// The context handle the reply carries; the null handle for any other
    /// reply.
    #[verifier::when_used_as_spec(spec_context)]
    pub fn context(&self) -> (raw: MlirContext)
        ensures
            raw == self.context(),
    {
        match self {
            Reply::Context(raw) => *raw,
            _ => MlirContext::null(),
        }
    }

    /// The dialect handle the reply carries; the null handle for any other
    /// reply.
    pub open spec fn spec_dialect(&self) -> MlirDialect {
        match *self {
            Reply::Dialect(raw) => raw,
            _ => MlirDialect { ptr: 0 },
        }
    }

    /// The dialect handle the reply carries; the null handle for any other
    /// reply.
    #[verifier::when_used_as_spec(spec_dialect)]
    pub fn dialect(&self) -> (raw: MlirDialect)
        ensures
            raw == self.dialect(),
    {
        match self {
            Reply::Dialect(raw) => *raw,
            _ => MlirDialect::null(),
        }
    }

    /// The dialect registry handle the reply carries; the null handle for any other
    /// reply.
    pub open spec fn spec_dialect_registry(&self) -> MlirDialectRegistry {
        match *self {
            Reply::DialectRegistry(raw) => raw,
            _ => MlirDialectRegistry { ptr: 0 },
        }
    }

    /// The dialect registry handle the reply carries; the null handle for any other
    /// reply.
    #[verifier::when_used_as_spec(spec_dialect_registry)]
    pub fn dialect_registry(&self) -> (raw: MlirDialectRegistry)
        ensures
            raw == self.dialect_registry(),
    {
        match self {
            Reply::DialectRegistry(raw) => *raw,
            _ => MlirDialectRegistry::null(),
        }
    }

    /// The identifier handle the reply carries; the null handle for any other
    /// reply.
    pub open spec fn spec_identifier(&self) -> MlirIdentifier {
        match *self {
            Reply::Identifier(raw) => raw,
            _ => MlirIdentifier { ptr: 0 },
        }
    }

    /// The identifier handle the reply carries; the null handle for any other
    /// reply.
    #[verifier::when_used_as_spec(spec_identifier)]
    pub fn identifier(&self) -> (raw: MlirIdentifier)
        ensures
            raw == self.identifier(),
    {
        match self {
            Reply::Identifier(raw) => *raw,
            _ => MlirIdentifier::null(),
        }
    }

    /// The location handle the reply carries; the null handle for any other
    /// reply.
    pub open spec fn spec_location(&self) -> MlirLocation {
        match *self {
            Reply::Location(raw) => raw,
            _ => MlirLocation { ptr: 0 },
        }
    }

    /// The location handle the reply carries; the null handle for any other
    /// reply.
    #[verifier::when_used_as_spec(spec_location)]
    pub fn location(&self) -> (raw: MlirLocation)
        ensures
            raw == self.location(),
    {
        match self {
            Reply::Location(raw) => *raw,
            _ => MlirLocation::null(),
        }
    }

    /// The module handle the reply carries; the null handle for any other
    /// reply.
    pub open spec fn spec_module(&self) -> MlirModule {
        match *self {
            Reply::Module(raw) => raw,
            _ => MlirModule { ptr: 0 },
        }
    }

    /// The module handle the reply carries; the null handle for any other
    /// reply.
    #[verifier::when_used_as_spec(spec_module)]
    pub fn module(&self) -> (raw: MlirModule)
        ensures
            raw == self.module(),
    {
        match self {
            Reply::Module(raw) => *raw,
            _ => MlirModule::null(),
        }
    }

    /// The operation handle the reply carries; the null handle for any other
    /// reply.
    pub open spec fn spec_operation(&self) -> MlirOperation {
        match *self {
            Reply::Operation(raw) => raw,
            _ => MlirOperation { ptr: 0 },
        }
    }

    /// The operation handle the reply carries; the null handle for any other
    /// reply.
    #[verifier::when_used_as_spec(spec_operation)]
    pub fn operation(&self) -> (raw: MlirOperation)
        ensures
            raw == self.operation(),
    {
        match self {
            Reply::Operation(raw) => *raw,
            _ => MlirOperation::null(),
        }
    }

    /// The region handle the reply carries; the null handle for any other
    /// reply.
    pub open spec fn spec_region(&self) -> MlirRegion {
        match *self {
            Reply::Region(raw) => raw,
            _ => MlirRegion { ptr: 0 },
        }
    }

    /// The region handle the reply carries; the null handle for any other
    /// reply.
    #[verifier::when_used_as_spec(spec_region)]
    pub fn region(&self) -> (raw: MlirRegion)
        ensures
            raw == self.region(),
    {
        match self {
            Reply::Region(raw) => *raw,
            _ => MlirRegion::null(),
        }
    }

    /// The type handle the reply carries; the null handle for any other
    /// reply.
    pub open spec fn spec_ty(&self) -> MlirType {
        match *self {
            Reply::Type(raw) => raw,
            _ => MlirType { ptr: 0 },
        }
    }

    /// The type handle the reply carries; the null handle for any other
    /// reply.
    #[verifier::when_used_as_spec(spec_ty)]
    pub fn ty(&self) -> (raw: MlirType)
        ensures
            raw == self.ty(),
    {
        match self {
            Reply::Type(raw) => *raw,
            _ => MlirType::null(),
        }
    }

    /// The value handle the reply carries; the null handle for any other
    /// reply.
    pub open spec fn spec_value(&self) -> MlirValue {
        match *self {
            Reply::Value(raw) => raw,
            _ => MlirValue { ptr: 0 },
        }
    }

    /// The value handle the reply carries; the null handle for any other
    /// reply.
    #[verifier::when_used_as_spec(spec_value)]
    pub fn value(&self) -> (raw: MlirValue)
        ensures
            raw == self.value(),
    {
        match self {
            Reply::Value(raw) => *raw,
            _ => MlirValue::null(),
        }
    }
}

} // verus!
