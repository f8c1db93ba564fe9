//! The hardware dialect: its type predicates, struct types, and the
//! assembly of a hardware module from its ports.

use vstd::prelude::*;
use vstd::utf8::*;
use itertools::Itertools;
use crate::attr::{
    ArrayAttr, DictionaryAttr, FlatSymbolRefAttr, TypeAttr, FUNCTION_ARG_DICT_ATTR_NAME,
    FUNCTION_RESULT_DICT_ATTR_NAME, FUNCTION_TYPE_ATTR_NAME,
};
use crate::attribute::{attribute_handles, named_attribute_handles, Attribute, NamedAttribute};
use crate::block::Block;
use crate::foreign::{ask, replied, serves, Call, HwTypeKind, Reply};
use crate::identifier::Identifier;
use crate::location::{location_handles, Location};
use crate::operation::{describes, Operation, OperationState, OperationStateView};
use crate::raw::{
    HWStructFieldInfo, MlirAttribute, MlirBlock, MlirIdentifier, MlirLocation,
    MlirNamedAttribute, MlirOperation, MlirRegion, MlirType,
};
use crate::region::Region;
use crate::string_ref::{without_terminator, StringRef};
use crate::symbol_table::SymbolTable;
use crate::ty::{type_handles, FunctionType, Type};

verus! {

/// What the hardware dialect can tell of a type.
pub trait TypeExt {
    /// The type asked about.
    spec fn asked(&self) -> MlirType;

    /// Whether the type is of the given hardware kind.
    fn is_hw<'r, F: Fn(Call<'_>) -> Reply<'r>>(&self, kind: HwTypeKind, ffi: &F) -> (yes: bool)
        requires
            serves(ffi),
        ensures
            exists|reply: Reply<'r>| #[trigger]
                replied(ffi, Call::HwTypeIsA { kind, ty: self.asked() }, reply) && yes
                    == reply.flag(),
    ;

    /// Whether the type is a hardware array type.
    fn is_hw_array_type<'r, F: Fn(Call<'_>) -> Reply<'r>>(&self, ffi: &F) -> (yes: bool)
        requires
            serves(ffi),
        ensures
            exists|reply: Reply<'r>| #[trigger]
                replied(ffi, Call::HwTypeIsA { kind: HwTypeKind::Array, ty: self.asked() }, reply)
                    && yes == reply.flag(),
    {
        self.is_hw(HwTypeKind::Array, ffi)
    }

    /// Whether the type is an inout type.
    fn is_hw_inout<'r, F: Fn(Call<'_>) -> Reply<'r>>(&self, ffi: &F) -> (yes: bool)
        requires
            serves(ffi),
        ensures
            exists|reply: Reply<'r>| #[trigger]
                replied(ffi, Call::HwTypeIsA { kind: HwTypeKind::InOut, ty: self.asked() }, reply)
                    && yes == reply.flag(),
    {
        self.is_hw(HwTypeKind::InOut, ffi)
    }

    /// Whether the type is a hardware integer type.
    fn is_hw_int_type<'r, F: Fn(Call<'_>) -> Reply<'r>>(&self, ffi: &F) -> (yes: bool)
        requires
            serves(ffi),
        ensures
            exists|reply: Reply<'r>| #[trigger]
                replied(ffi, Call::HwTypeIsA { kind: HwTypeKind::Int, ty: self.asked() }, reply)
                    && yes == reply.flag(),
    {
        self.is_hw(HwTypeKind::Int, ffi)
    }

    /// Whether the type is a hardware struct type.
    fn is_hw_struct_type<'r, F: Fn(Call<'_>) -> Reply<'r>>(&self, ffi: &F) -> (yes: bool)
        requires
            serves(ffi),
        ensures
            exists|reply: Reply<'r>| #[trigger]
                replied(ffi, Call::HwTypeIsA { kind: HwTypeKind::Struct, ty: self.asked() }, reply)
                    && yes == reply.flag(),
    {
        self.is_hw(HwTypeKind::Struct, ffi)
    }

    /// Whether the type is a hardware type alias.
    fn is_hw_type_alias_type<'r, F: Fn(Call<'_>) -> Reply<'r>>(&self, ffi: &F) -> (yes: bool)
        requires
            serves(ffi),
        ensures
            exists|reply: Reply<'r>| #[trigger]
                replied(
                    ffi,
                    Call::HwTypeIsA { kind: HwTypeKind::TypeAlias, ty: self.asked() },
                    reply,
                ) && yes == reply.flag(),
    {
        self.is_hw(HwTypeKind::TypeAlias, ffi)
    }

    /// Whether the type is one that a hardware value can have.
    fn is_hw_value_type<'r, F: Fn(Call<'_>) -> Reply<'r>>(&self, ffi: &F) -> (yes: bool)
        requires
            serves(ffi),
        ensures
            exists|reply: Reply<'r>| #[trigger]
                replied(ffi, Call::HwTypeIsA { kind: HwTypeKind::Value, ty: self.asked() }, reply)
                    && yes == reply.flag(),
    {
        self.is_hw(HwTypeKind::Value, ffi)
    }
}

impl TypeExt for Type {
    open spec fn asked(&self) -> MlirType {
        self@
    }

    fn is_hw<'r, F: Fn(Call<'_>) -> Reply<'r>>(&self, kind: HwTypeKind, ffi: &F) -> (yes: bool) {
        let reply = ask(ffi, Call::HwTypeIsA { kind, ty: self.as_raw() });
        reply.flag()
    }
}

/// One field of a struct type: its name and its type.
#[derive(Clone, Copy, Debug)]
pub struct StructFieldInfo {
    pub name: Identifier,
    pub ty: Type,
}

impl View for StructFieldInfo {
    type V = HWStructFieldInfo;

    open spec fn view(&self) -> HWStructFieldInfo {
        HWStructFieldInfo { name: self.name@, ty: self.ty@ }
    }
}

/// The fields as the foreign interface lays them out, in order.
pub open spec fn field_handles(fields: Seq<StructFieldInfo>) -> Seq<HWStructFieldInfo> {
    fields.map_values(|f: StructFieldInfo| f@)
}

/// Lays `fields` out as the foreign interface takes them.
pub fn raw_fields(fields: &[StructFieldInfo]) -> (raws: Vec<HWStructFieldInfo>)
    ensures
        raws@ == field_handles(fields@),
{
    let mut raws: Vec<HWStructFieldInfo> = Vec::new();
    let mut i: usize = 0;
    while i < fields.len()
        invariant
            i <= fields.len(),
            raws@ == field_handles(fields@.take(i as int)),
        decreases fields.len() - i,
    {
        raws.push(HWStructFieldInfo { name: fields[i].name.as_raw(), ty: fields[i].ty.as_raw() });
        assert(field_handles(fields@.take(i + 1)) =~= field_handles(fields@.take(i as int)).push(
            fields@[i as int]@,
        ));
        i += 1;
    }
    assert(fields@.take(i as int) =~= fields@);
    raws
}

/// The struct type with the given fields, in order; `None` if the foreign
/// library returns none.
pub fn struct_ty<'r, F: Fn(Call<'_>) -> Reply<'r>>(elements: &[StructFieldInfo], ffi: &F) -> (ty:
    Option<Type>)
    requires
        serves(ffi),
    ensures
        exists|call: Call<'_>, reply: Reply<'r>| #[trigger]
            replied(ffi, call, reply) && (call matches Call::HwStructTypeGet { fields }
                && fields@ == field_handles(elements@)) && Type::wraps(ty, reply.ty()),
{
    let raws = raw_fields(elements);
    let reply = ask(ffi, Call::HwStructTypeGet { fields: raws.as_slice() });
    Type::from_raw(reply.ty())
}

/// The direction of a module port.
#[derive(Clone, Copy, Debug, PartialEq, Eq, Structural)]
pub enum PortDirection {
    Input,
    Output,
    InOut,
}

/// The name, direction and type of one port, and the symbol it is exported
/// under if it is exported.
#[derive(Clone, Copy, Debug)]
pub struct PortInfo {
    pub name: Identifier,
    pub direction: PortDirection,
    pub ty: Type,
    pub sym: Option<Identifier>,
}

/// The ports of a module.
#[derive(Debug)]
pub struct ModulePortInfo {
    pub inputs: Vec<PortInfo>,
    pub outputs: Vec<PortInfo>,
}

impl Default for ModulePortInfo {
    fn default() -> (ports: ModulePortInfo)
        ensures
            ports.inputs@.len() == 0,
            ports.outputs@.len() == 0,
    {
        ModulePortInfo { inputs: Vec::new(), outputs: Vec::new() }
    }
}

/// The bytes that text is handed to the foreign interface as.
pub open spec fn bytes_of(text: &str) -> Seq<u8> {
    without_terminator(encode_utf8(text@))
}

/// `ident` is what interning `name` came to: the identifier the dispatcher
/// answered with, or nothing if it answered with none.
pub open spec fn interned<'r, F: Fn(Call<'_>) -> Reply<'r>>(
    ffi: &F,
    name: Seq<u8>,
    ident: Option<Identifier>,
) -> bool {
    exists|call: Call<'_>, reply: Reply<'r>| #[trigger]
        replied(ffi, call, reply) && (call matches Call::IdentifierGet { name: n } && n@ == name)
            && Identifier::wraps(ident, reply.identifier())
}

/// `attr` is what making the dictionary attribute of `entries` came to.
pub open spec fn dictionary_made<'r, F: Fn(Call<'_>) -> Reply<'r>>(
    ffi: &F,
    entries: Seq<MlirNamedAttribute>,
    attr: Option<MlirAttribute>,
) -> bool {
    exists|call: Call<'_>, reply: Reply<'r>| #[trigger]
        replied(ffi, call, reply) && (call matches Call::DictionaryAttrGet { elements: e } && e@
            == entries) && attr == live(reply.attribute())
}

/// The handle if it is not null.
pub open spec fn live(raw: MlirAttribute) -> Option<MlirAttribute> {
    if raw.is_null() {
        None
    } else {
        Some(raw)
    }
}

/// `entry` is what exporting a port under the symbol `sym` came to: the
/// entry that names the symbol under `hw.exportPort`, or nothing if one of
/// the three steps that lead to it came to nothing. The steps are: reading
/// the text of `sym`, making the reference to the symbol of that text, and
/// interning the name of the entry.
pub open spec fn exported<'r, F: Fn(Call<'_>) -> Reply<'r>>(
    ffi: &F,
    sym: MlirIdentifier,
    entry: Option<MlirNamedAttribute>,
) -> bool {
    exists|text: Reply<'r>| #[trigger]
        replied(ffi, Call::IdentifierStr { ident: sym }, text) && match text.text() {
            None => entry is None,
            Some(t) => exists|call: Call<'_>, reference: Reply<'r>| #[trigger]
                replied(ffi, call, reference) && (call matches Call::FlatSymbolRefAttrGet {
                    symbol: s,
                } && s@ == t@) && if reference.attribute().is_null() {
                    entry is None
                } else {
                    exists|name: Option<Identifier>| #[trigger]
                        interned(ffi, bytes_of("hw.exportPort"), name) && entry == match name {
                            Some(n) => Some(
                                MlirNamedAttribute {
                                    name: n@,
                                    attribute: reference.attribute(),
                                },
                            ),
                            None => None,
                        }
                },
        }
}

/// The entry that exports a port under the symbol `sym`.
pub fn export_port<'r, F: Fn(Call<'_>) -> Reply<'r>>(sym: Identifier, ffi: &F) -> (entry: Option<
    NamedAttribute,
>)
    requires
        serves(ffi),
    ensures
        exported(
            ffi,
            sym@,
            match entry {
                Some(e) => Some(e@),
                None => None,
            },
        ),
{
    let text = match sym.value(ffi) {
        Some(text) => text,
        None => { return None; },
    };
    let reference = match FlatSymbolRefAttr::new(text, ffi) {
        Some(reference) => reference,
        None => { return None; },
    };
    let name = Identifier::get(StringRef::new("hw.exportPort"), ffi);
    assert(interned(ffi, bytes_of("hw.exportPort"), name));
    match name {
        Some(name) => Some(NamedAttribute::get(name, reference.to_attribute())),
        None => None,
    }
}

/// `wrapped` is what wrapping the type of a port came to: the type itself
/// unless the port is an inout port whose type is not an inout type yet,
/// and then the inout type of it, or nothing if the foreign library
/// returns none.
pub open spec fn inout_wrapped<'r, F: Fn(Call<'_>) -> Reply<'r>>(
    ffi: &F,
    port: PortInfo,
    wrapped: Option<MlirType>,
) -> bool {
    if port.direction == PortDirection::InOut {
        exists|is_inout: Reply<'r>| #[trigger]
            replied(ffi, Call::HwTypeIsA { kind: HwTypeKind::InOut, ty: port.ty@ }, is_inout)
                && if is_inout.flag() {
                wrapped == Some(port.ty@)
            } else {
                exists|made: Reply<'r>| #[trigger]
                    replied(ffi, Call::HwInOutTypeGet { element: port.ty@ }, made) && wrapped
                        == if made.ty().is_null() {
                        None
                    } else {
                        Some(made.ty())
                    }
            }
    } else {
        wrapped == Some(port.ty@)
    }
}

/// The type a port has as an argument of its module: the type of the port,
/// wrapped in an inout type if the port is an inout port and its type is
/// not an inout type already.
pub fn wrap_inout<'r, F: Fn(Call<'_>) -> Reply<'r>>(port: &PortInfo, ffi: &F) -> (wrapped: Option<
    Type,
>)
    requires
        serves(ffi),
    ensures
        inout_wrapped(
            ffi,
            *port,
            match wrapped {
                Some(t) => Some(t@),
                None => None,
            },
        ),
{
    if port.direction == PortDirection::InOut && !port.ty.is_hw_inout(ffi) {
        let made = ask(ffi, Call::HwInOutTypeGet { element: port.ty.as_raw() });
        Type::from_raw(made.ty())
    } else {
        let _ = port.ty.as_raw();
        Some(port.ty)
    }
}

/// `attrs` is what making the attributes of a port came to: the dictionary
/// with the one entry that exports the port if it has a symbol, the empty
/// dictionary if it has none, or nothing if a step came to nothing.
pub open spec fn port_attrs_made<'r, F: Fn(Call<'_>) -> Reply<'r>>(
    ffi: &F,
    port: PortInfo,
    attrs: Option<MlirAttribute>,
) -> bool {
    match port.sym {
        Some(sym) => exists|entry: Option<MlirNamedAttribute>| #[trigger]
            exported(ffi, sym@, entry) && match entry {
                Some(e) => dictionary_made(ffi, seq![e], attrs),
                None => attrs is None,
            },
        None => dictionary_made(ffi, Seq::empty(), attrs),
    }
}

/// The attributes of a port, as one dictionary attribute.
pub fn port_attrs<'r, F: Fn(Call<'_>) -> Reply<'r>>(port: &PortInfo, ffi: &F) -> (attrs: Option<
    Attribute,
>)
    requires
        serves(ffi),
    ensures
        port_attrs_made(
            ffi,
            *port,
            match attrs {
                Some(a) => Some(a@),
                None => None,
            },
        ),
{
    let made = match port.sym {
        Some(sym) => {
            match export_port(sym, ffi) {
                Some(entry) => {
                    let entries = [entry];
                    assert(named_attribute_handles(entries@) =~= seq![entry@]);
                    let made = DictionaryAttr::create(entries.as_slice(), ffi);
                    assert(dictionary_made(
                        ffi,
                        seq![entry@],
                        match made {
                            Some(d) => Some(d@),
                            None => None,
                        },
                    ));
                    made
                },
                None => { return None; },
            }
        },
        None => {
            let entries: [NamedAttribute; 0] = [];
            assert(named_attribute_handles(entries@) =~= Seq::empty());
            let made = DictionaryAttr::create(entries.as_slice(), ffi);
            assert(dictionary_made(
                ffi,
                Seq::empty(),
                match made {
                    Some(d) => Some(d@),
                    None => None,
                },
            ));
            made
        },
    };
    match made {
        Some(d) => Some(d.to_attribute()),
        None => None,
    }
}

/// What a hardware module is built from: its name, its ports, its
/// parameters, a comment if it has one, and any further attributes.
pub struct ModuleOpInfo<'a> {
    pub name: StringRef<'a>,
    pub ports: ModulePortInfo,
    pub params: ArrayAttr,
    pub comment: Option<Identifier>,
    pub attrs: &'a [NamedAttribute],
}

/// A hardware module.
pub struct ModuleOp {
    op: Operation,
}

impl View for ModuleOp {
    type V = MlirOperation;

    closed spec fn view(&self) -> MlirOperation {
        self.op@
    }
}

/// `Itertools::multiunzip` on triples: three vectors that hold the first,
/// the second and the third components, each in the order of the triples.
#[verifier::external_body]
fn unzip3(triples: Vec<(Attribute, Type, Attribute)>) -> (parts: (
    Vec<Attribute>,
    Vec<Type>,
    Vec<Attribute>,
))
    ensures
        parts.0@ == triples@.map_values(|t: (Attribute, Type, Attribute)| t.0),
        parts.1@ == triples@.map_values(|t: (Attribute, Type, Attribute)| t.1),
        parts.2@ == triples@.map_values(|t: (Attribute, Type, Attribute)| t.2),
{
    triples.into_iter().multiunzip()
}

/// Everything the foreign library made on the way to a module, by handle.
pub struct ModuleParts {
    /// The unknown location, at which the module and its arguments are
    /// declared.
    pub location: MlirLocation,
    /// The names of the eight attributes every module has, in the order the
    /// attributes are added.
    pub names: Seq<MlirIdentifier>,
    /// The name of the module, as a string attribute.
    pub name: MlirAttribute,
    /// For each input port, the type it has as an argument.
    pub arg_types: Seq<MlirType>,
    /// For each input port, its attributes.
    pub arg_attrs: Seq<MlirAttribute>,
    /// For each output port, its attributes.
    pub result_attrs: Seq<MlirAttribute>,
    /// The type of the module as a function from inputs to outputs.
    pub function_type: MlirType,
    /// The attributes that hold the function type, the names of the
    /// arguments and results, and the attributes of the arguments and
    /// results.
    pub function_type_attr: MlirAttribute,
    pub arg_names_attr: MlirAttribute,
    pub result_names_attr: MlirAttribute,
    pub arg_attrs_attr: MlirAttribute,
    pub result_attrs_attr: MlirAttribute,
    /// The comment.
    pub comment: MlirIdentifier,
    /// The body of the module and its one block, which has an argument for
    /// each input port.
    pub region: MlirRegion,
    pub block: MlirBlock,
    /// The module.
    pub operation: MlirOperation,
}

/// The attribute handle that an identifier handle is.
pub open spec fn as_attribute(ident: MlirIdentifier) -> MlirAttribute {
    MlirAttribute { ptr: ident.ptr }
}

/// The names of `ports` as attributes, in order.
pub open spec fn port_names(ports: Seq<PortInfo>) -> Seq<MlirAttribute> {
    ports.map_values(|p: PortInfo| as_attribute(p.name@))
}

/// The types of `ports`, in order.
pub open spec fn port_types(ports: Seq<PortInfo>) -> Seq<MlirType> {
    ports.map_values(|p: PortInfo| p.ty@)
}

/// `ident` is the identifier that interning `name` gave.
pub open spec fn interned_as<'r, F: Fn(Call<'_>) -> Reply<'r>>(
    ffi: &F,
    name: Seq<u8>,
    ident: MlirIdentifier,
) -> bool {
    exists|call: Call<'_>, reply: Reply<'r>| #[trigger]
        replied(ffi, call, reply) && (call matches Call::IdentifierGet { name: n } && n@ == name)
            && reply.identifier() == ident && !ident.is_null()
}

/// `attr` is the array attribute that was made of `elements`.
pub open spec fn array_made<'r, F: Fn(Call<'_>) -> Reply<'r>>(
    ffi: &F,
    elements: Seq<MlirAttribute>,
    attr: MlirAttribute,
) -> bool {
    exists|call: Call<'_>, reply: Reply<'r>| #[trigger]
        replied(ffi, call, reply) && (call matches Call::ArrayAttrGet { elements: e } && e@
            == elements) && reply.attribute() == attr && !attr.is_null()
}

/// The attributes a module has: the eight that every module has, under
/// their names, and then the further ones.
pub open spec fn module_attributes(info: ModuleOpInfo<'_>, parts: ModuleParts) -> Seq<
    MlirNamedAttribute,
> {
    seq![
        MlirNamedAttribute { name: parts.names[0], attribute: parts.name },
        MlirNamedAttribute { name: parts.names[1], attribute: parts.function_type_attr },
        MlirNamedAttribute { name: parts.names[2], attribute: parts.arg_names_attr },
        MlirNamedAttribute { name: parts.names[3], attribute: parts.result_names_attr },
        MlirNamedAttribute { name: parts.names[4], attribute: parts.arg_attrs_attr },
        MlirNamedAttribute { name: parts.names[5], attribute: parts.result_attrs_attr },
        MlirNamedAttribute { name: parts.names[6], attribute: info.params@ },
        MlirNamedAttribute { name: parts.names[7], attribute: as_attribute(parts.comment) },
    ] + named_attribute_handles(info.attrs@)
}

/// The description that the module is made from.
pub open spec fn module_state(info: ModuleOpInfo<'_>, parts: ModuleParts) -> OperationStateView {
    OperationStateView {
        name: bytes_of("hw.module"),
        location: parts.location,
        results: Seq::empty(),
        operands: Seq::empty(),
        regions: seq![parts.region],
        attributes: module_attributes(info, parts),
    }
}

/// The names of the module's own attributes were interned, each from its
/// text; the first is the name the foreign library gives for the attribute
/// that holds the name of a symbol.
pub open spec fn names_made<'r, F: Fn(Call<'_>) -> Reply<'r>>(ffi: &F, parts: ModuleParts) -> bool {
    &&& parts.names.len() == 8
    &&& exists|reply: Reply<'r>| #[trigger]
        replied(ffi, Call::SymbolTableGetSymbolAttributeName, reply) && (reply.text() matches Some(
            t,
        ) && interned_as(ffi, t@, parts.names[0]))
    &&& interned_as(ffi, bytes_of(FUNCTION_TYPE_ATTR_NAME), parts.names[1])
    &&& interned_as(ffi, bytes_of("argNames"), parts.names[2])
    &&& interned_as(ffi, bytes_of("resultNames"), parts.names[3])
    &&& interned_as(ffi, bytes_of(FUNCTION_ARG_DICT_ATTR_NAME), parts.names[4])
    &&& interned_as(ffi, bytes_of(FUNCTION_RESULT_DICT_ATTR_NAME), parts.names[5])
    &&& interned_as(ffi, bytes_of("parameters"), parts.names[6])
    &&& interned_as(ffi, bytes_of("comment"), parts.names[7])
}

/// What was made for the ports: for each input its type as an argument and
/// its attributes, and for each output its attributes.
pub open spec fn ports_made<'r, F: Fn(Call<'_>) -> Reply<'r>>(
    ffi: &F,
    info: ModuleOpInfo<'_>,
    parts: ModuleParts,
) -> bool {
    let inputs = info.ports.inputs@;
    let outputs = info.ports.outputs@;
    &&& parts.arg_types.len() == inputs.len()
    &&& parts.arg_attrs.len() == inputs.len()
    &&& parts.result_attrs.len() == outputs.len()
    &&& forall|i: int|
        0 <= i < inputs.len() ==> #[trigger] inout_wrapped(
            ffi,
            inputs[i],
            Some(parts.arg_types[i]),
        )
    &&& forall|i: int|
        0 <= i < inputs.len() ==> #[trigger] port_attrs_made(
            ffi,
            inputs[i],
            Some(parts.arg_attrs[i]),
        )
    &&& forall|i: int|
        0 <= i < outputs.len() ==> #[trigger] port_attrs_made(
            ffi,
            outputs[i],
            Some(parts.result_attrs[i]),
        )
}

/// `ty` is the function type that was made of `inputs` and `results`.
pub open spec fn function_type_made<'r, F: Fn(Call<'_>) -> Reply<'r>>(
    ffi: &F,
    inputs: Seq<MlirType>,
    results: Seq<MlirType>,
    ty: MlirType,
) -> bool {
    exists|call: Call<'_>, reply: Reply<'r>| #[trigger]
        replied(ffi, call, reply) && (call matches Call::FunctionTypeGet { inputs: i, results: o }
            && i@ == inputs && o@ == results) && reply.ty() == ty && !ty.is_null()
}

/// `attr` is the attribute that was made to hold the type `ty`.
pub open spec fn type_attr_made<'r, F: Fn(Call<'_>) -> Reply<'r>>(
    ffi: &F,
    ty: MlirType,
    attr: MlirAttribute,
) -> bool {
    exists|reply: Reply<'r>| #[trigger]
        replied(ffi, Call::TypeAttrGet { ty }, reply) && reply.attribute() == attr
            && !attr.is_null()
}

/// The attributes of the module were made from the ports: its type as a
/// function, and the arrays of names and attributes.
pub open spec fn signature_made<'r, F: Fn(Call<'_>) -> Reply<'r>>(
    ffi: &F,
    info: ModuleOpInfo<'_>,
    parts: ModuleParts,
) -> bool {
    &&& function_type_made(
        ffi,
        parts.arg_types,
        port_types(info.ports.outputs@),
        parts.function_type,
    )
    &&& type_attr_made(ffi, parts.function_type, parts.function_type_attr)
    &&& array_made(ffi, port_names(info.ports.inputs@), parts.arg_names_attr)
    &&& array_made(ffi, port_names(info.ports.outputs@), parts.result_names_attr)
    &&& array_made(ffi, parts.arg_attrs, parts.arg_attrs_attr)
    &&& array_made(ffi, parts.result_attrs, parts.result_attrs_attr)
}

/// The locations of the arguments of the one block: `location`, once for
/// each of `n` arguments.
pub open spec fn argument_locations(n: nat, location: MlirLocation) -> Seq<MlirLocation> {
    Seq::new(n, |i: int| location)
}

/// The body of the module was made: a region, and in it one block that was
/// made with one argument for each input port, of the type of the port and
/// in the order of the ports.
pub open spec fn body_made<'r, F: Fn(Call<'_>) -> Reply<'r>>(
    ffi: &F,
    info: ModuleOpInfo<'_>,
    parts: ModuleParts,
) -> bool {
    &&& region_made(ffi, parts.region)
    &&& block_made(
        ffi,
        port_types(info.ports.inputs@),
        argument_locations(info.ports.inputs@.len(), parts.location),
        parts.block,
    )
    &&& block_appended(ffi, parts.region, parts.block)
}

/// `region` is the region that was made.
pub open spec fn region_made<'r, F: Fn(Call<'_>) -> Reply<'r>>(ffi: &F, region: MlirRegion) -> bool {
    exists|reply: Reply<'r>| #[trigger]
        replied(ffi, Call::RegionCreate, reply) && reply.region() == region && !region.is_null()
}

/// `block` is the block that was made with one argument for each of `args`,
/// in order, the i-th declared at the i-th of `locs`.
pub open spec fn block_made<'r, F: Fn(Call<'_>) -> Reply<'r>>(
    ffi: &F,
    args: Seq<MlirType>,
    locs: Seq<MlirLocation>,
    block: MlirBlock,
) -> bool {
    exists|call: Call<'_>, reply: Reply<'r>| #[trigger]
        replied(ffi, call, reply) && (call matches Call::BlockCreate { args: a, locs: l } && a@
            == args && l@ == locs) && reply.block() == block && !block.is_null()
}

/// `block` was appended to `region`.
pub open spec fn block_appended<'r, F: Fn(Call<'_>) -> Reply<'r>>(
    ffi: &F,
    region: MlirRegion,
    block: MlirBlock,
) -> bool {
    exists|reply: Reply<'r>| #[trigger]
        replied(ffi, Call::RegionAppendOwnedBlock { region, block }, reply)
}

/// `op` is the operation that was made from the description `state`.
pub open spec fn operation_made<'r, F: Fn(Call<'_>) -> Reply<'r>>(
    ffi: &F,
    state: OperationStateView,
    op: MlirOperation,
) -> bool {
    exists|call: Call<'_>, reply: Reply<'r>| #[trigger]
        replied(ffi, call, reply) && describes(call, state) && reply.operation() == op
            && !op.is_null()
}

/// The dispatcher was asked for the operation that `state` describes and
/// answered with none.
pub open spec fn operation_refused<'r, F: Fn(Call<'_>) -> Reply<'r>>(
    ffi: &F,
    state: OperationStateView,
) -> bool {
    exists|call: Call<'_>, reply: Reply<'r>| #[trigger]
        replied(ffi, call, reply) && describes(call, state) && reply.operation().is_null()
}

/// The unknown location was made, and is `location`.
pub open spec fn location_made<'r, F: Fn(Call<'_>) -> Reply<'r>>(
    ffi: &F,
    location: MlirLocation,
) -> bool {
    exists|reply: Reply<'r>| #[trigger]
        replied(ffi, Call::LocationUnknownGet, reply) && reply.location() == location
            && !location.is_null()
}

/// The dispatcher was asked for the unknown location and answered with
/// none.
pub open spec fn location_refused<'r, F: Fn(Call<'_>) -> Reply<'r>>(ffi: &F) -> bool {
    exists|reply: Reply<'r>| #[trigger]
        replied(ffi, Call::LocationUnknownGet, reply) && reply.location().is_null()
}

/// `attr` is what making the string attribute of `text` came to.
pub open spec fn string_outcome<'r, F: Fn(Call<'_>) -> Reply<'r>>(
    ffi: &F,
    text: Seq<u8>,
    attr: Option<MlirAttribute>,
) -> bool {
    exists|call: Call<'_>, reply: Reply<'r>| #[trigger]
        replied(ffi, call, reply) && (call matches Call::StringAttrGet { value } && value@
            == text) && attr == live(reply.attribute())
}

/// The dispatcher was asked for the function type of `inputs` and `results`
/// and answered with none.
pub open spec fn function_type_refused<'r, F: Fn(Call<'_>) -> Reply<'r>>(
    ffi: &F,
    inputs: Seq<MlirType>,
    results: Seq<MlirType>,
) -> bool {
    exists|call: Call<'_>, reply: Reply<'r>| #[trigger]
        replied(ffi, call, reply) && (call matches Call::FunctionTypeGet { inputs: i, results: o }
            && i@ == inputs && o@ == results) && reply.ty().is_null()
}

/// The dispatcher was asked for the attribute that holds the type `ty` and
/// answered with none.
pub open spec fn type_attr_refused<'r, F: Fn(Call<'_>) -> Reply<'r>>(
    ffi: &F,
    ty: MlirType,
) -> bool {
    exists|reply: Reply<'r>| #[trigger]
        replied(ffi, Call::TypeAttrGet { ty }, reply) && reply.attribute().is_null()
}

/// `parts` is what building the module that `info` describes made, step by
/// step, up to but not including the module itself.
pub open spec fn pieces_made<'r, F: Fn(Call<'_>) -> Reply<'r>>(
    ffi: &F,
    info: ModuleOpInfo<'_>,
    parts: ModuleParts,
) -> bool {
    &&& location_made(ffi, parts.location)
    &&& names_made(ffi, parts)
    &&& string_outcome(ffi, info.name@, Some(parts.name))
    &&& ports_made(ffi, info, parts)
    &&& signature_made(ffi, info, parts)
    &&& match info.comment {
        Some(c) => parts.comment == c@,
        None => interned_as(ffi, bytes_of(""), parts.comment),
    }
    &&& body_made(ffi, info, parts)
}

/// `parts` is what building the module that `info` describes made, step by
/// step, up to the module itself.
pub open spec fn module_made<'r, F: Fn(Call<'_>) -> Reply<'r>>(
    ffi: &F,
    info: ModuleOpInfo<'_>,
    parts: ModuleParts,
) -> bool {
    pieces_made(ffi, info, parts) && operation_made(
        ffi,
        module_state(info, parts),
        parts.operation,
    )
}

/// One of the names of the module's own attributes came to nothing: the
/// foreign library gave no name for the attribute that holds the name of a
/// symbol, or one of the eight names could not be interned.
pub open spec fn names_refused<'r, F: Fn(Call<'_>) -> Reply<'r>>(ffi: &F) -> bool {
    ||| exists|reply: Reply<'r>| #[trigger]
        replied(ffi, Call::SymbolTableGetSymbolAttributeName, reply) && match reply.text() {
            None => true,
            Some(t) => interned(ffi, t@, None),
        }
    ||| interned(ffi, bytes_of(FUNCTION_TYPE_ATTR_NAME), None)
    ||| interned(ffi, bytes_of("argNames"), None)
    ||| interned(ffi, bytes_of("resultNames"), None)
    ||| interned(ffi, bytes_of(FUNCTION_ARG_DICT_ATTR_NAME), None)
    ||| interned(ffi, bytes_of(FUNCTION_RESULT_DICT_ATTR_NAME), None)
    ||| interned(ffi, bytes_of("parameters"), None)
    ||| interned(ffi, bytes_of("comment"), None)
}

/// With everything made for the ports as `parts` has it, one of the
/// attributes that are made from the ports came to nothing: the type of
/// the module as a function, the attribute that holds it, or one of the
/// four arrays of names and attributes.
pub open spec fn signature_refused<'r, F: Fn(Call<'_>) -> Reply<'r>>(
    ffi: &F,
    info: ModuleOpInfo<'_>,
    parts: ModuleParts,
) -> bool {
    ||| function_type_refused(ffi, parts.arg_types, port_types(info.ports.outputs@))
    ||| function_type_made(
        ffi,
        parts.arg_types,
        port_types(info.ports.outputs@),
        parts.function_type,
    ) && type_attr_refused(ffi, parts.function_type)
    ||| array_outcome(ffi, port_names(info.ports.inputs@), None)
    ||| array_outcome(ffi, port_names(info.ports.outputs@), None)
    ||| array_outcome(ffi, parts.arg_attrs, None)
    ||| array_outcome(ffi, parts.result_attrs, None)
}

/// No module came of `info`, because one step on the way came to nothing:
/// the location, a name, the name of the module as an attribute, what a
/// port needs, an attribute made from the ports, the comment, the body, or
/// in the end the module itself, which the foreign library refused though
/// every piece was there.
pub open spec fn module_refused<'r, F: Fn(Call<'_>) -> Reply<'r>>(
    ffi: &F,
    info: ModuleOpInfo<'_>,
) -> bool {
    ||| location_refused(ffi)
    ||| names_refused(ffi)
    ||| string_outcome(ffi, info.name@, None)
    ||| ports_refused(ffi, info.ports.inputs@, true)
    ||| ports_refused(ffi, info.ports.outputs@, false)
    ||| exists|parts: ModuleParts| #[trigger]
        ports_made(ffi, info, parts) && signature_refused(ffi, info, parts)
    ||| info.comment is None && interned(ffi, bytes_of(""), None)
    ||| exists|location: MlirLocation| #[trigger]
        location_made(ffi, location) && body_refused(ffi, info.ports.inputs@, location)
    ||| exists|parts: ModuleParts| #[trigger]
        pieces_made(ffi, info, parts) && operation_refused(ffi, module_state(info, parts))
}

/// `attr` is what making the array attribute of `elements` came to: the
/// attribute the dispatcher answered with, or nothing if it answered with
/// none.
pub open spec fn array_outcome<'r, F: Fn(Call<'_>) -> Reply<'r>>(
    ffi: &F,
    elements: Seq<MlirAttribute>,
    attr: Option<MlirAttribute>,
) -> bool {
    exists|call: Call<'_>, reply: Reply<'r>| #[trigger]
        replied(ffi, call, reply) && (call matches Call::ArrayAttrGet { elements: e } && e@
            == elements) && attr == live(reply.attribute())
}

/// Everything a port needs was made: its type as an argument, where that
/// is asked for, and its attributes.
pub open spec fn port_served<'r, F: Fn(Call<'_>) -> Reply<'r>>(
    ffi: &F,
    port: PortInfo,
    wrap: bool,
) -> bool {
    &&& wrap ==> exists|ty: MlirType| #[trigger] inout_wrapped(ffi, port, Some(ty))
    &&& exists|attrs: MlirAttribute| #[trigger] port_attrs_made(ffi, port, Some(attrs))
}

/// Something a port needs came to nothing: its type as an argument, where
/// that is asked for, or else its attributes.
pub open spec fn port_refused<'r, F: Fn(Call<'_>) -> Reply<'r>>(
    ffi: &F,
    port: PortInfo,
    wrap: bool,
) -> bool {
    ||| wrap && inout_wrapped(ffi, port, None)
    ||| (wrap ==> exists|ty: MlirType| #[trigger] inout_wrapped(ffi, port, Some(ty)))
        && port_attrs_made(ffi, port, None)
}

/// Working through `ports` in order stopped at one of them: what that port
/// needs came to nothing, after every port before it was served.
pub open spec fn ports_refused<'r, F: Fn(Call<'_>) -> Reply<'r>>(
    ffi: &F,
    ports: Seq<PortInfo>,
    wrap: bool,
) -> bool {
    exists|i: int|
        0 <= i < ports.len() && #[trigger] port_refused(ffi, ports[i], wrap) && forall|j: int|
            0 <= j < i ==> #[trigger] port_served(ffi, ports[j], wrap)
}

/// The dispatcher was asked for a region and answered with none.
pub open spec fn region_refused<'r, F: Fn(Call<'_>) -> Reply<'r>>(ffi: &F) -> bool {
    exists|reply: Reply<'r>| #[trigger]
        replied(ffi, Call::RegionCreate, reply) && reply.region().is_null()
}

/// The dispatcher was asked for a block with one argument for each of
/// `args`, the i-th declared at the i-th of `locs`, and answered with none.
pub open spec fn block_refused<'r, F: Fn(Call<'_>) -> Reply<'r>>(
    ffi: &F,
    args: Seq<MlirType>,
    locs: Seq<MlirLocation>,
) -> bool {
    exists|call: Call<'_>, reply: Reply<'r>| #[trigger]
        replied(ffi, call, reply) && (call matches Call::BlockCreate { args: a, locs: l } && a@
            == args && l@ == locs) && reply.block().is_null()
}

/// `region` was released.
pub open spec fn region_released<'r, F: Fn(Call<'_>) -> Reply<'r>>(
    ffi: &F,
    region: MlirRegion,
) -> bool {
    exists|reply: Reply<'r>| #[trigger] replied(ffi, Call::RegionDestroy { region }, reply)
}

/// No body came of it: there was no region to be had, or there was one but
/// no block with an argument for each of `inputs`, and the region was
/// released again.
pub open spec fn body_refused<'r, F: Fn(Call<'_>) -> Reply<'r>>(
    ffi: &F,
    inputs: Seq<PortInfo>,
    location: MlirLocation,
) -> bool {
    ||| region_refused(ffi)
    ||| exists|region: MlirRegion| #[trigger]
        region_made(ffi, region) && block_refused(
            ffi,
            port_types(inputs),
            argument_locations(inputs.len(), location),
        ) && region_released(ffi, region)
}

/// The identifier for `name`, with the proof of where it came from.
fn intern<'r, F: Fn(Call<'_>) -> Reply<'r>>(name: &str, ffi: &F) -> (ident: Option<Identifier>)
    requires
        serves(ffi),
    ensures
        interned(ffi, bytes_of(name), ident),
        ident matches Some(i) ==> interned_as(ffi, bytes_of(name), i@),
{
    Identifier::get(StringRef::new(name), ffi)
}

/// The array attribute of `elements`, with the proof of where it came from.
fn array_of<'r, F: Fn(Call<'_>) -> Reply<'r>>(elements: &Vec<Attribute>, ffi: &F) -> (attr: Option<
    Attribute,
>)
    requires
        serves(ffi),
    ensures
        array_outcome(
            ffi,
            attribute_handles(elements@),
            match attr {
                Some(a) => Some(a@),
                None => None,
            },
        ),
        attr matches Some(a) ==> array_made(ffi, attribute_handles(elements@), a@),
{
    match ArrayAttr::create(elements.as_slice(), ffi) {
        Some(a) => Some(a.to_attribute()),
        None => None,
    }
}

/// For each of `ports` in order: its name as an attribute, the type it has
/// as an argument if `wrap` is set and its own type if not, and its
/// attributes. `None` if making any of them came to nothing.
fn signature<'r, F: Fn(Call<'_>) -> Reply<'r>>(ports: &Vec<PortInfo>, wrap: bool, ffi: &F) -> (parts:
    Option<(Vec<Attribute>, Vec<Type>, Vec<Attribute>)>)
    requires
        serves(ffi),
    ensures
        parts matches Some((names, types, attrs)) ==> {
            &&& attribute_handles(names@) == port_names(ports@)
            &&& types@.len() == ports@.len()
            &&& attrs@.len() == ports@.len()
            &&& wrap ==> forall|i: int|
                0 <= i < ports@.len() ==> #[trigger] inout_wrapped(
                    ffi,
                    ports@[i],
                    Some(type_handles(types@)[i]),
                )
            &&& !wrap ==> type_handles(types@) == port_types(ports@)
            &&& forall|i: int|
                0 <= i < ports@.len() ==> #[trigger] port_attrs_made(
                    ffi,
                    ports@[i],
                    Some(attribute_handles(attrs@)[i]),
                )
        },
        parts is None ==> ports_refused(ffi, ports@, wrap),
{
    let mut triples: Vec<(Attribute, Type, Attribute)> = Vec::new();
    let mut i: usize = 0;
    while i < ports.len()
        invariant
            serves(ffi),
            i <= ports.len(),
            triples@.len() == i,
            forall|j: int| 0 <= j < i ==> (#[trigger] triples@[j]).0@ == as_attribute(ports@[j].name@),
            wrap ==> forall|j: int|
                0 <= j < i ==> #[trigger] inout_wrapped(ffi, ports@[j], Some(triples@[j].1@)),
            !wrap ==> forall|j: int| 0 <= j < i ==> (#[trigger] triples@[j]).1@ == ports@[j].ty@,
            forall|j: int|
                0 <= j < i ==> #[trigger] port_attrs_made(ffi, ports@[j], Some(triples@[j].2@)),
            forall|j: int| 0 <= j < i ==> #[trigger] port_served(ffi, ports@[j], wrap),
        decreases ports.len() - i,
    {
        let port = &ports[i];
        let name = Attribute::from_identifier(port.name);
        assert(name@ == as_attribute(port.name@));
        let ty = if wrap {
            match wrap_inout(port, ffi) {
                Some(ty) => ty,
                None => {
                    assert(port_refused(ffi, ports@[i as int], wrap));
                    return None;
                },
            }
        } else {
            port.ty
        };
        let attrs = match port_attrs(port, ffi) {
            Some(attrs) => attrs,
            None => {
                assert(wrap ==> inout_wrapped(ffi, ports@[i as int], Some(ty@)));
                assert(port_refused(ffi, ports@[i as int], wrap));
                return None;
            },
        };
        assert(wrap ==> inout_wrapped(ffi, ports@[i as int], Some(ty@)));
        assert(port_attrs_made(ffi, ports@[i as int], Some(attrs@)));
        assert(port_served(ffi, ports@[i as int], wrap));
        triples.push((name, ty, attrs));
        i += 1;
    }
    let (names, types, attrs) = unzip3(triples);
    assert(attribute_handles(names@) =~= port_names(ports@));
    assert(forall|j: int| 0 <= j < ports@.len() ==> type_handles(types@)[j] == triples@[j].1@);
    assert(forall|j: int| 0 <= j < ports@.len() ==> attribute_handles(attrs@)[j] == triples@[j].2@);
    if !wrap {
        assert(type_handles(types@) =~= port_types(ports@));
    }
    Some((names, types, attrs))
}

/// The body of a module: a region with one block, which is made with one
/// argument for each of `inputs`, of the type of the port and declared at
/// `location`. `None` if the region or the block could not be made; a
/// region that was made before the block failed is released again.
fn body<'r, F: Fn(Call<'_>) -> Reply<'r>>(inputs: &Vec<PortInfo>, location: Location, ffi: &F) -> (made:
    Option<(Region, Ghost<MlirBlock>)>)
    requires
        serves(ffi),
    ensures
        made matches Some((region, block)) ==> {
            &&& region_made(ffi, region@)
            &&& block_made(
                ffi,
                port_types(inputs@),
                argument_locations(inputs@.len(), location@),
                block@,
            )
            &&& block_appended(ffi, region@, block@)
        },
        made is None ==> body_refused(ffi, inputs@, location@),
{
    let mut types: Vec<Type> = Vec::new();
    let mut locations: Vec<Location> = Vec::new();
    let mut i: usize = 0;
    while i < inputs.len()
        invariant
            i <= inputs.len(),
            types@.len() == i,
            locations@.len() == i,
            forall|j: int| 0 <= j < i ==> (#[trigger] types@[j])@ == inputs@[j].ty@,
            forall|j: int| 0 <= j < i ==> (#[trigger] locations@[j])@ == location@,
        decreases inputs.len() - i,
    {
        types.push(inputs[i].ty);
        locations.push(location);
        i += 1;
    }
    assert(type_handles(types@) =~= port_types(inputs@));
    assert(location_handles(locations@) =~= argument_locations(inputs@.len(), location@));

    let mut region = match Region::create(ffi) {
        Some(region) => region,
        None => {
            assert(region_refused(ffi));
            return None;
        },
    };
    let _ = region.as_raw();
    let ghost raw_region = region@;
    assert(region_made(ffi, raw_region));
    let block = match Block::create_with_args(types.as_slice(), locations.as_slice(), ffi) {
        Some(block) => block,
        None => {
            assert(block_refused(
                ffi,
                port_types(inputs@),
                argument_locations(inputs@.len(), location@),
            ));
            region.destroy(ffi);
            assert(region_released(ffi, raw_region));
            return None;
        },
    };
    let _ = block.as_raw();
    let ghost raw_block = block@;
    assert(block_made(
        ffi,
        port_types(inputs@),
        argument_locations(inputs@.len(), location@),
        raw_block,
    ));
    let _ = region.append_block(block, ffi);
    assert(block_appended(ffi, raw_region, raw_block));
    assert(region@ == raw_region);
    Some((region, Ghost(raw_block)))
}

impl ModuleOp {
    /// The raw handle of the module operation. It is never null.
    pub fn as_raw(&self) -> (raw: MlirOperation)
        ensures
            raw == self@,
            !raw.is_null(),
    {
        self.op.as_raw()
    }

    /// The module as a plain operation.
    pub fn into_operation(self) -> (op: Operation)
        ensures
            op@ == self@,
    {
        self.op
    }

    /// Builds the hardware module that `info` describes.
    ///
    /// The ports become the type of the module as a function, the names of
    /// its arguments and results, and their attributes; the body is a
    /// region with one block, which has an argument for each input port.
    /// `None` if the foreign library fails to make any of the pieces, or
    /// refuses the module.
    pub fn build<'r, F: Fn(Call<'_>) -> Reply<'r>>(info: ModuleOpInfo<'_>, ffi: &F) -> (module:
        Option<ModuleOp>)
        requires
            serves(ffi),
        ensures
            module matches Some(m) ==> exists|parts: ModuleParts| #[trigger]
                module_made(ffi, info, parts) && m@ == parts.operation,
            module is None ==> module_refused(ffi, info),
    {
        let location = match Location::unknown(ffi) {
            Some(location) => location,
            None => {
                assert(location_refused(ffi));
                return None;
            },
        };
        let _ = location.as_raw();
        assert(location_made(ffi, location@));
        let mut state = OperationState::get(StringRef::new("hw.module"), location);

        let symbol_name = match SymbolTable::symbol_attribute_name(ffi) {
            Some(text) => text,
            None => {
                assert(names_refused(ffi));
                return None;
            },
        };
        let n0 = match Identifier::get(symbol_name, ffi) {
            Some(n) => n,
            None => {
                assert(interned(ffi, symbol_name@, None));
                assert(names_refused(ffi));
                return None;
            },
        };
        let _ = n0.as_raw();
        assert(interned_as(ffi, symbol_name@, n0@));
        let name = match Attribute::string(info.name, ffi) {
            Some(name) => name,
            None => {
                assert(string_outcome(ffi, info.name@, None));
                return None;
            },
        };
        let _ = name.as_raw();
        assert(string_outcome(ffi, info.name@, Some(name@)));
        state.add_attribute(n0, name);

        let (arg_names, arg_types, arg_attrs) = match signature(&info.ports.inputs, true, ffi) {
            Some(parts) => parts,
            None => { return None; },
        };
        let (result_names, result_types, result_attrs) = match signature(
            &info.ports.outputs,
            false,
            ffi,
        ) {
            Some(parts) => parts,
            None => { return None; },
        };
        // What is known of the ports from here on, whatever becomes of the
        // rest.
        let ghost ports = ModuleParts {
            location: location@,
            names: Seq::empty(),
            name: name@,
            arg_types: type_handles(arg_types@),
            arg_attrs: attribute_handles(arg_attrs@),
            result_attrs: attribute_handles(result_attrs@),
            function_type: MlirType { ptr: 0 },
            function_type_attr: name@,
            arg_names_attr: name@,
            result_names_attr: name@,
            arg_attrs_attr: name@,
            result_attrs_attr: name@,
            comment: n0@,
            region: MlirRegion { ptr: 0 },
            block: MlirBlock { ptr: 0 },
            operation: MlirOperation { ptr: 0 },
        };
        assert(ports_made(ffi, info, ports));

        let ty = match FunctionType::get(arg_types.as_slice(), result_types.as_slice(), ffi) {
            Some(ty) => ty,
            None => {
                assert(function_type_refused(
                    ffi,
                    type_handles(arg_types@),
                    type_handles(result_types@),
                ));
                assert(signature_refused(ffi, info, ports));
                return None;
            },
        };
        let _ = ty.as_raw();
        assert(function_type_made(
            ffi,
            type_handles(arg_types@),
            type_handles(result_types@),
            ty@,
        ));
        let n1 = match intern(FUNCTION_TYPE_ATTR_NAME, ffi) {
            Some(n) => n,
            None => {
                assert(names_refused(ffi));
                return None;
            },
        };
        let ty_attr = match TypeAttr::get(ty.to_type(), ffi) {
            Some(a) => a,
            None => {
                assert(type_attr_refused(ffi, ty@));
                let ghost typed = ModuleParts { function_type: ty@, ..ports };
                assert(ports_made(ffi, info, typed));
                assert(signature_refused(ffi, info, typed));
                return None;
            },
        };
        let _ = ty_attr.as_raw();
        assert(type_attr_made(ffi, ty@, ty_attr@));
        state.add_attribute(n1, ty_attr.to_attribute());

        let n2 = match intern("argNames", ffi) {
            Some(n) => n,
            None => {
                assert(names_refused(ffi));
                return None;
            },
        };
        let arg_names_attr = match array_of(&arg_names, ffi) {
            Some(a) => a,
            None => {
                assert(signature_refused(ffi, info, ports));
                return None;
            },
        };
        state.add_attribute(n2, arg_names_attr);

        let n3 = match intern("resultNames", ffi) {
            Some(n) => n,
            None => {
                assert(names_refused(ffi));
                return None;
            },
        };
        let result_names_attr = match array_of(&result_names, ffi) {
            Some(a) => a,
            None => {
                assert(signature_refused(ffi, info, ports));
                return None;
            },
        };
        state.add_attribute(n3, result_names_attr);

        let n4 = match intern(FUNCTION_ARG_DICT_ATTR_NAME, ffi) {
            Some(n) => n,
            None => {
                assert(names_refused(ffi));
                return None;
            },
        };
        let arg_attrs_attr = match array_of(&arg_attrs, ffi) {
            Some(a) => a,
            None => {
                assert(signature_refused(ffi, info, ports));
                return None;
            },
        };
        state.add_attribute(n4, arg_attrs_attr);

        let n5 = match intern(FUNCTION_RESULT_DICT_ATTR_NAME, ffi) {
            Some(n) => n,
            None => {
                assert(names_refused(ffi));
                return None;
            },
        };
        let result_attrs_attr = match array_of(&result_attrs, ffi) {
            Some(a) => a,
            None => {
                assert(signature_refused(ffi, info, ports));
                return None;
            },
        };
        state.add_attribute(n5, result_attrs_attr);

        let n6 = match intern("parameters", ffi) {
            Some(n) => n,
            None => {
                assert(names_refused(ffi));
                return None;
            },
        };
        state.add_attribute(n6, info.params.to_attribute());

        let n7 = match intern("comment", ffi) {
            Some(n) => n,
            None => {
                assert(names_refused(ffi));
                return None;
            },
        };
        let comment = match info.comment {
            Some(comment) => comment,
            None => match intern("", ffi) {
                Some(comment) => comment,
                None => { return None; },
            },
        };
        state.add_attribute(n7, Attribute::from_identifier(comment));
        state.add_attributes(info.attrs);

        let (region, block) = match body(&info.ports.inputs, location, ffi) {
            Some(made) => made,
            None => {
                assert(location_made(ffi, location@) && body_refused(
                    ffi,
                    info.ports.inputs@,
                    location@,
                ));
                return None;
            },
        };
        let ghost raw_region = region@;
        let _ = state.add_region(region);

        let ghost pieces = ModuleParts {
            location: location@,
            names: seq![n0@, n1@, n2@, n3@, n4@, n5@, n6@, n7@],
            name: name@,
            arg_types: type_handles(arg_types@),
            arg_attrs: attribute_handles(arg_attrs@),
            result_attrs: attribute_handles(result_attrs@),
            function_type: ty@,
            function_type_attr: ty_attr@,
            arg_names_attr: arg_names_attr@,
            result_names_attr: result_names_attr@,
            arg_attrs_attr: arg_attrs_attr@,
            result_attrs_attr: result_attrs_attr@,
            comment: comment@,
            region: raw_region,
            block: block@,
            operation: MlirOperation { ptr: 0 },
        };
        proof {
            assert(names_made(ffi, pieces));
            assert(ports_made(ffi, info, pieces));
            assert(signature_made(ffi, info, pieces));
            assert(body_made(ffi, info, pieces));
            assert(pieces_made(ffi, info, pieces));
            assert(state@.attributes =~= module_attributes(info, pieces));
            assert(state@.regions =~= seq![pieces.region]);
            assert(state@ == module_state(info, pieces));
        }
        let op = match Operation::create(state, ffi) {
            Some(op) => op,
            None => {
                assert(operation_refused(ffi, module_state(info, pieces)));
                return None;
            },
        };
        let _ = op.as_raw();
        proof {
            let parts = ModuleParts { operation: op@, ..pieces };
            assert(names_made(ffi, parts));
            assert(ports_made(ffi, info, parts));
            assert(signature_made(ffi, info, parts));
            assert(body_made(ffi, info, parts));
            assert(pieces_made(ffi, info, parts));
            assert(module_state(info, parts) == module_state(info, pieces)) by {
                assert(module_attributes(info, parts) =~= module_attributes(info, pieces));
            }
            assert(operation_made(ffi, module_state(info, parts), parts.operation));
            assert(module_made(ffi, info, parts));
        }
        Some(ModuleOp { op })
    }
}

} // verus!
