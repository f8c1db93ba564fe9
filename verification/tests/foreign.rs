//! The wrappers at work against a stand-in for the foreign library: a small
//! world that interns by content, keeps block lists, and records every call.

use std::cell::RefCell;
use std::collections::HashMap;

use circt::attr::{ArrayAttr, DictionaryAttr, FlatSymbolRefAttr, TypeAttr};
use circt::attribute::{Attribute, NamedAttribute};
use circt::block::Block;
use circt::context::{context, Context, ContextUnavailable, SyncContext};
use circt::cursor::BlockCursor;
use circt::dialect::{DialectHandle, DialectRegistry};
use circt::fmt::FmtError;
use circt::foreign::{Access, AttributeKind, Call, HwTypeKind, Reply};
use circt::hw::{
    export_port, port_attrs, struct_ty, wrap_inout, ModuleOp, ModuleOpInfo, ModulePortInfo,
    PortDirection, PortInfo, StructFieldInfo, TypeExt,
};
use circt::identifier::Identifier;
use circt::location::Location;
use circt::module::Module;
use circt::operation::{Operation, OperationState};
use circt::raw::{
    MlirAttribute, MlirBlock, MlirContext, MlirDialect, MlirDialectHandle, MlirDialectRegistry,
    MlirIdentifier, MlirLocation, MlirModule, MlirOperation, MlirRegion, MlirStringRef, MlirType,
    MlirValue,
};
use circt::region::{Region, RegionMut};
use circt::string_ref::StringRef;
use circt::symbol_table::SymbolTable;
use circt::ty::{FunctionType, Type, TypeSubtype};
use circt::value::Value;
use once_cell::sync::OnceCell;

/// One operation that the world was asked to make.
#[derive(Clone, Debug, Default)]
struct Made {
    name: Vec<u8>,
    location: usize,
    results: Vec<usize>,
    operands: Vec<usize>,
    regions: Vec<usize>,
    attributes: Vec<(usize, usize)>,
}

#[derive(Default)]
struct State {
    next: usize,
    interned: HashMap<String, usize>,
    content: HashMap<usize, String>,
    texts: HashMap<usize, &'static [u8]>,
    regions: HashMap<usize, Vec<usize>>,
    arguments: HashMap<usize, Vec<(usize, usize)>>,
    made: HashMap<usize, Made>,
    prints: HashMap<usize, Vec<Vec<u8>>>,
    destroyed: Vec<usize>,
    exclusive: Vec<String>,
    log: Vec<String>,
    refuse: Vec<&'static str>,
}

#[derive(Default)]
struct World {
    state: RefCell<State>,
}

fn key(call: &Call<'_>) -> String {
    let text = format!("{:?}", call);
    text.split(|c: char| !c.is_alphanumeric()).next().unwrap().to_string()
}

impl World {
    fn fresh(&self) -> usize {
        let mut s = self.state.borrow_mut();
        s.next += 8;
        s.next
    }

    fn intern(&self, content: String) -> usize {
        if let Some(at) = self.state.borrow().interned.get(&content) {
            return *at;
        }
        let at = self.fresh();
        let mut s = self.state.borrow_mut();
        s.interned.insert(content.clone(), at);
        s.content.insert(at, content);
        at
    }

    fn text(&self, at: usize, bytes: &[u8]) {
        let kept: &'static [u8] = Box::leak(bytes.to_vec().into_boxed_slice());
        self.state.borrow_mut().texts.entry(at).or_insert(kept);
    }

    fn is(&self, at: usize, prefix: &str) -> bool {
        self.state.borrow().content.get(&at).map_or(false, |c| c.starts_with(prefix))
    }

    fn refuse(&self, call: &'static str) {
        self.state.borrow_mut().refuse.push(call);
    }

    fn calls(&self, name: &str) -> usize {
        self.state.borrow().log.iter().filter(|c| c.as_str() == name).count()
    }

    fn blocks(&self, region: usize) -> Vec<usize> {
        self.state.borrow().regions.get(&region).cloned().unwrap_or_default()
    }

    fn region_of(&self, block: usize) -> Option<(usize, usize)> {
        for (region, blocks) in self.state.borrow().regions.iter() {
            if let Some(at) = blocks.iter().position(|b| *b == block) {
                return Some((*region, at));
            }
        }
        None
    }

    fn perform(&self, call: Call<'_>) -> Reply<'static> {
        let name = key(&call);
        self.state.borrow_mut().log.push(name.clone());
        if call.access() == Access::Exclusive {
            self.state.borrow_mut().exclusive.push(name.clone());
        }
        if self.state.borrow().refuse.iter().any(|r| *r == name) {
            return Reply::Done;
        }
        match call {
            Call::AttributeEqual { a, b } => Reply::Flag(a.ptr == b.ptr),
            Call::BlockEqual { a, b } => Reply::Flag(a.ptr == b.ptr),
            Call::ContextEqual { a, b } => Reply::Flag(a.ptr == b.ptr),
            Call::DialectEqual { a, b } => Reply::Flag(a.ptr == b.ptr),
            Call::LocationEqual { a, b } => Reply::Flag(a.ptr == b.ptr),
            Call::OperationEqual { a, b } => Reply::Flag(a.ptr == b.ptr),
            Call::RegionEqual { a, b } => Reply::Flag(a.ptr == b.ptr),
            Call::TypeEqual { a, b } => Reply::Flag(a.ptr == b.ptr),
            Call::ValueEqual { a, b } => Reply::Flag(a.ptr == b.ptr),
            Call::AttributePrint { attr } => self.printed(attr.ptr),
            Call::LocationPrint { location } => self.printed(location.ptr),
            Call::OperationPrint { operation } => self.printed(operation.ptr),
            Call::TypePrint { ty } => self.printed(ty.ptr),
            Call::AttributeIsA { kind, attr } => {
                let prefix = match kind {
                    AttributeKind::Array => "array:",
                    AttributeKind::Dictionary => "dictionary:",
                    AttributeKind::FlatSymbolRef => "symbol:",
                    AttributeKind::String => "string:",
                    AttributeKind::SymbolRef => "symbol:",
                    _ => "no such kind in this world:",
                };
                Reply::Flag(self.is(attr.ptr, prefix))
            },
            Call::ArrayAttrGet { elements } => Reply::Attribute(
                MlirAttribute { ptr: self.intern(format!("array:{:?}", elements)) },
            ),
            Call::DictionaryAttrGet { elements } => Reply::Attribute(
                MlirAttribute { ptr: self.intern(format!("dictionary:{:?}", elements)) },
            ),
            Call::FlatSymbolRefAttrGet { symbol } => {
                let at = self.intern(format!("symbol:{:?}", symbol.data));
                self.text(at, symbol.data);
                Reply::Attribute(MlirAttribute { ptr: at })
            },
            Call::FlatSymbolRefAttrGetValue { attr } => self.text_of(attr.ptr),
            Call::StringAttrGet { value } => {
                let at = self.intern(format!("string:{:?}", value.data));
                self.text(at, value.data);
                Reply::Attribute(MlirAttribute { ptr: at })
            },
            Call::TypeAttrGet { ty } => {
                Reply::Attribute(MlirAttribute { ptr: self.intern(format!("type:{}", ty.ptr)) })
            },
            Call::BlockCreate { args, locs } => {
                let at = self.fresh();
                let arguments = args.iter().zip(locs.iter()).map(|(t, l)| (t.ptr, l.ptr)).collect();
                self.state.borrow_mut().arguments.insert(at, arguments);
                Reply::Block(MlirBlock { ptr: at })
            },
            Call::BlockDestroy { block } => self.destroy(block.ptr),
            Call::BlockAddArgument { block, ty, loc } => {
                self.state.borrow_mut().arguments.entry(block.ptr).or_default().push(
                    (ty.ptr, loc.ptr),
                );
                Reply::Value(MlirValue { ptr: self.fresh() })
            },
            Call::BlockGetTerminator { .. } => Reply::Operation(MlirOperation::null()),
            Call::BlockGetParentOperation { block } => {
                let owner = self.region_of(block.ptr).map_or(0, |(region, _)| region + 1);
                Reply::Operation(MlirOperation { ptr: owner })
            },
            Call::BlockDetach { block } => {
                if let Some((region, at)) = self.region_of(block.ptr) {
                    self.state.borrow_mut().regions.get_mut(&region).unwrap().remove(at);
                }
                Reply::Done
            },
            Call::BlockGetNextInRegion { block } => {
                let next = match self.region_of(block.ptr) {
                    Some((region, at)) => self.blocks(region).get(at + 1).copied().unwrap_or(0),
                    None => 0,
                };
                Reply::Block(MlirBlock { ptr: next })
            },
            Call::ContextCreate => Reply::Context(MlirContext { ptr: self.fresh() }),
            Call::ContextDestroy { context } => self.destroy(context.ptr),
            Call::ContextAppendDialectRegistry { .. } => Reply::Done,
            Call::DialectGetNamespace { .. } => Reply::Text(MlirStringRef { data: b"hw" }),
            Call::DialectHandleGetNamespace { .. } => Reply::Text(MlirStringRef { data: b"hw" }),
            Call::DialectHandleRegisterDialect { .. } => Reply::Done,
            Call::DialectHandleLoadDialect { handle } => {
                Reply::Dialect(MlirDialect { ptr: self.intern(format!("dialect:{}", handle.ptr)) })
            },
            Call::DialectRegistryCreate => {
                Reply::DialectRegistry(MlirDialectRegistry { ptr: self.fresh() })
            },
            Call::DialectRegistryDestroy { registry } => self.destroy(registry.ptr),
            Call::IdentifierGet { name } => {
                let at = self.intern(format!("string:{:?}", name.data));
                self.text(at, name.data);
                Reply::Identifier(MlirIdentifier { ptr: at })
            },
            Call::IdentifierStr { ident } => self.text_of(ident.ptr),
            Call::LocationCallSiteGet { callee, caller } => Reply::Location(
                MlirLocation { ptr: self.intern(format!("callsite:{}:{}", callee.ptr, caller.ptr)) },
            ),
            Call::LocationFileLineColGet { filename, line, col } => Reply::Location(
                MlirLocation { ptr: self.intern(format!("file:{:?}:{}:{}", filename.data, line, col)) },
            ),
            Call::LocationFusedGet { locations, metadata } => Reply::Location(
                MlirLocation { ptr: self.intern(format!("fused:{:?}:{}", locations, metadata.ptr)) },
            ),
            Call::LocationUnknownGet => {
                Reply::Location(MlirLocation { ptr: self.intern(String::from("unknown")) })
            },
            Call::ModuleCreateEmpty { .. } => Reply::Module(MlirModule { ptr: self.fresh() }),
            Call::ModuleCreateParse { module } => {
                let parsed = if module.data.starts_with(b"module") { self.fresh() } else { 0 };
                Reply::Module(MlirModule { ptr: parsed })
            },
            Call::ModuleGetBody { module } => Reply::Block(MlirBlock { ptr: module.ptr + 1 }),
            Call::ModuleDestroy { module } => self.destroy(module.ptr),
            Call::OperationCreate { name, location, results, operands, regions, attributes } => {
                let at = self.fresh();
                let made = Made {
                    name: name.data.to_vec(),
                    location: location.ptr,
                    results: results.iter().map(|r| r.ptr).collect(),
                    operands: operands.iter().map(|o| o.ptr).collect(),
                    regions: regions.iter().map(|r| r.ptr).collect(),
                    attributes: attributes.iter().map(|a| (a.name.ptr, a.attribute.ptr)).collect(),
                };
                self.state.borrow_mut().made.insert(at, made);
                Reply::Operation(MlirOperation { ptr: at })
            },
            Call::OperationDestroy { operation } => self.destroy(operation.ptr),
            Call::RegionCreate => {
                let at = self.fresh();
                self.state.borrow_mut().regions.insert(at, Vec::new());
                Reply::Region(MlirRegion { ptr: at })
            },
            Call::RegionDestroy { region } => self.destroy(region.ptr),
            Call::RegionAppendOwnedBlock { region, block } => {
                self.state.borrow_mut().regions.entry(region.ptr).or_default().push(block.ptr);
                Reply::Done
            },
            Call::RegionGetFirstBlock { region } => {
                Reply::Block(MlirBlock { ptr: self.blocks(region.ptr).first().copied().unwrap_or(0) })
            },
            Call::RegionInsertOwnedBlockBefore { region, reference, block } => {
                let mut s = self.state.borrow_mut();
                let blocks = s.regions.entry(region.ptr).or_default();
                match blocks.iter().position(|b| *b == reference.ptr) {
                    Some(at) => blocks.insert(at, block.ptr),
                    None => blocks.push(block.ptr),
                }
                Reply::Done
            },
            Call::RegionInsertOwnedBlockAfter { region, reference, block } => {
                let mut s = self.state.borrow_mut();
                let blocks = s.regions.entry(region.ptr).or_default();
                match blocks.iter().position(|b| *b == reference.ptr) {
                    Some(at) => blocks.insert(at + 1, block.ptr),
                    None => blocks.insert(0, block.ptr),
                }
                Reply::Done
            },
            Call::SymbolTableGetSymbolAttributeName => {
                Reply::Text(MlirStringRef { data: b"sym_name" })
            },
            Call::SymbolTableGetVisibilityAttributeName => {
                Reply::Text(MlirStringRef { data: b"sym_visibility" })
            },
            Call::SymbolTableDestroy { table } => self.destroy(table.ptr),
            Call::TypeIsAFunction { ty } => Reply::Flag(self.is(ty.ptr, "function:")),
            Call::FunctionTypeGet { inputs, results } => Reply::Type(
                MlirType { ptr: self.intern(format!("function:{:?}:{:?}", inputs, results)) },
            ),
            Call::HwTypeIsA { kind, ty } => {
                let prefix = match kind {
                    HwTypeKind::InOut => "inout:",
                    HwTypeKind::Struct => "struct:",
                    _ => "no such kind in this world:",
                };
                Reply::Flag(self.is(ty.ptr, prefix))
            },
            Call::HwStructTypeGet { fields } => {
                Reply::Type(MlirType { ptr: self.intern(format!("struct:{:?}", fields)) })
            },
            Call::HwInOutTypeGet { element } => {
                Reply::Type(MlirType { ptr: self.intern(format!("inout:{}", element.ptr)) })
            },
        }
    }

    fn destroy(&self, at: usize) -> Reply<'static> {
        self.state.borrow_mut().destroyed.push(at);
        Reply::Done
    }

    fn printed(&self, at: usize) -> Reply<'static> {
        Reply::Printed(self.state.borrow().prints.get(&at).cloned().unwrap_or_default())
    }

    fn text_of(&self, at: usize) -> Reply<'static> {
        match self.state.borrow().texts.get(&at) {
            Some(text) => Reply::Text(MlirStringRef { data: *text }),
            None => Reply::Done,
        }
    }

    /// Some type that is no function: the world makes types only by the
    /// calls it knows, so a struct type without fields serves.
    fn plain_type(&self, tag: usize) -> Type {
        Type::from_raw(MlirType { ptr: self.intern(format!("plain:{}", tag)) }).unwrap()
    }
}

#[test]
fn uniqued_values_of_equal_content_are_equal() {
    let world = World::default();
    let ffi = |call: Call<'_>| world.perform(call);
    let a = Identifier::get(StringRef::new("clk"), &ffi).unwrap();
    let other = Identifier::get(StringRef::new("rst"), &ffi).unwrap();
    let b = Identifier::get(StringRef::new("clk\0"), &ffi).unwrap();
    assert_eq!(a.as_raw(), b.as_raw());
    assert_ne!(a.as_raw(), other.as_raw());
    assert_eq!(a.value(&ffi).unwrap().as_bytes(), b"clk");

    let x = Attribute::string(StringRef::new("one"), &ffi).unwrap();
    let y = Attribute::string(StringRef::new("two"), &ffi).unwrap();
    let first = Attribute::array(&[x, y], &ffi).unwrap();
    let swapped = Attribute::array(&[y, x], &ffi).unwrap();
    let second = Attribute::array(&[x, y], &ffi).unwrap();
    assert!(first.eq(&second, &ffi));
    assert!(!first.eq(&swapped, &ffi));
    assert!(first.is_array(&ffi));
    assert!(!first.is_dictionary(&ffi));
    assert!(x.is_string(&ffi));
    assert!(!x.is_unit(&ffi));
    assert!(first.is_a(AttributeKind::Array, &ffi));

    let here = Location::file_line_col(StringRef::new("top.sv"), 3, 14, &ffi).unwrap();
    let there = Location::file_line_col(StringRef::new("top.sv"), 3, 15, &ffi).unwrap();
    let again = Location::file_line_col(StringRef::new("top.sv"), 3, 14, &ffi).unwrap();
    assert!(here.eq(&again, &ffi));
    assert!(!here.eq(&there, &ffi));
    let unknown = Location::unknown(&ffi).unwrap();
    assert!(unknown.eq(&Location::unknown(&ffi).unwrap(), &ffi));
    let site = Location::call_site(here, there, &ffi).unwrap();
    assert!(!site.eq(&Location::call_site(there, here, &ffi).unwrap(), &ffi));
    let fused = Location::fused(&[here, there], first, &ffi).unwrap();
    assert!(fused.eq(&Location::fused(&[here, there], first, &ffi).unwrap(), &ffi));
    assert!(!fused.eq(&Location::fused(&[there, here], first, &ffi).unwrap(), &ffi));
}

#[test]
fn making_the_same_value_many_times_gives_one_value() {
    let world = World::default();
    let ffi = |call: Call<'_>| world.perform(call);
    let first = Identifier::get(StringRef::new("data"), &ffi).unwrap();
    for _ in 0..64 {
        let next = Identifier::get(StringRef::new("data"), &ffi).unwrap();
        assert_eq!(first.as_raw(), next.as_raw());
    }
    assert_eq!(world.calls("IdentifierGet"), 65);
}

#[test]
fn a_refused_call_reads_as_absent() {
    let world = World::default();
    world.refuse("IdentifierGet");
    world.refuse("BlockCreate");
    world.refuse("AttributeEqual");
    let ffi = |call: Call<'_>| world.perform(call);
    assert!(Identifier::get(StringRef::new("clk"), &ffi).is_none());
    assert!(Block::create(&ffi).is_none());
    let a = Attribute::string(StringRef::new("one"), &ffi).unwrap();
    assert!(!a.eq(&a, &ffi));
}

#[test]
fn function_types_narrow_and_others_do_not() {
    let world = World::default();
    let ffi = |call: Call<'_>| world.perform(call);
    let i1 = world.plain_type(1);
    let i8 = world.plain_type(8);
    let made = FunctionType::get(&[i1, i8], &[i1], &ffi).unwrap();
    let ty: Type = made.into();
    assert!(ty.is_function(&ffi));
    assert!(FunctionType::can_downcast(&ty, &ffi));
    let narrowed: Result<FunctionType, Type> = ty.downcast(&ffi);
    assert_eq!(narrowed.unwrap().as_raw(), ty.as_raw());
    assert_eq!(FunctionType::downcast_from(ty, &ffi).unwrap().to_type().as_raw(), ty.as_raw());

    assert!(!i1.is_function(&ffi));
    let kept: Result<FunctionType, Type> = i1.downcast(&ffi);
    assert_eq!(kept.unwrap_err().as_raw(), i1.as_raw());
    assert_eq!(FunctionType::downcast_from_unchecked(i8).as_raw(), i8.as_raw());

    let same = FunctionType::get(&[i1, i8], &[i1], &ffi).unwrap();
    let other = FunctionType::get(&[i8, i1], &[i1], &ffi).unwrap();
    assert!(made.eq(&same, &ffi));
    assert!(!made.eq(&other, &ffi));
}

fn region_of_three(world: &World) -> (Region, Vec<MlirBlock>) {
    let ffi = |call: Call<'_>| world.perform(call);
    let mut region = Region::create(&ffi).unwrap();
    let mut blocks = Vec::new();
    for _ in 0..3 {
        let view = region.append_block(Block::create(&ffi).unwrap(), &ffi);
        blocks.push(view.as_raw());
    }
    (region, blocks)
}

#[test]
fn cursor_walks_the_blocks_and_comes_back_to_the_end() {
    let world = World::default();
    let ffi = |call: Call<'_>| world.perform(call);
    let (region, blocks) = region_of_three(&world);
    let raw = region.as_raw();
    let mut cursor = BlockCursor::new(RegionMut::from_raw(raw).unwrap());
    assert!(cursor.at_end());
    assert!(cursor.get().is_none());
    for block in &blocks {
        cursor.move_next(&ffi);
        assert!(!cursor.at_end());
        assert_eq!(cursor.get().unwrap().as_raw(), *block);
    }
    cursor.move_next(&ffi);
    assert!(cursor.at_end());
    assert!(cursor.get().is_none());
    cursor.move_next(&ffi);
    assert_eq!(cursor.get().unwrap().as_raw(), blocks[0]);
    assert_eq!(world.blocks(raw.ptr), vec![blocks[0].ptr, blocks[1].ptr, blocks[2].ptr]);
}

#[test]
fn cursor_detaches_the_block_it_stands_on() {
    let world = World::default();
    let ffi = |call: Call<'_>| world.perform(call);
    let (region, blocks) = region_of_three(&world);
    let raw = region.as_raw();
    let mut cursor = BlockCursor::new(RegionMut::from_raw(raw).unwrap());
    assert!(cursor.detach(&ffi).is_none());
    assert_eq!(world.calls("BlockDetach"), 0);
    cursor.move_next(&ffi);
    cursor.move_next(&ffi);
    let detached = cursor.detach(&ffi).unwrap();
    assert_eq!(detached.as_raw(), blocks[1]);
    assert_eq!(cursor.get().unwrap().as_raw(), blocks[2]);
    assert_eq!(world.blocks(raw.ptr), vec![blocks[0].ptr, blocks[2].ptr]);
    assert_eq!(world.calls("BlockDetach"), 1);
    assert!(world.state.borrow().destroyed.is_empty());

    let last = cursor.detach(&ffi).unwrap();
    assert_eq!(last.as_raw(), blocks[2]);
    assert!(cursor.at_end());
    assert!(cursor.detach(&ffi).is_none());
    assert_eq!(world.blocks(raw.ptr), vec![blocks[0].ptr]);
}

#[test]
fn cursor_drains_a_region_by_detaching() {
    let world = World::default();
    let ffi = |call: Call<'_>| world.perform(call);
    let (region, blocks) = region_of_three(&world);
    let raw = region.as_raw();
    let mut cursor = BlockCursor::new(RegionMut::from_raw(raw).unwrap());
    cursor.move_next(&ffi);
    let mut drained = Vec::new();
    while let Some(block) = cursor.detach(&ffi) {
        drained.push(block.into_raw());
    }
    assert_eq!(drained, blocks);
    assert!(world.blocks(raw.ptr).is_empty());
}

#[test]
fn insert_before_at_the_end_appends() {
    let world = World::default();
    let ffi = |call: Call<'_>| world.perform(call);
    let mut region = Region::create(&ffi).unwrap();
    let b1 = region.append_block(Block::create(&ffi).unwrap(), &ffi).as_raw();
    let raw = region.as_raw();
    let mut cursor = BlockCursor::new(RegionMut::from_raw(raw).unwrap());
    let block = Block::create(&ffi).unwrap();
    let b2 = block.as_raw();
    cursor.insert_before(block, &ffi);
    assert!(cursor.at_end());
    assert_eq!(world.blocks(raw.ptr), vec![b1.ptr, b2.ptr]);
    assert!(world.state.borrow().destroyed.is_empty());
}

#[test]
fn insert_after_at_the_end_prepends() {
    let world = World::default();
    let ffi = |call: Call<'_>| world.perform(call);
    let mut region = Region::create(&ffi).unwrap();
    let b1 = region.append_block(Block::create(&ffi).unwrap(), &ffi).as_raw();
    let raw = region.as_raw();
    let mut cursor = BlockCursor::new(RegionMut::from_raw(raw).unwrap());
    let block = Block::create(&ffi).unwrap();
    let b0 = block.as_raw();
    cursor.insert_after(block, &ffi);
    assert_eq!(world.blocks(raw.ptr), vec![b0.ptr, b1.ptr]);
}

#[test]
fn inserts_go_next_to_the_block_under_the_cursor() {
    let world = World::default();
    let ffi = |call: Call<'_>| world.perform(call);
    let (region, blocks) = region_of_three(&world);
    let raw = region.as_raw();
    let mut cursor = BlockCursor::new(RegionMut::from_raw(raw).unwrap());
    cursor.move_next(&ffi);
    cursor.move_next(&ffi);
    let before = Block::create(&ffi).unwrap();
    let after = Block::create(&ffi).unwrap();
    let (b, a) = (before.as_raw(), after.as_raw());
    cursor.insert_before(before, &ffi);
    cursor.insert_after(after, &ffi);
    assert_eq!(cursor.get().unwrap().as_raw(), blocks[1]);
    assert_eq!(
        world.blocks(raw.ptr),
        vec![blocks[0].ptr, b.ptr, blocks[1].ptr, a.ptr, blocks[2].ptr]
    );
}

#[test]
fn an_operation_takes_over_the_regions_of_its_state() {
    let world = World::default();
    let ffi = |call: Call<'_>| world.perform(call);
    let loc = Location::unknown(&ffi).unwrap();
    let mut state = OperationState::get(StringRef::new("test.op"), loc);
    let region = Region::create(&ffi).unwrap();
    let raw = region.as_raw();
    let view = state.add_region(region);
    assert_eq!(view.as_raw(), raw);
    assert_eq!(state.num_regions(), 1);
    let op = Operation::create(state, &ffi).unwrap();
    let made = world.state.borrow().made[&op.as_raw().ptr].clone();
    assert_eq!(made.regions, vec![raw.ptr]);
    assert_eq!(made.name, b"test.op");
    assert_eq!(made.location, loc.as_raw().ptr);
    assert!(world.state.borrow().destroyed.is_empty());
    assert_eq!(world.calls("RegionDestroy"), 0);
}

#[test]
fn a_state_hands_on_everything_in_the_order_it_was_added() {
    let world = World::default();
    let ffi = |call: Call<'_>| world.perform(call);
    let loc = Location::unknown(&ffi).unwrap();
    let (t1, t2, t3) = (world.plain_type(1), world.plain_type(2), world.plain_type(3));
    let value = |ptr: usize| Value::from_raw(MlirValue { ptr }).unwrap();
    let name = Identifier::get(StringRef::new("value"), &ffi).unwrap();
    let one = Attribute::string(StringRef::new("one"), &ffi).unwrap();
    let two = Attribute::string(StringRef::new("two"), &ffi).unwrap();

    let mut state = OperationState::get(StringRef::new("test.op\0"), loc);
    state.add_results(&[t1]);
    state.add_operands(&[value(800), value(808)]);
    state.add_attribute(name, one);
    state.add_results(&[t2, t3]);
    state.add_attributes(&[NamedAttribute::get(name, two), NamedAttribute::get(name, one)]);
    state.add_operands(&[]);
    state.add_regions(vec![Region::create(&ffi).unwrap(), Region::create(&ffi).unwrap()]);
    assert_eq!(state.num_regions(), 2);

    let op = Operation::create(state, &ffi).unwrap();
    let made = world.state.borrow().made[&op.as_raw().ptr].clone();
    assert_eq!(made.name, b"test.op");
    assert_eq!(made.results, vec![t1.as_raw().ptr, t2.as_raw().ptr, t3.as_raw().ptr]);
    assert_eq!(made.operands, vec![800, 808]);
    assert_eq!(made.regions.len(), 2);
    let n = name.as_raw().ptr;
    assert_eq!(
        made.attributes,
        vec![(n, one.as_raw().ptr), (n, two.as_raw().ptr), (n, one.as_raw().ptr)]
    );
}

#[test]
fn a_refused_operation_is_absent() {
    let world = World::default();
    world.refuse("OperationCreate");
    let ffi = |call: Call<'_>| world.perform(call);
    let loc = Location::unknown(&ffi).unwrap();
    let state = OperationState::get(StringRef::new("test.op"), loc);
    assert!(Operation::create(state, &ffi).is_none());
}

#[test]
fn destroying_releases_once_and_handing_on_releases_nothing() {
    let world = World::default();
    let ffi = |call: Call<'_>| world.perform(call);
    let block = Block::create(&ffi).unwrap();
    let raw = block.as_raw();
    block.destroy(&ffi);
    assert_eq!(world.state.borrow().destroyed, vec![raw.ptr]);

    let kept = Block::create(&ffi).unwrap();
    let kept_raw = kept.as_raw();
    let mut region = Region::create(&ffi).unwrap();
    let view = region.append_block(kept, &ffi);
    assert_eq!(view.as_raw(), kept_raw);
    assert_eq!(world.state.borrow().destroyed, vec![raw.ptr]);

    let handed = Block::create(&ffi).unwrap().into_raw();
    assert!(!handed.is_null());
    assert_eq!(world.calls("BlockDestroy"), 1);

    let region_raw = region.as_raw();
    region.destroy(&ffi);
    Context::create(&ffi).unwrap().destroy(&ffi);
    DialectRegistry::create(&ffi).unwrap().destroy(&ffi);
    let module = Module::create_empty(Location::unknown(&ffi).unwrap(), &ffi).unwrap();
    module.destroy(&ffi);
    assert_eq!(world.state.borrow().destroyed.len(), 5);
    assert_eq!(world.state.borrow().destroyed[1], region_raw.ptr);
    assert_eq!(world.calls("RegionDestroy"), 1);
    assert_eq!(world.calls("ContextDestroy"), 1);
    assert_eq!(world.calls("DialectRegistryDestroy"), 1);
    assert_eq!(world.calls("ModuleDestroy"), 1);
}

#[test]
fn blocks_take_arguments() {
    let world = World::default();
    let ffi = |call: Call<'_>| world.perform(call);
    let loc = Location::unknown(&ffi).unwrap();
    let (t1, t2) = (world.plain_type(1), world.plain_type(2));
    let mut block = Block::create_with_args(&[t1, t2], &[loc, loc], &ffi).unwrap();
    block.add_argument(t1, loc, &ffi);
    let l = loc.as_raw().ptr;
    assert_eq!(
        world.state.borrow().arguments[&block.as_raw().ptr],
        vec![(t1.as_raw().ptr, l), (t2.as_raw().ptr, l), (t1.as_raw().ptr, l)]
    );
    assert!(block.terminator(&ffi).is_none());
    assert!(block.parent_operation(&ffi).is_none());
    let raw = block.as_raw();
    let mut region = Region::create(&ffi).unwrap();
    let mut view = region.append_block(block, &ffi);
    view.add_argument(t2, loc, &ffi);
    assert_eq!(world.state.borrow().arguments[&raw.ptr].len(), 4);
    assert!(view.parent_operation(&ffi).is_some());
    assert!(view.as_ref().parent_operation(&ffi).is_some());
    assert!(view.as_ref().terminator(&ffi).is_none());
}

#[test]
fn dialects_and_modules_go_through_the_lock() {
    let world = World::default();
    let ffi = |call: Call<'_>| world.perform(call);
    let handle = DialectHandle::from_raw(MlirDialectHandle { ptr: 64 }).unwrap();
    handle.register_dialect(&ffi);
    let dialect = handle.load_dialect(&ffi).unwrap();
    assert_eq!(dialect.namespace(&ffi).unwrap().to_str(), Some("hw"));
    assert_eq!(handle.namespace(&ffi).unwrap().to_str(), Some("hw"));
    assert!(dialect.eq(&handle.load_dialect(&ffi).unwrap(), &ffi));
    let module = Module::create_parse(StringRef::new("module {}"), &ffi).unwrap();
    assert_eq!(module.body(&ffi).unwrap().as_raw().ptr, module.as_raw().ptr + 1);
    assert!(Module::create_parse(StringRef::new("garbage"), &ffi).is_none());
    assert_eq!(
        world.state.borrow().exclusive,
        vec![
            "DialectHandleRegisterDialect",
            "DialectHandleLoadDialect",
            "DialectHandleLoadDialect",
            "ModuleCreateParse",
            "ModuleCreateParse",
        ]
    );
    let mut context = Context::create(&ffi).unwrap();
    let before = context.as_raw();
    context.append_dialect_registry(&DialectRegistry::create(&ffi).unwrap(), &ffi);
    assert_eq!(context.as_raw(), before);
    assert_eq!(world.calls("ContextAppendDialectRegistry"), 1);
    assert_eq!(SymbolTable::symbol_attribute_name(&ffi).unwrap().to_str(), Some("sym_name"));
    assert_eq!(
        SymbolTable::visibility_attribute_name(&ffi).unwrap().to_str(),
        Some("sym_visibility")
    );
}

#[test]
fn printing_joins_what_the_printer_streams() {
    let world = World::default();
    let ffi = |call: Call<'_>| world.perform(call);
    let ty = world.plain_type(1);
    let attr = TypeAttr::get(ty, &ffi).unwrap();
    let loc = Location::unknown(&ffi).unwrap();
    {
        let mut s = world.state.borrow_mut();
        s.prints.insert(ty.as_raw().ptr, vec![b"!hw".to_vec(), b".".to_vec(), b"int<8>".to_vec()]);
        s.prints.insert(attr.as_raw().ptr, vec![b"ok ".to_vec(), vec![0xffu8], b"lost".to_vec()]);
    }
    assert_eq!(ty.print(&ffi), Ok(String::from("!hw.int<8>")));
    assert_eq!(attr.print(&ffi), Err(FmtError));
    assert_eq!(attr.to_attribute().print(&ffi), Err(FmtError));
    assert_eq!(loc.print(&ffi), Ok(String::new()));
}

#[test]
fn typed_attributes_are_made_from_their_content() {
    let world = World::default();
    let ffi = |call: Call<'_>| world.perform(call);
    let x = Attribute::string(StringRef::new("x"), &ffi).unwrap();
    let y = Attribute::string(StringRef::new("y"), &ffi).unwrap();
    let array = ArrayAttr::create(&[x, y], &ffi).unwrap();
    assert_eq!(array.as_raw(), Attribute::array(&[x, y], &ffi).unwrap().as_raw());
    assert!(array.eq(&ArrayAttr::create(&[x, y], &ffi).unwrap(), &ffi));
    let name = Identifier::get(StringRef::new("n"), &ffi).unwrap();
    let dict = DictionaryAttr::create(&[NamedAttribute::get(name, x)], &ffi).unwrap();
    let other = DictionaryAttr::create(&[NamedAttribute::get(name, y)], &ffi).unwrap();
    assert!(!dict.eq(&other, &ffi));
    assert!(dict.to_attribute().is_dictionary(&ffi));
    let symbol = FlatSymbolRefAttr::new(StringRef::new("top\0"), &ffi).unwrap();
    assert_eq!(symbol.value(&ffi).unwrap().to_str(), Some("top"));
    assert!(symbol.to_attribute().is_flat_symbol_ref(&ffi));
    let as_attribute: Attribute = symbol.into();
    assert_eq!(as_attribute.as_raw(), symbol.as_raw());
    let ty = world.plain_type(1);
    let held = TypeAttr::get(ty, &ffi).unwrap();
    assert!(held.eq(&TypeAttr::get(ty, &ffi).unwrap(), &ffi));
    assert!(!held.eq(&TypeAttr::get(world.plain_type(2), &ffi).unwrap(), &ffi));
}

#[test]
fn the_context_is_made_once() {
    let world = World::default();
    let ffi = |call: Call<'_>| world.perform(call);
    let cell: OnceCell<SyncContext> = OnceCell::new();
    let first = context(&cell, &ffi).unwrap().as_raw();
    let second = context(&cell, &ffi).unwrap().as_raw();
    assert!(!first.is_null());
    assert_eq!(first, second);
    assert_eq!(world.calls("ContextCreate"), 1);
}

#[test]
fn without_a_context_the_cell_stays_empty() {
    let world = World::default();
    world.refuse("ContextCreate");
    let ffi = |call: Call<'_>| world.perform(call);
    let cell: OnceCell<SyncContext> = OnceCell::new();
    assert_eq!(context(&cell, &ffi).err(), Some(ContextUnavailable));
    assert!(cell.get().is_none());
    assert_eq!(SyncContext::create(&ffi).err(), Some(ContextUnavailable));
    world.state.borrow_mut().refuse.clear();
    assert!(context(&cell, &ffi).is_ok());
    assert!(cell.get().is_some());
}

#[test]
fn both_ways_in_hand_over_the_context() {
    let sync = SyncContext::new(Context::from_raw(MlirContext { ptr: 4096 }).unwrap());
    assert_eq!(sync.as_raw().ptr, 4096);
    assert_eq!(sync.without_mutex(|cx: MlirContext| cx.ptr + 1), 4097);
    assert_eq!(sync.with_mutex(|cx: MlirContext| cx.ptr + 2).ok(), Some(4098));
    // The lock is free again after each call.
    assert_eq!(sync.with_mutex(|cx: MlirContext| cx.ptr).ok(), Some(4096));
    // The lock does not keep the other way in shut.
    let both = sync.with_mutex(|cx: MlirContext| sync.without_mutex(|again: MlirContext| {
        cx.ptr + again.ptr
    }));
    assert_eq!(both.ok(), Some(8192));
}

#[test]
fn a_held_lock_hands_the_work_back() {
    let sync = SyncContext::new(Context::from_raw(MlirContext { ptr: 4096 }).unwrap());
    let outcome = sync.with_mutex(|outer: MlirContext| {
        // The lock is held here: asking for it again neither waits nor
        // runs the work, and the work comes back to be tried later.
        match sync.with_mutex(|inner: MlirContext| inner.ptr + 1) {
            Ok(ran) => ran,
            Err(work) => work(outer),
        }
    });
    assert_eq!(outcome.ok(), Some(4097));
    let ran = std::cell::Cell::new(false);
    let inner_ran = sync
        .with_mutex(|_: MlirContext| sync.with_mutex(|_: MlirContext| ran.set(true)).is_ok());
    assert_eq!(inner_ran.ok(), Some(false));
    assert!(!ran.get());
    assert!(sync.with_mutex(|_: MlirContext| ran.set(true)).is_ok());
    assert!(ran.get());
}

#[test]
fn a_context_that_comes_too_late_is_released() {
    let world = World::default();
    let cell: OnceCell<SyncContext> = OnceCell::new();
    let plain = |call: Call<'_>| world.perform(call);
    // A dispatcher that fills the cell itself while it is asked for a
    // context: what the outer lookup then makes finds the cell filled.
    let eager = |call: Call<'_>| {
        if let Call::ContextCreate = call {
            assert!(context(&cell, &plain).is_ok());
        }
        world.perform(call)
    };
    let held = context(&cell, &eager).unwrap().as_raw();
    assert_eq!(world.calls("ContextCreate"), 2);
    assert_eq!(world.calls("ContextDestroy"), 1);
    let destroyed = world.state.borrow().destroyed.clone();
    assert_eq!(destroyed.len(), 1);
    assert_ne!(destroyed[0], held.ptr);
    assert_eq!(context(&cell, &eager).unwrap().as_raw(), held);
    assert_eq!(world.calls("ContextCreate"), 2);
    SyncContext::new(Context::from_raw(MlirContext { ptr: 64 }).unwrap()).destroy(&plain);
    assert_eq!(world.state.borrow().destroyed.last(), Some(&64));
}

fn port(world: &World, name: &str, direction: PortDirection, ty: Type, sym: Option<&str>) -> PortInfo {
    let ffi = |call: Call<'_>| world.perform(call);
    PortInfo {
        name: Identifier::get(StringRef::new(name), &ffi).unwrap(),
        direction,
        ty,
        sym: sym.map(|s| Identifier::get(StringRef::new(s), &ffi).unwrap()),
    }
}

#[test]
fn hardware_types_answer_for_their_kind() {
    let world = World::default();
    let ffi = |call: Call<'_>| world.perform(call);
    let i1 = world.plain_type(1);
    let name = Identifier::get(StringRef::new("valid"), &ffi).unwrap();
    let made = struct_ty(&[StructFieldInfo { name, ty: i1 }], &ffi).unwrap();
    assert!(made.is_hw_struct_type(&ffi));
    assert!(!made.is_hw_inout(&ffi));
    assert!(!made.is_hw_array_type(&ffi));
    assert!(!made.is_hw_int_type(&ffi));
    assert!(!made.is_hw_type_alias_type(&ffi));
    assert!(!made.is_hw_value_type(&ffi));
    assert!(made.is_hw(HwTypeKind::Struct, &ffi));
    assert!(!i1.is_hw_struct_type(&ffi));
    assert_eq!(made.as_raw(), struct_ty(&[StructFieldInfo { name, ty: i1 }], &ffi).unwrap().as_raw());
    assert_ne!(made.as_raw(), struct_ty(&[], &ffi).unwrap().as_raw());
}

#[test]
fn inout_ports_get_an_inout_type_once() {
    let world = World::default();
    let ffi = |call: Call<'_>| world.perform(call);
    let i1 = world.plain_type(1);
    let input = port(&world, "a", PortDirection::Input, i1, None);
    assert_eq!(wrap_inout(&input, &ffi).unwrap().as_raw(), i1.as_raw());
    assert_eq!(world.calls("HwTypeIsA"), 0);

    let inout = port(&world, "b", PortDirection::InOut, i1, None);
    let wrapped = wrap_inout(&inout, &ffi).unwrap();
    assert_ne!(wrapped.as_raw(), i1.as_raw());
    assert!(wrapped.is_hw_inout(&ffi));
    assert_eq!(world.calls("HwInOutTypeGet"), 1);

    let already = port(&world, "c", PortDirection::InOut, wrapped, None);
    assert_eq!(wrap_inout(&already, &ffi).unwrap().as_raw(), wrapped.as_raw());
    assert_eq!(world.calls("HwInOutTypeGet"), 1);

    world.refuse("HwInOutTypeGet");
    assert!(wrap_inout(&inout, &ffi).is_none());
}

#[test]
fn exported_ports_name_their_symbol() {
    let world = World::default();
    let ffi = |call: Call<'_>| world.perform(call);
    let sym = Identifier::get(StringRef::new("clk_sym"), &ffi).unwrap();
    let entry = export_port(sym, &ffi).unwrap();
    let name = Identifier::get(StringRef::new("hw.exportPort"), &ffi).unwrap();
    let reference = FlatSymbolRefAttr::new(StringRef::new("clk_sym"), &ffi).unwrap();
    assert_eq!(entry.name.as_raw(), name.as_raw());
    assert_eq!(entry.attribute.as_raw(), reference.as_raw());

    let i1 = world.plain_type(1);
    let exported = port(&world, "clk", PortDirection::Input, i1, Some("clk_sym"));
    let expected = DictionaryAttr::create(&[entry], &ffi).unwrap();
    assert_eq!(port_attrs(&exported, &ffi).unwrap().as_raw(), expected.as_raw());
    let plain = port(&world, "rst", PortDirection::Input, i1, None);
    let empty = DictionaryAttr::create(&[], &ffi).unwrap();
    assert_eq!(port_attrs(&plain, &ffi).unwrap().as_raw(), empty.as_raw());
    assert_ne!(expected.as_raw(), empty.as_raw());

    world.refuse("FlatSymbolRefAttrGet");
    assert!(export_port(sym, &ffi).is_none());
    assert!(port_attrs(&exported, &ffi).is_none());
    assert!(port_attrs(&plain, &ffi).is_some());
}

#[test]
fn a_module_is_built_from_its_ports() {
    let world = World::default();
    let ffi = |call: Call<'_>| world.perform(call);
    let (i1, i8) = (world.plain_type(1), world.plain_type(8));
    let clk = port(&world, "clk", PortDirection::Input, i1, Some("clk_sym"));
    let bus = port(&world, "bus", PortDirection::InOut, i8, None);
    let out = port(&world, "out", PortDirection::Output, i8, None);
    let extra_name = Identifier::get(StringRef::new("extra"), &ffi).unwrap();
    let extra = Attribute::string(StringRef::new("more"), &ffi).unwrap();
    let extras = [NamedAttribute::get(extra_name, extra)];
    let params = ArrayAttr::create(&[], &ffi).unwrap();
    let info = ModuleOpInfo {
        name: StringRef::new("top"),
        ports: ModulePortInfo { inputs: vec![clk, bus], outputs: vec![out] },
        params,
        comment: None,
        attrs: &extras,
    };
    let module = ModuleOp::build(info, &ffi).unwrap();
    let made = world.state.borrow().made[&module.as_raw().ptr].clone();

    let id = |text: &str| Identifier::get(StringRef::new(text), &ffi).unwrap().as_raw().ptr;
    let names: Vec<usize> = made.attributes.iter().map(|a| a.0).collect();
    assert_eq!(
        names,
        vec![
            id("sym_name"),
            id("function_type"),
            id("argNames"),
            id("resultNames"),
            id("arg_attrs"),
            id("res_attrs"),
            id("parameters"),
            id("comment"),
            id("extra"),
        ]
    );
    let values: Vec<usize> = made.attributes.iter().map(|a| a.1).collect();
    let inout = wrap_inout(&bus, &ffi).unwrap();
    let function = FunctionType::get(&[i1, inout], &[i8], &ffi).unwrap();
    let name_of = |p: &PortInfo| Attribute::from_identifier(p.name);
    let attrs_of = |p: &PortInfo| port_attrs(p, &ffi).unwrap();
    let array = |elements: &[Attribute]| ArrayAttr::create(elements, &ffi).unwrap().as_raw().ptr;
    assert_eq!(
        values,
        vec![
            Attribute::string(StringRef::new("top"), &ffi).unwrap().as_raw().ptr,
            TypeAttr::get(function.to_type(), &ffi).unwrap().as_raw().ptr,
            array(&[name_of(&clk), name_of(&bus)]),
            array(&[name_of(&out)]),
            array(&[attrs_of(&clk), attrs_of(&bus)]),
            array(&[attrs_of(&out)]),
            params.as_raw().ptr,
            id(""),
            extra.as_raw().ptr,
        ]
    );
    assert_ne!(values[2], values[4]);
    assert_eq!(made.name, b"hw.module");
    assert_eq!(made.location, Location::unknown(&ffi).unwrap().as_raw().ptr);
    assert!(made.results.is_empty());
    assert!(made.operands.is_empty());
    assert_eq!(made.regions.len(), 1);
    let blocks = world.blocks(made.regions[0]);
    assert_eq!(blocks.len(), 1);
    let unknown = made.location;
    assert_eq!(
        world.state.borrow().arguments[&blocks[0]],
        vec![(i1.as_raw().ptr, unknown), (i8.as_raw().ptr, unknown)]
    );
    assert!(world.state.borrow().destroyed.is_empty());
    assert_eq!(module.into_operation().as_raw().ptr, *world.state.borrow().made.keys().next().unwrap());
}

#[test]
fn a_module_keeps_its_comment() {
    let world = World::default();
    let ffi = |call: Call<'_>| world.perform(call);
    let comment = Identifier::get(StringRef::new("generated"), &ffi).unwrap();
    let info = ModuleOpInfo {
        name: StringRef::new("leaf"),
        ports: ModulePortInfo::default(),
        params: ArrayAttr::create(&[], &ffi).unwrap(),
        comment: Some(comment),
        attrs: &[],
    };
    let module = ModuleOp::build(info, &ffi).unwrap();
    let made = world.state.borrow().made[&module.as_raw().ptr].clone();
    assert_eq!(made.attributes.len(), 8);
    assert_eq!(made.attributes[7].1, comment.as_raw().ptr);
    let blocks = world.blocks(made.regions[0]);
    assert!(world.state.borrow().arguments[&blocks[0]].is_empty());
}

#[test]
fn no_module_comes_of_a_refused_piece() {
    for refused in ["LocationUnknownGet", "FunctionTypeGet", "RegionCreate", "OperationCreate"] {
        let world = World::default();
        let ffi = |call: Call<'_>| world.perform(call);
        let params = ArrayAttr::create(&[], &ffi).unwrap();
        world.refuse(refused);
        let info = ModuleOpInfo {
            name: StringRef::new("top"),
            ports: ModulePortInfo::default(),
            params,
            comment: None,
            attrs: &[],
        };
        assert!(ModuleOp::build(info, &ffi).is_none(), "{}", refused);
    }
}

#[test]
fn a_body_without_a_block_releases_its_region() {
    let world = World::default();
    let ffi = |call: Call<'_>| world.perform(call);
    let params = ArrayAttr::create(&[], &ffi).unwrap();
    world.refuse("BlockCreate");
    let info = ModuleOpInfo {
        name: StringRef::new("top"),
        ports: ModulePortInfo::default(),
        params,
        comment: None,
        attrs: &[],
    };
    assert!(ModuleOp::build(info, &ffi).is_none());
    assert_eq!(world.calls("RegionCreate"), 1);
    assert_eq!(world.calls("RegionDestroy"), 1);
    let regions: Vec<usize> = world.state.borrow().regions.keys().copied().collect();
    assert_eq!(world.state.borrow().destroyed, regions);
    assert_eq!(world.calls("OperationCreate"), 0);
}

#[test]
fn a_module_without_ports_fails_only_where_the_foreign_side_does() {
    let world = World::default();
    let ffi = |call: Call<'_>| world.perform(call);
    let info = ModuleOpInfo {
        name: StringRef::new("leaf"),
        ports: ModulePortInfo::default(),
        params: ArrayAttr::create(&[], &ffi).unwrap(),
        comment: None,
        attrs: &[],
    };
    assert!(ModuleOp::build(info, &ffi).is_some());
    assert!(world.state.borrow().destroyed.is_empty());
}

#[test]
fn work_runs_exactly_when_the_lock_was_taken() {
    let sync = SyncContext::new(Context::from_raw(MlirContext { ptr: 4096 }).unwrap());
    let runs = std::cell::Cell::new(0);
    let work = |cx: MlirContext| {
        runs.set(runs.get() + 1);
        cx.ptr
    };
    assert!(sync.run_if_locked(None, work).is_err());
    assert_eq!(runs.get(), 0);
    let lock = std::sync::Mutex::new(());
    assert_eq!(sync.run_if_locked(Some(lock.lock().unwrap()), work).ok(), Some(4096));
    assert_eq!(runs.get(), 1);
    // The guard went with the call.
    assert!(lock.try_lock().is_ok());
}

#[test]
fn a_context_that_is_found_is_handed_out_and_none_is_made() {
    let world = World::default();
    let ffi = |call: Call<'_>| world.perform(call);
    let cell: OnceCell<SyncContext> = OnceCell::new();
    let other = SyncContext::new(Context::from_raw(MlirContext { ptr: 4096 }).unwrap());
    let found = circt::context::found_or_made(&cell, Some(&other), &ffi).unwrap();
    assert_eq!(found.as_raw().ptr, 4096);
    assert_eq!(world.calls("ContextCreate"), 0);
    assert!(cell.get().is_none());

    let made = circt::context::found_or_made(&cell, None, &ffi).unwrap().as_raw();
    assert_eq!(world.calls("ContextCreate"), 1);
    assert_eq!(cell.get().unwrap().as_raw(), made);

    let late = SyncContext::new(Context::from_raw(MlirContext { ptr: 8192 }).unwrap());
    let held = circt::context::kept(Err((&other, late)), &ffi);
    assert_eq!(held.as_raw().ptr, 4096);
    assert_eq!(world.state.borrow().destroyed, vec![8192]);
    assert_eq!(circt::context::kept(Ok(&other), &ffi).as_raw().ptr, 4096);
    assert_eq!(world.calls("ContextDestroy"), 1);
}
