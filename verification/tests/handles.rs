//! Wrapping raw handles, text views, and the printing callback: everything
//! that needs no foreign side.

use circt::attribute::NamedAttribute;
use circt::block::{Block, BlockMut, BlockRef};
use circt::context::Context;
use circt::dialect::{Dialect, DialectHandle, DialectRegistry};
use circt::fmt::{collect, fmt_callback, FmtError, FmtUserdata};
use circt::foreign::{Access, AttributeKind, Call, HwTypeKind, Reply};
use circt::identifier::Identifier;
use circt::location::Location;
use circt::module::Module;
use circt::operation::{Operation, OperationMut, OperationRef, OperationState};
use circt::raw::{
    MlirAttribute, MlirBlock, MlirContext, MlirDialect, MlirDialectHandle, MlirDialectRegistry,
    MlirIdentifier, MlirLocation, MlirModule, MlirNamedAttribute, MlirOperation, MlirRegion,
    MlirStringRef, MlirSymbolTable, MlirType, MlirValue,
};
use circt::region::{Region, RegionMut, RegionRef};
use circt::string_ref::StringRef;
use circt::symbol_table::SymbolTable;
use circt::ty::{FunctionType, Type};
use circt::value::Value;
use circt::Attribute;

#[test]
fn null_handles_wrap_to_nothing() {
    assert!(Attribute::from_raw(MlirAttribute::null()).is_none());
    assert!(Block::from_raw(MlirBlock::null()).is_none());
    assert!(BlockRef::from_raw(MlirBlock::null()).is_none());
    assert!(BlockMut::from_raw(MlirBlock::null()).is_none());
    assert!(Context::from_raw(MlirContext::null()).is_none());
    assert!(Dialect::from_raw(MlirDialect::null()).is_none());
    assert!(DialectHandle::from_raw(MlirDialectHandle::null()).is_none());
    assert!(DialectRegistry::from_raw(MlirDialectRegistry::null()).is_none());
    assert!(Identifier::from_raw(MlirIdentifier::null()).is_none());
    assert!(Location::from_raw(MlirLocation::null()).is_none());
    assert!(Module::from_raw(MlirModule::null()).is_none());
    assert!(Operation::from_raw(MlirOperation::null()).is_none());
    assert!(OperationRef::from_raw(MlirOperation::null()).is_none());
    assert!(OperationMut::from_raw(MlirOperation::null()).is_none());
    assert!(Region::from_raw(MlirRegion::null()).is_none());
    assert!(RegionRef::from_raw(MlirRegion::null()).is_none());
    assert!(RegionMut::from_raw(MlirRegion::null()).is_none());
    assert!(SymbolTable::from_raw(MlirSymbolTable::null()).is_none());
    assert!(Type::from_raw(MlirType::null()).is_none());
    assert!(Value::from_raw(MlirValue::null()).is_none());
    assert!(FunctionType::from_raw(MlirType::null()).is_none());
}

#[test]
fn live_handles_come_back_unchanged() {
    assert_eq!(Attribute::from_raw(MlirAttribute { ptr: 8 }).unwrap().as_raw().ptr, 8);
    assert_eq!(Block::from_raw(MlirBlock { ptr: 16 }).unwrap().as_raw().ptr, 16);
    assert_eq!(BlockRef::from_raw(MlirBlock { ptr: 24 }).unwrap().as_raw().ptr, 24);
    assert_eq!(Context::from_raw(MlirContext { ptr: 32 }).unwrap().as_raw().ptr, 32);
    assert_eq!(Identifier::from_raw(MlirIdentifier { ptr: 40 }).unwrap().as_raw().ptr, 40);
    assert_eq!(Location::from_raw(MlirLocation { ptr: 48 }).unwrap().as_raw().ptr, 48);
    assert_eq!(Operation::from_raw(MlirOperation { ptr: 56 }).unwrap().as_raw().ptr, 56);
    assert_eq!(Region::from_raw(MlirRegion { ptr: 64 }).unwrap().as_raw().ptr, 64);
    assert_eq!(Type::from_raw(MlirType { ptr: 72 }).unwrap().as_raw().ptr, 72);
    assert_eq!(Value::from_raw(MlirValue { ptr: usize::MAX }).unwrap().as_raw().ptr, usize::MAX);
    assert_eq!(Module::from_raw(MlirModule { ptr: 1 }).unwrap().into_raw(), MlirModule { ptr: 1 });
}

#[test]
fn raw_handle_is_null_only_at_zero() {
    assert!(MlirBlock::null().is_null());
    assert!(MlirBlock { ptr: 0 }.is_null());
    assert!(!MlirBlock { ptr: 1 }.is_null());
}

#[test]
fn string_view_leaves_out_the_terminator() {
    let view = StringRef::from("hw.module\0");
    assert_eq!(view.as_bytes(), b"hw.module");
    assert_eq!(view.to_str(), Some("hw.module"));
    assert_eq!(view.as_raw().length(), 9);
}

#[test]
fn string_view_of_unterminated_text_is_the_text() {
    let text = String::from("argNames");
    let view = StringRef::from(&text);
    assert_eq!(view.as_bytes(), b"argNames");
    assert_eq!(view.to_str(), Some("argNames"));
}

#[test]
fn string_view_leaves_out_one_terminator_only() {
    assert_eq!(StringRef::new("a\0\0").as_bytes(), b"a\0");
    assert_eq!(StringRef::new("\0").as_bytes(), b"");
    assert_eq!(StringRef::new("").as_bytes(), b"");
    assert_eq!(StringRef::new("a\0b").as_bytes(), b"a\0b");
}

#[test]
fn string_view_keeps_text_beyond_ascii() {
    let view = StringRef::new("größe\0");
    assert_eq!(view.to_str(), Some("größe"));
    assert_eq!(view.as_bytes().len(), 7);
}

#[test]
fn string_view_of_bad_bytes_is_no_text() {
    let bytes = [0x66u8, 0xff, 0x6f];
    let view = StringRef::from_raw(MlirStringRef { data: &bytes });
    assert_eq!(view.as_bytes(), &bytes);
    assert_eq!(view.to_str(), None);
    let cut = [0xe2u8, 0x82];
    assert_eq!(StringRef::from_raw(MlirStringRef { data: &cut }).to_str(), None);
}

#[test]
fn callback_forwards_valid_chunks_in_order() {
    let mut userdata = FmtUserdata::new(String::from("> "));
    fmt_callback(MlirStringRef { data: b"i32" }, &mut userdata);
    fmt_callback(MlirStringRef { data: b"" }, &mut userdata);
    fmt_callback(MlirStringRef { data: " → i1".as_bytes() }, &mut userdata);
    assert!(!userdata.failed());
    assert_eq!(userdata.finish(), Ok(String::from("> i32 → i1")));
}

#[test]
fn callback_fails_on_a_bad_chunk_and_stays_failed() {
    let mut userdata = FmtUserdata::new(String::new());
    fmt_callback(MlirStringRef { data: b"ok" }, &mut userdata);
    fmt_callback(MlirStringRef { data: &[0xc0u8, 0x20] }, &mut userdata);
    assert!(userdata.failed());
    fmt_callback(MlirStringRef { data: b"more" }, &mut userdata);
    assert!(userdata.failed());
    assert_eq!(userdata.finish(), Err(FmtError));
}

#[test]
fn callback_checks_each_chunk_by_itself() {
    // A character split over two chunks is two bad chunks.
    let euro = "€".as_bytes();
    let mut userdata = FmtUserdata::new(String::new());
    fmt_callback(MlirStringRef { data: &euro[..1] }, &mut userdata);
    assert!(userdata.failed());
}

#[test]
fn collect_joins_chunks() {
    let chunks = vec![b"func".to_vec(), b".".to_vec(), b"func".to_vec()];
    assert_eq!(collect(&chunks), Ok(String::from("func.func")));
    assert_eq!(collect(&Vec::new()), Ok(String::new()));
    let bad = vec![b"a".to_vec(), vec![0x80u8], b"b".to_vec()];
    assert_eq!(collect(&bad), Err(FmtError));
}

#[test]
fn calls_on_the_context_are_classified() {
    let handle = MlirDialectHandle { ptr: 8 };
    assert_eq!(Call::DialectHandleRegisterDialect { handle }.access(), Access::Exclusive);
    assert_eq!(Call::DialectHandleLoadDialect { handle }.access(), Access::Exclusive);
    let text = MlirStringRef { data: b"module {}" };
    assert_eq!(Call::ModuleCreateParse { module: text }.access(), Access::Exclusive);
    assert_eq!(Call::IdentifierGet { name: text }.access(), Access::Shared);
    assert_eq!(Call::StringAttrGet { value: text }.access(), Access::Shared);
    assert_eq!(Call::FlatSymbolRefAttrGet { symbol: text }.access(), Access::Shared);
    assert_eq!(Call::ArrayAttrGet { elements: &[] }.access(), Access::Shared);
    assert_eq!(Call::DictionaryAttrGet { elements: &[] }.access(), Access::Shared);
    assert_eq!(Call::TypeAttrGet { ty: MlirType { ptr: 8 } }.access(), Access::Shared);
    assert_eq!(Call::LocationUnknownGet.access(), Access::Shared);
    assert_eq!(
        Call::LocationFileLineColGet { filename: text, line: 1, col: 2 }.access(),
        Access::Shared
    );
    assert_eq!(
        Call::LocationFusedGet { locations: &[], metadata: MlirAttribute { ptr: 8 } }.access(),
        Access::Shared
    );
    assert_eq!(Call::FunctionTypeGet { inputs: &[], results: &[] }.access(), Access::Shared);
    assert_eq!(Call::HwStructTypeGet { fields: &[] }.access(), Access::Shared);
    assert_eq!(Call::HwInOutTypeGet { element: MlirType { ptr: 8 } }.access(), Access::Shared);
    assert_eq!(Call::BlockCreate { args: &[], locs: &[] }.access(), Access::Direct);
    assert_eq!(Call::RegionCreate.access(), Access::Direct);
    assert_eq!(Call::ContextCreate.access(), Access::Direct);
    assert_eq!(
        Call::AttributeIsA { kind: AttributeKind::Unit, attr: MlirAttribute { ptr: 8 } }.access(),
        Access::Direct
    );
    assert_eq!(
        Call::HwTypeIsA { kind: HwTypeKind::Int, ty: MlirType { ptr: 8 } }.access(),
        Access::Direct
    );
    assert_eq!(Call::BlockDetach { block: MlirBlock { ptr: 8 } }.access(), Access::Direct);
}

#[test]
fn replies_of_another_kind_read_as_nothing() {
    assert!(Reply::Done.block().is_null());
    assert!(Reply::Flag(true).attribute().is_null());
    assert!(Reply::Type(MlirType { ptr: 8 }).operation().is_null());
    assert_eq!(Reply::Type(MlirType { ptr: 8 }).ty(), MlirType { ptr: 8 });
    assert!(!Reply::Done.flag());
    assert!(!Reply::Block(MlirBlock { ptr: 8 }).flag());
    assert!(Reply::Flag(true).flag());
    assert!(!Reply::Flag(false).flag());
    assert!(Reply::Done.text().is_none());
    assert_eq!(Reply::Text(MlirStringRef { data: b"hw" }).text().unwrap().data, b"hw");
}

fn ident(ptr: usize) -> Identifier {
    Identifier::from_raw(MlirIdentifier { ptr }).unwrap()
}

fn attr(ptr: usize) -> Attribute {
    Attribute::from_raw(MlirAttribute { ptr }).unwrap()
}

#[test]
fn named_attribute_pairs_what_it_is_given() {
    let named = NamedAttribute::get(ident(8), attr(16));
    assert_eq!(named.name.as_raw().ptr, 8);
    assert_eq!(named.attribute.as_raw().ptr, 16);
    assert_eq!(
        named.as_raw(),
        MlirNamedAttribute { name: MlirIdentifier { ptr: 8 }, attribute: MlirAttribute { ptr: 16 } }
    );
}

#[test]
fn identifier_is_the_same_address_as_an_attribute() {
    assert_eq!(Attribute::from_identifier(ident(4096)).as_raw().ptr, 4096);
}

#[test]
fn state_keeps_what_is_added_in_order() {
    let loc = Location::from_raw(MlirLocation { ptr: 8 }).unwrap();
    let mut state = OperationState::get(StringRef::new("test.op"), loc);
    assert_eq!(state.num_regions(), 0);
    let view = state.add_region(Region::from_raw(MlirRegion { ptr: 16 }).unwrap());
    assert_eq!(view.as_raw().ptr, 16);
    assert_eq!(state.num_regions(), 1);
    state.add_regions(vec![
        Region::from_raw(MlirRegion { ptr: 24 }).unwrap(),
        Region::from_raw(MlirRegion { ptr: 32 }).unwrap(),
    ]);
    assert_eq!(state.num_regions(), 3);
    state.add_regions(Vec::new());
    assert_eq!(state.num_regions(), 3);
}

#[test]
fn an_owned_value_is_given_out_once() {
    let mut owned = circt::owned::Owned::new(Block::from_raw(MlirBlock { ptr: 8 }).unwrap());
    assert!(owned.is_held());
    assert_eq!(owned.get().unwrap().as_raw().ptr, 8);
    assert_eq!(owned.take().unwrap().as_raw().ptr, 8);
    assert!(!owned.is_held());
    assert!(owned.get().is_none());
    assert!(owned.take().is_none());
    assert!(owned.take().is_none());
}

#[test]
fn an_identifier_converts_to_the_attribute_it_is() {
    let converted: Attribute = ident(512).into();
    assert_eq!(converted.as_raw().ptr, 512);
    assert_eq!(Attribute::from(ident(520)).as_raw().ptr, 520);
}

#[test]
fn an_owned_value_is_released_once_and_not_after_it_was_handed_on() {
    let released = std::cell::RefCell::new(Vec::new());
    let release = |block: Block| released.borrow_mut().push(block.as_raw().ptr);

    let mut kept = circt::owned::Owned::new(Block::from_raw(MlirBlock { ptr: 8 }).unwrap());
    assert!(kept.release_with(release).is_ok());
    assert_eq!(*released.borrow(), vec![8]);
    assert!(!kept.is_held());
    assert!(kept.release_with(release).is_err());
    assert!(kept.release_with(release).is_err());
    assert_eq!(*released.borrow(), vec![8]);

    let mut handed = circt::owned::Owned::new(Block::from_raw(MlirBlock { ptr: 16 }).unwrap());
    assert_eq!(handed.take().unwrap().into_raw().ptr, 16);
    assert!(handed.release_with(release).is_err());
    assert_eq!(*released.borrow(), vec![8]);
}
