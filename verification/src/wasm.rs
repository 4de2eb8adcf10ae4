//! The boundary to `parity_wasm`, which reads and writes the binary format.
//!
//! Nothing in this file is proved. Each item either declares a type of
//! `parity_wasm`, names what one of its functions returns, or calls one of
//! them under a contract that is taken on trust.

use vstd::prelude::*;
use vstd::utf8::encode_utf8;
use parity_wasm::elements as raw;
use parity_wasm::elements::{FunctionNameSubsection, Module, NameMap, NameSection};
use crate::parse::function::{Instruction, ValueType};
use crate::parse::sections::{DataSegment, FunctionType, Local, ModuleSectionsView};

verus! {

/// A decoded module, as `parity_wasm` holds it.
#[verifier::external_type_specification]
#[verifier::external_body]
pub struct ExModule(parity_wasm::elements::Module);

/// The error of `parity_wasm`'s readers and writers.
#[verifier::external_type_specification]
#[verifier::external_body]
pub struct ExError(parity_wasm::elements::Error);

/// `parity_wasm`'s map from `u32` indices to values; with `String` values
/// it is its `NameMap`.
#[verifier::external_type_specification]
#[verifier::external_body]
#[verifier::reject_recursive_types(T)]
pub struct ExIndexMap<T>(parity_wasm::elements::IndexMap<T>);

/// The function names of a name section, as `parity_wasm` holds them.
#[verifier::external_type_specification]
#[verifier::external_body]
pub struct ExFunctionNameSubsection(parity_wasm::elements::FunctionNameSubsection);

/// A name section, as `parity_wasm` holds it.
#[verifier::external_type_specification]
#[verifier::external_body]
pub struct ExNameSection(parity_wasm::elements::NameSection);

/// The module that `parity_wasm::deserialize_buffer` reads from `bytes`;
/// `None` where it refuses them.
pub uninterp spec fn module_decoded(bytes: Seq<u8>) -> Option<Module>;

/// The module that `Module::parse_names` makes of `module`; `None` where a
/// name section of `module` cannot be parsed.
pub uninterp spec fn names_parsed(module: Module) -> Option<Module>;

/// What `module` holds in the sections that the decoder reads, as the
/// accessors of `Module` give it.
pub uninterp spec fn module_sections(module: Module) -> ModuleSectionsView;

/// The entries of a name map: the name that it holds for each index.
pub uninterp spec fn name_map_entries(names: NameMap) -> Map<u32, Seq<char>>;

/// The bytes that `parity_wasm::serialize` writes for a name map with these
/// entries.
pub uninterp spec fn name_map_bytes(entries: Map<u32, Seq<char>>) -> Seq<u8>;

/// The function names that `FunctionNameSubsection::deserialize` reads from
/// `payload` for `module`; `None` where it refuses them.
pub uninterp spec fn function_names_read(module: Module, payload: Seq<u8>) -> Option<
    FunctionNameSubsection,
>;

/// The name section that `NameSection::new` makes of `functions` alone,
/// without a module name and without names of locals.
pub uninterp spec fn name_section_with(functions: FunctionNameSubsection) -> NameSection;

/// The module that `Module::insert_section` makes of `module` when it is
/// given the name section `names`.
pub uninterp spec fn module_with_names(module: Module, names: NameSection) -> Module;

/// The bytes that `parity_wasm::serialize` writes for `module`.
pub uninterp spec fn module_bytes(module: Module) -> Seq<u8>;

/// The entries of a name map that holds nothing.
pub open spec fn no_names() -> Map<u32, Seq<char>> {
    Map::empty()
}

/// The name that `entries` holds for `index`, if any.
pub open spec fn name_at(entries: Map<u32, Seq<char>>, index: u32) -> Option<Seq<char>> {
    if entries.contains_key(index) {
        Some(entries[index])
    } else {
        None
    }
}

/// Whether the length of `name` in bytes can be written as a `u32`.
pub open spec fn name_fits(name: Seq<char>) -> bool {
    encode_utf8(name).len() <= u32::MAX
}

/// Whether each name of `names` fits.
pub open spec fn names_fit(names: Map<u32, Seq<char>>) -> bool {
    forall|index: u32| names.contains_key(index) ==> name_fits(#[trigger] names[index])
}

/// Whether a name map with these entries can be written: their number and
/// the length of each name can be written as a `u32`.
pub open spec fn names_writable(entries: Map<u32, Seq<char>>) -> bool {
    entries.dom().finite() && entries.dom().len() <= u32::MAX && names_fit(entries)
}

/// The most bytes of function names with which a name section can still be
/// written: its header takes the rest of what a `u32` counts.
pub const MAX_NAME_PAYLOAD: usize = 0xFFFF_FFEF;

/// Whether `module` is a module that was read from bytes, with a name
/// section added whose function names were read from at most
/// `MAX_NAME_PAYLOAD` bytes.
pub open spec fn module_writable(module: Module) -> bool {
    exists|source: Seq<u8>, payload: Seq<u8>|
        #![trigger module_decoded(source), function_names_read(module_decoded(source)->Some_0, payload)]
        {
            &&& module_decoded(source) is Some
            &&& payload.len() <= MAX_NAME_PAYLOAD
            &&& function_names_read(module_decoded(source)->Some_0, payload) is Some
            &&& module_with_names(
                module_decoded(source)->Some_0,
                name_section_with(
                    function_names_read(module_decoded(source)->Some_0, payload)->Some_0,
                ),
            ) == module
        }
}

/// Calls `parity_wasm::deserialize_buffer`. It reads the magic number first,
/// so it refuses an empty buffer.
#[verifier::external_body]
pub(crate) fn decode_module(bytes: &[u8]) -> (r: Result<Module, parity_wasm::elements::Error>)
    ensures
        match r {
            Ok(module) => module_decoded(bytes@) == Some(module),
            Err(_) => module_decoded(bytes@) is None,
        },
        bytes@.len() == 0 ==> r is Err,
{
    parity_wasm::deserialize_buffer::<Module>(bytes)
}

/// Calls `Module::parse_names`, which turns each custom section called
/// `name` into a parsed name section.
#[verifier::external_body]
pub(crate) fn parse_names(module: Module) -> (r: Option<Module>)
    ensures
        r == names_parsed(module),
{
    module.parse_names().ok()
}

/// Calls `Module::import_count`, which counts the imports that are
/// functions.
#[verifier::external_body]
pub(crate) fn imported_function_count(module: &Module) -> (count: usize)
    ensures
        count == module_sections(*module).imported_functions,
{
    module.import_count(raw::ImportCountType::Function)
}

/// Calls `Module::type_section` and counts the entries that
/// `TypeSection::types` gives.
#[verifier::external_body]
pub(crate) fn type_count(module: &Module) -> (count: Option<usize>)
    ensures
        match count {
            Some(n) => module_sections(*module).types is Some && n == module_sections(
                *module,
            ).types->Some_0.len(),
            None => module_sections(*module).types is None,
        },
{
    module.type_section().map(|section| section.types().len())
}

/// Reads the entry at `index` of `TypeSection::types`: what
/// `FunctionType::params` and `FunctionType::return_type` give for it, each
/// value type as the variant of the same name.
#[verifier::external_body]
pub(crate) fn type_at(module: &Module, index: usize) -> (signature: FunctionType)
    requires
        module_sections(*module).types is Some,
        index < module_sections(*module).types->Some_0.len(),
    ensures
        signature.deep_view() == module_sections(*module).types->Some_0[index as int],
{
    let raw::Type::Function(signature) = &module.type_section().unwrap().types()[index];
    let plain = |value_type: &raw::ValueType| match value_type {
        raw::ValueType::I32 => ValueType::I32,
        raw::ValueType::I64 => ValueType::I64,
        raw::ValueType::F32 => ValueType::F32,
        raw::ValueType::F64 => ValueType::F64,
    };
    FunctionType {
        params: signature.params().iter().map(plain).collect(),
        return_type: signature.return_type().as_ref().map(plain),
    }
}

/// Calls `Module::function_section` and reads, with `Func::type_ref`, the
/// type index of each entry of `FunctionSection::entries`.
#[verifier::external_body]
pub(crate) fn function_type_refs(module: &Module) -> (refs: Option<Vec<u32>>)
    ensures
        refs.deep_view() == module_sections(*module).functions,
{
    module.function_section().map(|section| section.entries().iter().map(|f| f.type_ref()).collect())
}

/// Calls `Module::code_section` and counts the bodies that
/// `CodeSection::bodies` gives.
#[verifier::external_body]
pub(crate) fn body_count(module: &Module) -> (count: Option<usize>)
    ensures
        match count {
            Some(n) => module_sections(*module).code is Some && n == module_sections(
                *module,
            ).code->Some_0.len(),
            None => module_sections(*module).code is None,
        },
{
    module.code_section().map(|section| section.bodies().len())
}

/// Reads what `FuncBody::locals` gives for the body at `index` of
/// `CodeSection::bodies`: for each run of locals what `Local::count` and
/// `Local::value_type` give.
#[verifier::external_body]
pub(crate) fn body_locals(module: &Module, index: usize) -> (locals: Vec<Local>)
    requires
        module_sections(*module).code is Some,
        index < module_sections(*module).code->Some_0.len(),
    ensures
        locals@ == module_sections(*module).code->Some_0[index as int].locals,
{
    let locals = module.code_section().unwrap().bodies()[index].locals();
    locals.iter().map(|local| Local {
        count: local.count(),
        value_type: match local.value_type() {
            raw::ValueType::I32 => ValueType::I32,
            raw::ValueType::I64 => ValueType::I64,
            raw::ValueType::F32 => ValueType::F32,
            raw::ValueType::F64 => ValueType::F64,
        },
    }).collect()
}

/// Reads the instructions that `FuncBody::code` gives for the body at `index`
/// of `CodeSection::bodies`. The four kinds that have a variant here are
/// handed on with their operands; every other instruction is handed on as the
/// bytes that `parity_wasm::serialize` writes for it: its opcode, then its
/// operands, each in the one form that the writer has for it, so that two
/// instructions give the same bytes only where they are equal.
#[verifier::external_body]
pub(crate) fn body_instructions(module: &Module, index: usize) -> (code: Vec<Instruction>)
    requires
        module_sections(*module).code is Some,
        index < module_sections(*module).code->Some_0.len(),
    ensures
        code.deep_view() == module_sections(*module).code->Some_0[index as int].instructions,
{
    let code = module.code_section().unwrap().bodies()[index].code().elements();
    code.iter().map(|instruction| match instruction {
        raw::Instruction::I32Store(align, offset) => Instruction::I32Store(*align, *offset),
        raw::Instruction::I32Const(value) => Instruction::I32Const(*value),
        raw::Instruction::Call(callee) => Instruction::Call(*callee),
        raw::Instruction::CallIndirect(ty, table) => Instruction::CallIndirect(*ty, *table),
        other => Instruction::Other(parity_wasm::serialize(other.clone()).unwrap_or_default()),
    }).collect()
}

/// Calls `Module::data_section` and counts the segments that
/// `DataSection::entries` gives.
#[verifier::external_body]
pub(crate) fn data_segment_count(module: &Module) -> (count: Option<usize>)
    ensures
        match count {
            Some(n) => module_sections(*module).data is Some && n == module_sections(
                *module,
            ).data->Some_0.len(),
            None => module_sections(*module).data is None,
        },
{
    module.data_section().map(|section| section.entries().len())
}

/// Reads the segment at `index` of `DataSection::entries`: the instructions
/// that `DataSegment::offset` gives, handed on as `body_instructions` does,
/// and the bytes that `DataSegment::value` gives.
#[verifier::external_body]
pub(crate) fn data_segment_at(module: &Module, index: usize) -> (segment: DataSegment)
    requires
        module_sections(*module).data is Some,
        index < module_sections(*module).data->Some_0.len(),
    ensures
        segment.deep_view() == module_sections(*module).data->Some_0[index as int],
{
    let segment = &module.data_section().unwrap().entries()[index];
    let plain = |instruction: &raw::Instruction| match instruction {
        raw::Instruction::I32Store(align, offset) => Instruction::I32Store(*align, *offset),
        raw::Instruction::I32Const(value) => Instruction::I32Const(*value),
        raw::Instruction::Call(callee) => Instruction::Call(*callee),
        raw::Instruction::CallIndirect(ty, table) => Instruction::CallIndirect(*ty, *table),
        other => Instruction::Other(parity_wasm::serialize(other.clone()).unwrap_or_default()),
    };
    let offset = segment.offset().as_ref().map(|e| e.code().iter().map(plain).collect());
    DataSegment { offset, value: segment.value().to_vec() }
}

/// Calls `Module::names_section`, which gives the first name section that
/// has been parsed, and copies what `FunctionNameSubsection::names` gives for
/// its function names, if it has any.
#[verifier::external_body]
pub(crate) fn function_names(module: &Module) -> (names: Option<NameMap>)
    ensures
        match names {
            Some(map) => module_sections(*module).function_names == Some(name_map_entries(map)),
            None => module_sections(*module).function_names is None,
        },
{
    module.names_section().and_then(|section| section.functions()).map(|f| f.names().clone())
}

/// Calls `IndexMap::with_capacity`, which makes a map without entries.
#[verifier::external_body]
pub(crate) fn name_map_with_capacity(capacity: usize) -> (names: NameMap)
    ensures
        name_map_entries(names) == no_names(),
{
    NameMap::with_capacity(capacity)
}

/// Calls `IndexMap::insert`, which sets the entry for `index` to `name` and
/// leaves every other entry as it was.
#[verifier::external_body]
pub(crate) fn name_map_insert(names: &mut NameMap, index: u32, name: String)
    ensures
        name_map_entries(*final(names)) == name_map_entries(*old(names)).insert(index, name@),
{
    names.insert(index, name);
}

/// Calls `IndexMap::get`, which returns the entry for `index` if there is
/// one; the name is copied.
#[verifier::external_body]
pub(crate) fn name_map_get(names: &NameMap, index: u32) -> (name: Option<String>)
    ensures
        name.deep_view() == name_at(name_map_entries(*names), index),
{
    names.get(index).cloned()
}

/// Calls `parity_wasm::serialize` on a copy of `names`. It writes the number
/// of entries, then each index with its name in the order of the indices, and
/// panics where a number or a length does not fit a `u32`. It writes into a
/// vector, which takes every write, so it does not fail.
#[verifier::external_body]
pub(crate) fn serialize_name_map(names: &NameMap) -> (r: Result<
    Vec<u8>,
    parity_wasm::elements::Error,
>)
    requires
        names_writable(name_map_entries(*names)),
    ensures
        r is Ok,
        r matches Ok(bytes) ==> bytes@ == name_map_bytes(name_map_entries(*names)),
{
    parity_wasm::serialize(names.clone())
}

/// Calls `FunctionNameSubsection::deserialize`, which reads function names
/// and refuses an index that `module` has no function for.
#[verifier::external_body]
pub(crate) fn read_function_names(module: &Module, payload: &[u8]) -> (r: Result<
    FunctionNameSubsection,
    parity_wasm::elements::Error,
>)
    ensures
        match r {
            Ok(functions) => function_names_read(*module, payload@) == Some(functions),
            Err(_) => function_names_read(*module, payload@) is None,
        },
{
    FunctionNameSubsection::deserialize(module, &mut std::io::Cursor::new(payload))
}

/// Calls `NameSection::new` with `functions` as the only part.
#[verifier::external_body]
pub(crate) fn name_section_of_functions(functions: FunctionNameSubsection) -> (section: NameSection)
    ensures
        section == name_section_with(functions),
{
    NameSection::new(None, Some(functions), None)
}

/// Calls `Module::insert_section` with `names` as a `Section::Name`. Such a
/// section may stand anywhere and any number of times, so it is always taken,
/// and put behind the sections that `module` holds.
#[verifier::external_body]
pub(crate) fn insert_name_section(module: &mut Module, names: NameSection) -> (r: Result<
    (),
    parity_wasm::elements::Error,
>)
    ensures
        r is Ok,
        *final(module) == module_with_names(*old(module), names),
{
    module.insert_section(raw::Section::Name(names))
}

/// Calls `parity_wasm::serialize` on `module`. It panics where a length that
/// it has to write does not fit a `u32`. A module that was read from bytes
/// holds no such length, and neither does one name section more, as long as
/// its names leave room for its header. It writes into a vector, which takes
/// every write, so it does not fail.
#[verifier::external_body]
pub(crate) fn serialize_module(module: Module) -> (r: Result<Vec<u8>, parity_wasm::elements::Error>)
    requires
        module_writable(module),
    ensures
        r is Ok,
        r matches Ok(bytes) ==> bytes@ == module_bytes(module),
{
    parity_wasm::serialize(module)
}

} // verus!
