//! Decoding a module into the records that the matcher works on.

pub mod function;
pub mod sections;

pub use function::{Function, FunctionView, Instruction, InstructionView, ValueType};
pub use sections::{
    DataSegment, DataSegmentView, FunctionBody, FunctionBodyView, FunctionType, FunctionTypeView,
    Local, ModuleSections, ModuleSectionsView,
};

use vstd::prelude::*;
use crate::parse::function::copy_bytes;
use parity_wasm::elements::Module;
use crate::wasm::{
    body_count, body_instructions, body_locals, data_segment_at, data_segment_count,
    function_names, function_type_refs, imported_function_count, module_sections, name_at,
    name_map_get, type_at, type_count,
};

verus! {

/// Why a module cannot be decoded.
#[derive(Debug, PartialEq, Eq)]
pub enum ParseError {
    /// The offset of a data segment is not a single `i32.const`.
    InvalidOffsetInstruction,
    /// The module lacks the section of this name.
    MissingSection(&'static str),
    /// A function names a type that the type section does not hold.
    UnknownFunctionType,
    /// The functions of the module have more indices than `u32` has values.
    TooManyFunctions,
}

/// The bytes of a data segment, at the place where the module loads them.
#[derive(Debug, PartialEq, Eq)]
pub struct DataRegion {
    start: u32,
    end: u32,
    data: Vec<u8>,
}

/// The mathematical value of a [`DataRegion`]: where it starts, and its
/// bytes.
#[verifier::ext_equal]
pub struct DataRegionView {
    pub start: u32,
    pub data: Seq<u8>,
}

impl DataRegionView {
    /// The end of the region: its start plus the number of its bytes.
    pub open spec fn end(self) -> int {
        self.start + self.data.len()
    }

    /// Whether `offset` lies in the region, the end included.
    pub open spec fn contains(self, offset: u32) -> bool {
        self.start <= offset <= self.end()
    }
}

impl DeepView for DataRegion {
    type V = DataRegionView;

    closed spec fn deep_view(&self) -> DataRegionView {
        DataRegionView { start: self.start, data: self.data@ }
    }
}

/// The address that an `i32.const` of `value` stands for: the same 32 bits,
/// read without a sign.
pub open spec fn address_of(value: i32) -> u32 {
    if value >= 0 {
        value as u32
    } else {
        (value + 0x1_0000_0000) as u32
    }
}

/// Computes [`address_of`].
pub fn address(value: i32) -> (r: u32)
    ensures
        r == address_of(value),
{
    if value >= 0 {
        value as u32
    } else {
        let wide: i64 = value as i64 + 0x1_0000_0000i64;
        wide as u32
    }
}

/// The encoding of the instruction `end`.
pub open spec fn end_instruction() -> InstructionView {
    InstructionView::Other(seq![0x0bu8])
}

/// The value of an expression that is a single `i32.const`, with or without
/// the `end` that closes it.
pub open spec fn constant_of(code: Seq<InstructionView>) -> Option<i32> {
    if code.len() >= 1 && code[0] is I32Const && (code.len() == 1 || (code.len() == 2 && code[1]
        == end_instruction())) {
        Some(code[0]->I32Const_0)
    } else {
        None
    }
}

/// The region of a data segment, if its offset is a single `i32.const`.
pub open spec fn region_of(segment: DataSegmentView) -> Option<DataRegionView> {
    match segment.offset {
        Some(code) => match constant_of(code) {
            Some(value) => Some(DataRegionView { start: address_of(value), data: segment.value }),
            None => None,
        },
        None => None,
    }
}

/// The regions of all of `segments`, in their order, if each has one.
pub open spec fn regions_of(segments: Seq<DataSegmentView>) -> Option<Seq<DataRegionView>> {
    if forall|i: int| 0 <= i < segments.len() ==> (#[trigger] region_of(segments[i])) is Some {
        Some(Seq::new(segments.len(), |i: int| region_of(segments[i])->Some_0))
    } else {
        None
    }
}

/// One value type for each local that `locals` declares, in their order.
pub open spec fn flatten_locals(locals: Seq<Local>) -> Seq<ValueType>
    decreases locals.len(),
{
    if locals.len() == 0 {
        Seq::empty()
    } else {
        flatten_locals(locals.drop_last()) + Seq::new(
            locals.last().count as nat,
            |i: int| locals.last().value_type,
        )
    }
}

impl DataRegion {
    #[verifier::type_invariant]
    spec fn bounded(self) -> bool {
        self.end == if self.start + self.data@.len() <= u32::MAX {
            self.start + self.data@.len()
        } else {
            u32::MAX as int
        }
    }

    /// A region of `data` that starts at `start`.
    pub fn new(start: u32, data: Vec<u8>) -> (region: DataRegion)
        ensures
            region.deep_view() == (DataRegionView { start, data: data@ }),
    {
        let room: u32 = u32::MAX - start;
        let end: u32 = if data.len() > room as usize {
            u32::MAX
        } else {
            start + data.len() as u32
        };
        DataRegion { start, end, data }
    }

    /// The region of a data segment. The offset of the segment has to be a
    /// single `i32.const`.
    pub fn try_from(segment: &DataSegment) -> (r: Result<DataRegion, ParseError>)
        ensures
            match r {
                Ok(region) => region_of(segment.deep_view()) == Some(region.deep_view()),
                Err(e) => e == ParseError::InvalidOffsetInstruction && region_of(
                    segment.deep_view(),
                ) is None,
            },
    {
        let code = match &segment.offset {
            Some(code) => code,
            None => { return Err(ParseError::InvalidOffsetInstruction); },
        };
        if code.len() == 0 || code.len() > 2 {
            return Err(ParseError::InvalidOffsetInstruction);
        }
        assert(code.deep_view()[0] == code[0].deep_view());
        if code.len() == 2 {
            assert(code.deep_view()[1] == code[1].deep_view());
            let closed = match &code[1] {
                Instruction::Other(bytes) => bytes.len() == 1 && bytes[0] == 0x0b,
                _ => false,
            };
            assert(closed == (code[1].deep_view() == end_instruction())) by {
                if closed {
                    assert(code[1].deep_view()->Other_0 =~= seq![0x0bu8]);
                } else if code[1].deep_view() == end_instruction() {
                    assert(seq![0x0bu8].len() == 1 && seq![0x0bu8][0] == 0x0bu8);
                }
            }
            if !closed {
                return Err(ParseError::InvalidOffsetInstruction);
            }
        }
        match &code[0] {
            Instruction::I32Const(value) => Ok(
                DataRegion::new(address(*value), copy_bytes(segment.value.as_slice())),
            ),
            _ => Err(ParseError::InvalidOffsetInstruction),
        }
    }

    /// The address of the first byte.
    pub fn start(&self) -> (start: u32)
        ensures
            start == self.deep_view().start,
    {
        self.start
    }

    /// The end of the region, or the greatest address where the end lies
    /// beyond it.
    pub fn end(&self) -> (end: u32)
        ensures
            end == if self.deep_view().end() <= u32::MAX {
                self.deep_view().end()
            } else {
                u32::MAX as int
            },
    {
        proof {
            use_type_invariant(self);
        }
        self.end
    }

    /// The bytes of the region.
    pub fn data(&self) -> (data: &[u8])
        ensures
            data@ == self.deep_view().data,
    {
        self.data.as_slice()
    }

    /// Makes a copy of `self`.
    pub fn duplicate(&self) -> (region: DataRegion)
        ensures
            region.deep_view() == self.deep_view(),
    {
        proof {
            use_type_invariant(self);
        }
        DataRegion { start: self.start, end: self.end, data: copy_bytes(self.data.as_slice()) }
    }

    /// Tells whether `offset` lies in the region, its end included.
    pub fn is_offset_inside(&self, offset: u32) -> (r: bool)
        ensures
            r == self.deep_view().contains(offset),
    {
        proof {
            use_type_invariant(self);
        }
        offset >= self.start && offset <= self.end
    }
}

/// The functions and the data regions of one module.
#[derive(Debug, PartialEq, Eq)]
pub struct ModuleInfo {
    /// The defined functions, in the order of their declaration.
    pub functions: Vec<Function>,
    /// The data regions, in the order of the segments.
    pub data_regions: Vec<DataRegion>,
}

/// The mathematical value of a [`ModuleInfo`].
#[verifier::ext_equal]
pub struct ModuleInfoView {
    pub functions: Seq<FunctionView>,
    pub data_regions: Seq<DataRegionView>,
}

impl ModuleInfoView {
    /// Whether the functions carry consecutive indices, in their order. No
    /// two of them then share an index.
    pub open spec fn well_formed(self) -> bool {
        forall|i: int|
            0 <= i < self.functions.len() ==> (#[trigger] self.functions[i]).id
                == self.functions[0].id + i
    }
}

impl DeepView for ModuleInfo {
    type V = ModuleInfoView;

    open spec fn deep_view(&self) -> ModuleInfoView {
        ModuleInfoView {
            functions: self.functions.deep_view(),
            data_regions: self.data_regions.deep_view(),
        }
    }
}

/// The functions of a well-formed module have different indices.
pub proof fn lemma_indices_differ(info: ModuleInfoView, first: int, second: int)
    requires
        info.well_formed(),
        0 <= first < info.functions.len(),
        0 <= second < info.functions.len(),
        first != second,
    ensures
        info.functions[first].id != info.functions[second].id,
{
}

/// The number of functions that `sections` defines: those that have both a
/// declaration and a body.
pub open spec fn defined_functions(sections: ModuleSectionsView) -> nat {
    let declared = sections.functions->Some_0.len();
    let bodies = sections.code->Some_0.len();
    if declared <= bodies {
        declared
    } else {
        bodies
    }
}

/// The record of the function at `position` among the defined ones.
pub open spec fn function_at(sections: ModuleSectionsView, position: int) -> FunctionView {
    let signature = sections.types->Some_0[sections.functions->Some_0[position] as int];
    let body = sections.code->Some_0[position];
    let id = (sections.imported_functions + position) as u32;
    FunctionView {
        id,
        name: match sections.function_names {
            Some(names) => name_at(names, id),
            None => None,
        },
        return_type: signature.return_type,
        param_types: signature.params,
        local_types: flatten_locals(body.locals),
        instructions: body.instructions,
    }
}

/// Whether the function at `position` names a type that `sections` holds.
pub open spec fn has_known_type(sections: ModuleSectionsView, position: int) -> bool {
    sections.functions->Some_0[position] < sections.types->Some_0.len()
}

/// The regions of the data segments of `sections`, if each has one; none
/// where there is no data section.
pub open spec fn decoded_regions(sections: ModuleSectionsView) -> Option<Seq<DataRegionView>> {
    match sections.data {
        Some(segments) => regions_of(segments),
        None => Some(Seq::empty()),
    }
}

/// What decoding `sections` gives.
///
/// The data segments are looked at first, then the three sections that have
/// to be there, then the number of functions, then the type of each function.
pub open spec fn decode(sections: ModuleSectionsView) -> Result<ModuleInfoView, ParseError> {
    let regions = decoded_regions(sections);
    if regions is None {
        Err(ParseError::InvalidOffsetInstruction)
    } else if sections.types is None {
        Err(ParseError::MissingSection("type"))
    } else if sections.functions is None {
        Err(ParseError::MissingSection("function"))
    } else if sections.code is None {
        Err(ParseError::MissingSection("code"))
    } else if defined_functions(sections) > 0 && sections.imported_functions + defined_functions(
        sections,
    ) > u32::MAX + 1 {
        Err(ParseError::TooManyFunctions)
    } else if exists|i: int|
        0 <= i < defined_functions(sections) && !#[trigger] has_known_type(sections, i) {
        Err(ParseError::UnknownFunctionType)
    } else {
        Ok(
            ModuleInfoView {
                functions: Seq::new(
                    defined_functions(sections),
                    |i: int| function_at(sections, i),
                ),
                data_regions: regions->Some_0,
            },
        )
    }
}

/// What decoding gives is well-formed: the functions carry consecutive
/// indices, from the number of imported functions on.
pub proof fn lemma_decoded_is_well_formed(sections: ModuleSectionsView)
    requires
        decode(sections) is Ok,
    ensures
        decode(sections)->Ok_0.well_formed(),
        forall|i: int|
            0 <= i < decode(sections)->Ok_0.functions.len() ==> (#[trigger] decode(
                sections,
            )->Ok_0.functions[i]).id == sections.imported_functions + i,
{
}

/// Copies a list of value types.
pub fn copy_value_types(types: &[ValueType]) -> (r: Vec<ValueType>)
    ensures
        r@ == types@,
{
    let mut copy: Vec<ValueType> = Vec::with_capacity(types.len());
    let mut i: usize = 0;
    while i < types.len()
        invariant
            i <= types@.len(),
            copy@ == types@.take(i as int),
        decreases types@.len() - i,
    {
        copy.push(types[i]);
        assert(types@.take(i as int).push(types@[i as int]) =~= types@.take(i + 1));
        i += 1;
    }
    assert(types@.take(types@.len() as int) =~= types@);
    copy
}

/// Copies a list of instructions.
pub fn copy_instructions(code: &[Instruction]) -> (r: Vec<Instruction>)
    ensures
        r.deep_view() == code.deep_view(),
{
    let mut copy: Vec<Instruction> = Vec::with_capacity(code.len());
    let mut i: usize = 0;
    while i < code.len()
        invariant
            i <= code@.len(),
            copy@.len() == i,
            forall|k: int| 0 <= k < i ==> copy@[k].deep_view() == code@[k].deep_view(),
        decreases code@.len() - i,
    {
        copy.push(code[i].duplicate());
        i += 1;
    }
    assert(copy.deep_view() =~= code.deep_view());
    copy
}

/// Writes the locals of a body out one by one: for each run its type, as
/// many times as the run is long.
pub fn collect_locals(locals: &[Local]) -> (r: Vec<ValueType>)
    ensures
        r@ == flatten_locals(locals@),
{
    let mut flat: Vec<ValueType> = Vec::new();
    let mut i: usize = 0;
    while i < locals.len()
        invariant
            i <= locals@.len(),
            flat@ == flatten_locals(locals@.take(i as int)),
        decreases locals@.len() - i,
    {
        let run = locals[i];
        let ghost before = flat@;
        let mut k: u32 = 0;
        while k < run.count
            invariant
                k <= run.count,
                flat@ == before + Seq::new(k as nat, |j: int| run.value_type),
            decreases run.count - k,
        {
            flat.push(run.value_type);
            assert(Seq::new(k as nat, |j: int| run.value_type).push(run.value_type) =~= Seq::new(
                (k + 1) as nat,
                |j: int| run.value_type,
            ));
            k += 1;
        }
        assert(locals@.take(i + 1).drop_last() =~= locals@.take(i as int));
        assert(locals@.take(i + 1).last() == run);
        i += 1;
    }
    assert(locals@.take(locals@.len() as int) =~= locals@);
    flat
}

/// The regions of the data segments, in their order.
pub fn collect_data_regions(segments: &[DataSegment]) -> (r: Result<Vec<DataRegion>, ParseError>)
    ensures
        match r {
            Ok(regions) => regions_of(segments.deep_view()) == Some(regions.deep_view()),
            Err(e) => e == ParseError::InvalidOffsetInstruction && regions_of(
                segments.deep_view(),
            ) is None,
        },
{
    let mut regions: Vec<DataRegion> = Vec::with_capacity(segments.len());
    let mut i: usize = 0;
    while i < segments.len()
        invariant
            i <= segments@.len(),
            regions@.len() == i,
            forall|k: int|
                0 <= k < i ==> region_of(#[trigger] segments.deep_view()[k]) == Some(
                    regions@[k].deep_view(),
                ),
        decreases segments@.len() - i,
    {
        assert(segments.deep_view()[i as int] == segments@[i as int].deep_view());
        match DataRegion::try_from(&segments[i]) {
            Ok(region) => {
                regions.push(region);
            },
            Err(e) => {
                return Err(e);
            },
        }
        i += 1;
    }
    assert(regions.deep_view() =~= regions_of(segments.deep_view())->Some_0);
    Ok(regions)
}

/// Reads the function types of the type section, if `module` has one.
pub fn collect_function_types(module: &Module) -> (types: Option<Vec<FunctionType>>)
    ensures
        types.deep_view() == module_sections(*module).types,
{
    let count = match type_count(module) {
        Some(count) => count,
        None => { return None; },
    };
    let ghost wanted = module_sections(*module).types->Some_0;
    let mut types: Vec<FunctionType> = Vec::with_capacity(count);
    let mut i: usize = 0;
    while i < count
        invariant
            module_sections(*module).types == Some(wanted),
            count == wanted.len(),
            i <= count,
            types@.len() == i,
            forall|k: int| 0 <= k < i ==> (#[trigger] types@[k]).deep_view() == wanted[k],
        decreases count - i,
    {
        types.push(type_at(module, i));
        i += 1;
    }
    assert(types.deep_view() =~= wanted);
    Some(types)
}

/// Reads the bodies of the code section, if `module` has one.
pub fn collect_bodies(module: &Module) -> (bodies: Option<Vec<FunctionBody>>)
    ensures
        bodies.deep_view() == module_sections(*module).code,
{
    let count = match body_count(module) {
        Some(count) => count,
        None => { return None; },
    };
    let ghost wanted = module_sections(*module).code->Some_0;
    let mut bodies: Vec<FunctionBody> = Vec::with_capacity(count);
    let mut i: usize = 0;
    while i < count
        invariant
            module_sections(*module).code == Some(wanted),
            count == wanted.len(),
            i <= count,
            bodies@.len() == i,
            forall|k: int| 0 <= k < i ==> (#[trigger] bodies@[k]).deep_view() == wanted[k],
        decreases count - i,
    {
        let body = FunctionBody {
            locals: body_locals(module, i),
            instructions: body_instructions(module, i),
        };
        assert(body.deep_view() =~= wanted[i as int]);
        bodies.push(body);
        i += 1;
    }
    assert(bodies.deep_view() =~= wanted);
    Some(bodies)
}

/// Reads the segments of the data section, if `module` has one.
pub fn collect_data_segments(module: &Module) -> (segments: Option<Vec<DataSegment>>)
    ensures
        segments.deep_view() == module_sections(*module).data,
{
    let count = match data_segment_count(module) {
        Some(count) => count,
        None => { return None; },
    };
    let ghost wanted = module_sections(*module).data->Some_0;
    let mut segments: Vec<DataSegment> = Vec::with_capacity(count);
    let mut i: usize = 0;
    while i < count
        invariant
            module_sections(*module).data == Some(wanted),
            count == wanted.len(),
            i <= count,
            segments@.len() == i,
            forall|k: int| 0 <= k < i ==> (#[trigger] segments@[k]).deep_view() == wanted[k],
        decreases count - i,
    {
        segments.push(data_segment_at(module, i));
        i += 1;
    }
    assert(segments.deep_view() =~= wanted);
    Some(segments)
}

/// Reads the sections of `module` that the decoder works on.
pub fn read_sections(module: &Module) -> (sections: ModuleSections)
    ensures
        sections.deep_view() == module_sections(*module),
{
    let sections = ModuleSections {
        data: collect_data_segments(module),
        types: collect_function_types(module),
        functions: function_type_refs(module),
        code: collect_bodies(module),
        function_names: function_names(module),
        imported_functions: imported_function_count(module),
    };
    assert(sections.deep_view() =~= module_sections(*module));
    sections
}

impl ModuleInfo {
    /// Decodes the sections of a module.
    pub fn from_sections(sections: &ModuleSections) -> (r: Result<ModuleInfo, ParseError>)
        ensures
            match r {
                Ok(info) => decode(sections.deep_view()) == Ok::<ModuleInfoView, ParseError>(
                    info.deep_view(),
                ) && info.deep_view().well_formed(),
                Err(e) => decode(sections.deep_view()) == Err::<ModuleInfoView, ParseError>(e),
            },
    {
        let ghost view = sections.deep_view();
        let data_regions = match &sections.data {
            Some(segments) => {
                match collect_data_regions(segments.as_slice()) {
                    Ok(regions) => regions,
                    Err(e) => { return Err(e); },
                }
            },
            None => Vec::new(),
        };
        assert(sections.data is None ==> data_regions.deep_view() =~= Seq::empty());
        assert(decoded_regions(view) == Some(data_regions.deep_view()));
        let types = match &sections.types {
            Some(types) => types,
            None => { return Err(ParseError::MissingSection("type")); },
        };
        let declared = match &sections.functions {
            Some(declared) => declared,
            None => { return Err(ParseError::MissingSection("function")); },
        };
        let bodies = match &sections.code {
            Some(bodies) => bodies,
            None => { return Err(ParseError::MissingSection("code")); },
        };
        let count: usize = if declared.len() <= bodies.len() {
            declared.len()
        } else {
            bodies.len()
        };
        assert(count == defined_functions(view));
        let imported: usize = sections.imported_functions;
        if count > 0 && (imported > u32::MAX as usize || count - 1 > u32::MAX as usize - imported) {
            return Err(ParseError::TooManyFunctions);
        }
        let mut functions: Vec<Function> = Vec::with_capacity(count);
        let mut i: usize = 0;
        while i < count
            invariant
                view == sections.deep_view(),
                decoded_regions(view) == Some(data_regions.deep_view()),
                sections.types == Some(*types),
                sections.functions == Some(*declared),
                sections.code == Some(*bodies),
                imported == sections.imported_functions,
                count == defined_functions(view),
                count > 0 ==> imported + count <= u32::MAX + 1,
                i <= count,
                functions@.len() == i,
                forall|k: int| 0 <= k < i ==> has_known_type(view, k),
                forall|k: int|
                    0 <= k < i ==> (#[trigger] functions@[k]).deep_view() == function_at(view, k),
            decreases count - i,
        {
            let type_ref: usize = declared[i] as usize;
            assert(view.functions->Some_0[i as int] == declared@[i as int]);
            if type_ref >= types.len() {
                assert(!has_known_type(view, i as int));
                return Err(ParseError::UnknownFunctionType);
            }
            let signature = &types[type_ref];
            let body = &bodies[i];
            assert(view.types->Some_0[type_ref as int] == signature.deep_view());
            assert(view.code->Some_0[i as int] == body.deep_view());
            let id: u32 = (imported + i) as u32;
            let name = match &sections.function_names {
                Some(names) => name_map_get(names, id),
                None => None,
            };
            let function = Function {
                id,
                name,
                return_type: signature.return_type,
                param_types: copy_value_types(signature.params.as_slice()),
                local_types: collect_locals(body.locals.as_slice()),
                instructions: copy_instructions(body.instructions.as_slice()),
            };
            assert(function.deep_view() =~= function_at(view, i as int));
            functions.push(function);
            i += 1;
        }
        let info = ModuleInfo { functions, data_regions };
        assert(info.deep_view().functions =~= Seq::new(
            defined_functions(view),
            |k: int| function_at(view, k),
        ));
        Ok(info)
    }

    /// Decodes a module: reads its sections and decodes them.
    pub fn try_from(module: &Module) -> (r: Result<ModuleInfo, ParseError>)
        ensures
            match r {
                Ok(info) => decode(module_sections(*module)) == Ok::<ModuleInfoView, ParseError>(
                    info.deep_view(),
                ) && info.deep_view().well_formed(),
                Err(e) => decode(module_sections(*module)) == Err::<ModuleInfoView, ParseError>(e),
            },
    {
        let sections = read_sections(module);
        ModuleInfo::from_sections(&sections)
    }
}

} // verus!
