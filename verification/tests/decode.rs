use parity_wasm::elements::NameMap;
use wasm_remapper::parse::{
    address, collect_data_regions, collect_locals, copy_instructions, copy_value_types, DataRegion,
    DataSegment, Function, FunctionBody, FunctionType, Instruction, Local, ModuleInfo,
    ModuleSections, ParseError, ValueType,
};
use wasm_remapper::parse::function::{bytes_equal, copy_bytes};

fn end() -> Instruction {
    Instruction::Other(vec![0x0b])
}

fn constant_segment(offset: i32, value: Vec<u8>) -> DataSegment {
    DataSegment { offset: Some(vec![Instruction::I32Const(offset), end()]), value }
}

fn sections() -> ModuleSections {
    ModuleSections {
        data: None,
        types: Some(vec![
            FunctionType { params: vec![], return_type: None },
            FunctionType {
                params: vec![ValueType::I32, ValueType::I64],
                return_type: Some(ValueType::F32),
            },
        ]),
        functions: Some(vec![1, 0]),
        code: Some(vec![
            FunctionBody {
                locals: vec![
                    Local { count: 2, value_type: ValueType::I32 },
                    Local { count: 0, value_type: ValueType::F32 },
                    Local { count: 1, value_type: ValueType::F64 },
                ],
                instructions: vec![Instruction::I32Const(1), Instruction::Call(0), end()],
            },
            FunctionBody { locals: vec![], instructions: vec![end()] },
        ]),
        function_names: None,
        imported_functions: 0,
    }
}

#[test]
fn region_contains_its_end() {
    let region = DataRegion::new(10, vec![0; 5]);
    assert_eq!(region.start(), 10);
    assert_eq!(region.end(), 15);
    assert_eq!(region.data(), &[0u8; 5][..]);
    assert!(!region.is_offset_inside(9));
    assert!(region.is_offset_inside(10));
    assert!(region.is_offset_inside(12));
    assert!(region.is_offset_inside(15));
    assert!(!region.is_offset_inside(16));
}

#[test]
fn empty_region_contains_its_start_only() {
    let region = DataRegion::new(7, vec![]);
    assert_eq!(region.end(), 7);
    assert!(region.is_offset_inside(7));
    assert!(!region.is_offset_inside(6));
    assert!(!region.is_offset_inside(8));
}

#[test]
fn region_at_the_top_of_memory_ends_there() {
    let region = DataRegion::new(u32::MAX - 2, vec![1, 2, 3, 4, 5]);
    assert_eq!(region.end(), u32::MAX);
    assert!(region.is_offset_inside(u32::MAX));
    assert!(region.is_offset_inside(u32::MAX - 2));
    assert!(!region.is_offset_inside(u32::MAX - 3));
    let exact = DataRegion::new(u32::MAX - 2, vec![1, 2]);
    assert_eq!(exact.end(), u32::MAX);
    let below = DataRegion::new(u32::MAX - 2, vec![1]);
    assert_eq!(below.end(), u32::MAX - 1);
    assert!(!below.is_offset_inside(u32::MAX));
}

#[test]
fn region_copy_is_equal() {
    let region = DataRegion::new(3, vec![1, 2, 3]);
    assert_eq!(region.duplicate(), region);
}

#[test]
fn negative_constant_is_a_high_address() {
    assert_eq!(address(0), 0);
    assert_eq!(address(5), 5);
    assert_eq!(address(i32::MAX), 0x7fff_ffff);
    assert_eq!(address(-1), u32::MAX);
    assert_eq!(address(i32::MIN), 0x8000_0000);
    let region = DataRegion::try_from(&constant_segment(-16, vec![0; 4])).unwrap();
    assert_eq!(region.start(), 0xffff_fff0);
    assert_eq!(region.end(), 0xffff_fff4);
}

#[test]
fn region_of_a_constant_offset() {
    let region = DataRegion::try_from(&constant_segment(100, vec![1, 2, 3])).unwrap();
    assert_eq!(region, DataRegion::new(100, vec![1, 2, 3]));
    let bare = DataSegment { offset: Some(vec![Instruction::I32Const(100)]), value: vec![1, 2, 3] };
    assert_eq!(DataRegion::try_from(&bare).unwrap(), DataRegion::new(100, vec![1, 2, 3]));
}

#[test]
fn other_offsets_are_refused() {
    let refused = |offset: Option<Vec<Instruction>>| {
        let segment = DataSegment { offset, value: vec![1] };
        assert_eq!(DataRegion::try_from(&segment), Err(ParseError::InvalidOffsetInstruction));
    };
    refused(None);
    refused(Some(vec![]));
    refused(Some(vec![end()]));
    // global.get 0
    refused(Some(vec![Instruction::Other(vec![0x23, 0]), end()]));
    // i64.const 1
    refused(Some(vec![Instruction::Other(vec![0x42, 1]), end()]));
    refused(Some(vec![Instruction::I32Const(1), Instruction::I32Const(2)]));
    refused(Some(vec![Instruction::I32Const(1), Instruction::Other(vec![0x0b, 0])]));
    refused(Some(vec![Instruction::I32Const(1), Instruction::Other(vec![0x01])]));
    refused(Some(vec![Instruction::I32Const(1), Instruction::Other(vec![])]));
    refused(Some(vec![
        Instruction::I32Const(1),
        Instruction::I32Const(2),
        Instruction::Other(vec![0x6a]),
        end(),
    ]));
    refused(Some(vec![Instruction::I32Const(1), end(), end()]));
}

#[test]
fn regions_keep_the_order_of_the_segments() {
    let segments = vec![constant_segment(30, vec![1]), constant_segment(10, vec![2, 3])];
    assert_eq!(
        collect_data_regions(&segments),
        Ok(vec![DataRegion::new(30, vec![1]), DataRegion::new(10, vec![2, 3])])
    );
    assert_eq!(collect_data_regions(&[]), Ok(vec![]));
    let broken = vec![constant_segment(30, vec![1]), DataSegment { offset: None, value: vec![] }];
    assert_eq!(collect_data_regions(&broken), Err(ParseError::InvalidOffsetInstruction));
}

#[test]
fn locals_are_written_out_one_by_one() {
    let locals = vec![
        Local { count: 2, value_type: ValueType::I32 },
        Local { count: 0, value_type: ValueType::F32 },
        Local { count: 3, value_type: ValueType::I64 },
        Local { count: 1, value_type: ValueType::I32 },
    ];
    assert_eq!(
        collect_locals(&locals),
        vec![
            ValueType::I32,
            ValueType::I32,
            ValueType::I64,
            ValueType::I64,
            ValueType::I64,
            ValueType::I32,
        ]
    );
    assert_eq!(collect_locals(&[]), vec![]);
}

#[test]
fn copies_are_equal() {
    let code = vec![
        Instruction::I32Store(2, 8),
        Instruction::I32Const(-3),
        Instruction::Call(4),
        Instruction::CallIndirect(1, 0),
        Instruction::Other(vec![0x28, 2, 0]),
    ];
    assert_eq!(copy_instructions(&code), code);
    assert_eq!(code[4].duplicate(), code[4]);
    let types = vec![ValueType::F64, ValueType::I32];
    assert_eq!(copy_value_types(&types), types);
    assert_eq!(copy_bytes(&[1, 2, 3]), vec![1, 2, 3]);
    assert!(bytes_equal(&[1, 2, 3], &[1, 2, 3]));
    assert!(!bytes_equal(&[1, 2, 3], &[1, 2]));
    assert!(!bytes_equal(&[1, 2, 3], &[1, 2, 4]));
    assert!(bytes_equal(&[], &[]));
}

#[test]
fn same_instruction_means_same_kind_and_operands() {
    let all = vec![
        Instruction::I32Store(2, 8),
        Instruction::I32Store(2, 9),
        Instruction::I32Store(1, 8),
        Instruction::I32Const(8),
        Instruction::I32Const(9),
        Instruction::Call(8),
        Instruction::Call(9),
        Instruction::CallIndirect(8, 0),
        Instruction::CallIndirect(8, 1),
        Instruction::CallIndirect(9, 0),
        Instruction::Other(vec![8]),
        Instruction::Other(vec![8, 0]),
        Instruction::Other(vec![]),
    ];
    for (i, left) in all.iter().enumerate() {
        for (j, right) in all.iter().enumerate() {
            assert_eq!(left.same(right), i == j);
        }
    }
}

#[test]
fn functions_are_decoded_in_their_order() {
    let info = ModuleInfo::from_sections(&sections()).unwrap();
    assert_eq!(info.data_regions, vec![]);
    assert_eq!(
        info.functions,
        vec![
            Function {
                id: 0,
                name: None,
                return_type: Some(ValueType::F32),
                param_types: vec![ValueType::I32, ValueType::I64],
                local_types: vec![ValueType::I32, ValueType::I32, ValueType::F64],
                instructions: vec![Instruction::I32Const(1), Instruction::Call(0), end()],
            },
            Function {
                id: 1,
                name: None,
                return_type: None,
                param_types: vec![],
                local_types: vec![],
                instructions: vec![end()],
            },
        ]
    );
}

#[test]
fn indices_and_names_follow_the_imports() {
    let mut names = NameMap::with_capacity(4);
    names.insert(0, "imported".to_string());
    names.insert(3, "first".to_string());
    names.insert(5, "beyond".to_string());
    let mut sections = sections();
    sections.imported_functions = 3;
    sections.function_names = Some(names);
    sections.data = Some(vec![constant_segment(8, vec![1, 2])]);
    let info = ModuleInfo::from_sections(&sections).unwrap();
    assert_eq!(info.functions.len(), 2);
    assert_eq!(info.functions[0].id, 3);
    assert_eq!(info.functions[0].name, Some("first".to_string()));
    assert_eq!(info.functions[1].id, 4);
    assert_eq!(info.functions[1].name, None);
    assert_eq!(info.data_regions, vec![DataRegion::new(8, vec![1, 2])]);
}

#[test]
fn missing_sections_are_named() {
    let mut missing = sections();
    missing.code = None;
    assert_eq!(ModuleInfo::from_sections(&missing), Err(ParseError::MissingSection("code")));
    missing.functions = None;
    assert_eq!(ModuleInfo::from_sections(&missing), Err(ParseError::MissingSection("function")));
    missing.types = None;
    assert_eq!(ModuleInfo::from_sections(&missing), Err(ParseError::MissingSection("type")));
    missing.data = Some(vec![DataSegment { offset: None, value: vec![] }]);
    assert_eq!(ModuleInfo::from_sections(&missing), Err(ParseError::InvalidOffsetInstruction));
}

#[test]
fn unknown_type_is_refused() {
    let mut broken = sections();
    broken.functions = Some(vec![1, 2]);
    assert_eq!(ModuleInfo::from_sections(&broken), Err(ParseError::UnknownFunctionType));
    broken.functions = Some(vec![1, 1]);
    assert!(ModuleInfo::from_sections(&broken).is_ok());
}

#[test]
fn functions_without_a_body_are_left_out() {
    let mut uneven = sections();
    uneven.functions = Some(vec![0, 0, 0, 9]);
    let info = ModuleInfo::from_sections(&uneven).unwrap();
    assert_eq!(info.functions.len(), 2);
    uneven.functions = Some(vec![0]);
    let info = ModuleInfo::from_sections(&uneven).unwrap();
    assert_eq!(info.functions.len(), 1);
    assert_eq!(info.functions[0].param_types, vec![]);
    assert_eq!(info.functions[0].instructions.len(), 3);
}

#[test]
fn indices_beyond_u32_are_refused() {
    let mut many = sections();
    many.imported_functions = u32::MAX as usize;
    assert_eq!(ModuleInfo::from_sections(&many), Err(ParseError::TooManyFunctions));
    many.imported_functions = u32::MAX as usize - 1;
    let info = ModuleInfo::from_sections(&many).unwrap();
    assert_eq!(info.functions[0].id, u32::MAX - 1);
    assert_eq!(info.functions[1].id, u32::MAX);
    many.imported_functions = usize::MAX;
    assert_eq!(ModuleInfo::from_sections(&many), Err(ParseError::TooManyFunctions));
    many.functions = Some(vec![]);
    let info = ModuleInfo::from_sections(&many).unwrap();
    assert_eq!(info.functions.len(), 0);
}
