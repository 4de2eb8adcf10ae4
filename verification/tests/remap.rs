use parity_wasm::elements::{
    CodeSection, DataSection, DataSegment, External, Func, FuncBody, FunctionNameSubsection,
    FunctionSection, FunctionType, ImportEntry, ImportSection, InitExpr, Instruction,
    Instructions, Local, Module, NameSection, Section, Type, TypeSection, ValueType,
};
use wasm_remapper::parse::{self, ModuleInfo, ParseError};
use wasm_remapper::{Remapper, RemapperError, RemapperOutput};

struct Def {
    params: Vec<ValueType>,
    result: Option<ValueType>,
    locals: Vec<Local>,
    code: Vec<Instruction>,
    name: Option<&'static str>,
}

fn def(
    params: Vec<ValueType>,
    result: Option<ValueType>,
    code: Vec<Instruction>,
    name: Option<&'static str>,
) -> Def {
    Def { params, result, locals: Vec::new(), code, name }
}

fn build(imports: u32, defs: Vec<Def>, data: Vec<DataSegment>) -> Module {
    let mut types = Vec::new();
    let mut entries = Vec::new();
    let mut bodies = Vec::new();
    let mut names = FunctionNameSubsection::default();
    let mut named = false;
    let first = if imports > 0 { 1 } else { 0 };
    if imports > 0 {
        types.push(Type::Function(FunctionType::new(Vec::new(), None)));
    }
    for (position, d) in defs.into_iter().enumerate() {
        types.push(Type::Function(FunctionType::new(d.params, d.result)));
        entries.push(Func::new(first + position as u32));
        bodies.push(FuncBody::new(d.locals, Instructions::new(d.code)));
        if let Some(name) = d.name {
            names.names_mut().insert(imports + position as u32, name.to_string());
            named = true;
        }
    }
    let mut sections = vec![Section::Type(TypeSection::with_types(types))];
    if imports > 0 {
        let list = (0..imports)
            .map(|i| ImportEntry::new("env".to_string(), format!("f{}", i), External::Function(0)))
            .collect();
        sections.push(Section::Import(ImportSection::with_entries(list)));
    }
    sections.push(Section::Function(FunctionSection::with_entries(entries)));
    sections.push(Section::Code(CodeSection::with_bodies(bodies)));
    if !data.is_empty() {
        sections.push(Section::Data(DataSection::with_entries(data)));
    }
    if named {
        sections.push(Section::Name(NameSection::new(None, Some(names), None)));
    }
    Module::new(sections)
}

fn bytes(module: Module) -> Vec<u8> {
    parity_wasm::serialize(module).expect("the module is written")
}

fn simple_input() -> Vec<u8> {
    bytes(build(
        0,
        vec![
            def(
                vec![],
                Some(ValueType::I32),
                vec![
                    Instruction::I32Const(10),
                    Instruction::Call(0),
                    Instruction::I32Add,
                    Instruction::End,
                ],
                None,
            ),
            def(
                vec![ValueType::I32],
                Some(ValueType::I32),
                vec![
                    Instruction::GetLocal(0),
                    Instruction::I32Const(10),
                    Instruction::I32Mul,
                    Instruction::End,
                ],
                None,
            ),
        ],
        vec![],
    ))
}

fn simple_reference() -> Vec<u8> {
    bytes(build(
        0,
        vec![
            def(
                vec![],
                Some(ValueType::I32),
                vec![
                    Instruction::I32Const(10),
                    Instruction::Call(0),
                    Instruction::I32Mul,
                    Instruction::End,
                ],
                Some("square"),
            ),
            def(
                vec![ValueType::I32],
                Some(ValueType::I32),
                vec![
                    Instruction::GetLocal(0),
                    Instruction::I32Const(10),
                    Instruction::I32Mul,
                    Instruction::End,
                ],
                Some("squareTen"),
            ),
        ],
        vec![],
    ))
}

fn remap(input: &[u8], reference: &[u8]) -> Result<RemapperOutput, RemapperError> {
    Remapper::builder().input(input).reference(reference).build().unwrap().remap()
}

fn names_in(output: &[u8]) -> Vec<(u32, String)> {
    let module = parity_wasm::deserialize_buffer::<Module>(output)
        .expect("invalid output binary")
        .parse_names()
        .unwrap();
    let section = module.names_section().expect("no name section in output module");
    let functions = section.functions().expect("no function name subsection");
    functions.names().iter().map(|(index, name)| (index, name.clone())).collect()
}

fn decoded(bytes: &[u8]) -> ModuleInfo {
    let module = parity_wasm::deserialize_buffer::<Module>(bytes).expect("a module");
    ModuleInfo::try_from(&module).expect("a module that decodes")
}

#[test]
fn test_invalid_input() {
    let reference = simple_reference();
    let result = Remapper::builder().input(&[]).reference(&reference).build().unwrap().remap();

    match result {
        Err(RemapperError::InvalidInputBinary) => {}
        _ => panic!("unexpected result"),
    }
}

#[test]
fn test_invalid_empty_reference() {
    let input = simple_input();
    let result = Remapper::builder().input(&input).reference(&[]).build().unwrap().remap();

    match result {
        Err(RemapperError::InvalidReferenceBinary) => {}
        _ => panic!("unexpected result"),
    }
}

#[test]
fn test_remap_simple() {
    let input = simple_input();
    let reference = simple_reference();
    let RemapperOutput { names, output } =
        Remapper::builder().input(&input).reference(&reference).build().unwrap().remap().unwrap();

    // Assert name map of the remapped output is valid
    assert_eq!(names.len(), 2);
    assert_eq!(names.get(0).unwrap(), "square");
    assert_eq!(names.get(1).unwrap(), "squareTen");

    let output_module = parity_wasm::deserialize_buffer::<Module>(&output)
        .expect("invalid output binary")
        .parse_names()
        .unwrap();
    let output_name_map = output_module
        .names_section()
        .expect("no name section in output module")
        .functions()
        .expect("no function name subsection")
        .names();

    // Ensure that the proveded output names match the actual names in the binary
    assert_eq!(&names, output_name_map);
}

#[test]
fn garbage_input_is_refused() {
    let reference = simple_reference();
    assert!(matches!(remap(&[1, 2, 3, 4, 5, 6, 7, 8, 9], &reference), Err(RemapperError::InvalidInputBinary)));
}

#[test]
fn garbage_reference_is_refused() {
    let input = simple_input();
    assert!(matches!(remap(&input, &[0, 97, 115]), Err(RemapperError::InvalidReferenceBinary)));
}

#[test]
fn reference_with_broken_name_section_is_refused() {
    let input = simple_input();
    let mut module = build(0, vec![def(vec![], None, vec![Instruction::End], None)], vec![]);
    // A function name for index 7, in a module with a single function.
    module.set_custom_section("name", vec![1, 4, 1, 7, 1, 97]);
    let reference = bytes(module);
    assert!(matches!(remap(&input, &reference), Err(RemapperError::InvalidReferenceBinary)));
}

#[test]
fn input_with_broken_name_section_is_still_read() {
    let mut module = build(0, vec![def(vec![], None, vec![Instruction::End], None)], vec![]);
    module.set_custom_section("name", vec![1, 4, 1, 7, 1, 97]);
    let input = bytes(module);
    let reference = bytes(build(0, vec![def(vec![], None, vec![Instruction::End], Some("f"))], vec![]));
    let out = remap(&input, &reference).unwrap();
    assert_eq!(out.names.get(0).unwrap(), "f");
}

#[test]
fn input_without_functions_misses_its_sections() {
    let input = bytes(Module::new(vec![]));
    let reference = simple_reference();
    match remap(&input, &reference) {
        Err(RemapperError::Parse(ParseError::MissingSection(name))) => assert_eq!(name, "type"),
        _ => panic!("unexpected result"),
    }
}

#[test]
fn reference_without_code_misses_its_section() {
    let input = simple_input();
    let reference = bytes(Module::new(vec![
        Section::Type(TypeSection::with_types(vec![])),
        Section::Function(FunctionSection::with_entries(vec![])),
    ]));
    match remap(&input, &reference) {
        Err(RemapperError::Parse(ParseError::MissingSection(name))) => assert_eq!(name, "code"),
        _ => panic!("unexpected result"),
    }
}

#[test]
fn module_without_function_section_misses_it() {
    let module = Module::new(vec![Section::Type(TypeSection::with_types(vec![]))]);
    match ModuleInfo::try_from(&module) {
        Err(ParseError::MissingSection(name)) => assert_eq!(name, "function"),
        _ => panic!("unexpected result"),
    }
}

#[test]
fn data_offset_from_a_global_is_refused() {
    let segment = DataSegment::new(
        0,
        Some(InitExpr::new(vec![Instruction::GetGlobal(0), Instruction::End])),
        vec![1, 2, 3],
    );
    let input = bytes(build(0, vec![def(vec![], None, vec![Instruction::End], None)], vec![segment]));
    let reference = simple_reference();
    assert!(matches!(
        remap(&input, &reference),
        Err(RemapperError::Parse(ParseError::InvalidOffsetInstruction))
    ));
}

#[test]
fn function_with_unknown_type_is_refused() {
    let module = Module::new(vec![
        Section::Type(TypeSection::with_types(vec![Type::Function(FunctionType::new(vec![], None))])),
        Section::Function(FunctionSection::with_entries(vec![Func::new(3)])),
        Section::Code(CodeSection::with_bodies(vec![FuncBody::new(
            vec![],
            Instructions::new(vec![Instruction::End]),
        )])),
    ]);
    assert_eq!(ModuleInfo::try_from(&module), Err(ParseError::UnknownFunctionType));
    let input = bytes(module);
    assert!(matches!(
        remap(&input, &simple_reference()),
        Err(RemapperError::Parse(ParseError::UnknownFunctionType))
    ));
}

#[test]
fn sections_are_read_as_the_module_holds_them() {
    let segment = DataSegment::new(
        0,
        Some(InitExpr::new(vec![Instruction::I32Const(16), Instruction::End])),
        vec![9, 8, 7],
    );
    let mut first = def(
        vec![ValueType::I64, ValueType::F32],
        Some(ValueType::F64),
        vec![
            Instruction::I32Store(2, 20),
            Instruction::CallIndirect(1, 0),
            Instruction::I32Load(2, 4),
            Instruction::End,
        ],
        Some("first"),
    );
    first.locals = vec![Local::new(2, ValueType::I32), Local::new(1, ValueType::F64)];
    let module = build(2, vec![first], vec![segment]);
    let sections = parse::read_sections(&module);

    assert_eq!(sections.imported_functions, 2);
    assert_eq!(
        sections.types,
        Some(vec![
            parse::FunctionType { params: vec![], return_type: None },
            parse::FunctionType {
                params: vec![parse::ValueType::I64, parse::ValueType::F32],
                return_type: Some(parse::ValueType::F64),
            },
        ])
    );
    assert_eq!(sections.functions, Some(vec![1]));
    assert_eq!(
        sections.code,
        Some(vec![parse::FunctionBody {
            locals: vec![
                parse::Local { count: 2, value_type: parse::ValueType::I32 },
                parse::Local { count: 1, value_type: parse::ValueType::F64 },
            ],
            instructions: vec![
                parse::Instruction::I32Store(2, 20),
                parse::Instruction::CallIndirect(1, 0),
                parse::Instruction::Other(vec![0x28, 2, 4]),
                parse::Instruction::Other(vec![0x0b]),
            ],
        }])
    );
    assert_eq!(
        sections.data,
        Some(vec![parse::DataSegment {
            offset: Some(vec![parse::Instruction::I32Const(16), parse::Instruction::Other(vec![0x0b])]),
            value: vec![9, 8, 7],
        }])
    );
    let names = sections.function_names.expect("the names were given parsed");
    assert_eq!(names.len(), 1);
    assert_eq!(names.get(2).unwrap(), "first");
}

#[test]
fn sections_of_an_empty_module_are_absent() {
    let sections = parse::read_sections(&Module::new(vec![]));
    assert_eq!(sections.data, None);
    assert_eq!(sections.types, None);
    assert_eq!(sections.functions, None);
    assert_eq!(sections.code, None);
    assert_eq!(sections.function_names, None);
    assert_eq!(sections.imported_functions, 0);
}

#[test]
fn unparsed_names_are_not_read() {
    let module = parity_wasm::deserialize_buffer::<Module>(&simple_reference()).unwrap();
    assert_eq!(parse::read_sections(&module).function_names, None);
    let info = ModuleInfo::try_from(&module).unwrap();
    assert_eq!(info.functions[0].name, None);
    let module = module.parse_names().unwrap();
    let info = ModuleInfo::try_from(&module).unwrap();
    assert_eq!(info.functions[0].name, Some("square".to_string()));
    assert_eq!(info.functions[1].name, Some("squareTen".to_string()));
}

#[test]
fn indices_count_the_imports_first() {
    let reference = bytes(build(
        3,
        vec![
            def(vec![], None, vec![Instruction::Nop, Instruction::End], Some("a")),
            def(vec![ValueType::I32], None, vec![Instruction::End], Some("b")),
        ],
        vec![],
    ));
    let input = bytes(build(
        1,
        vec![
            def(vec![ValueType::I32], None, vec![Instruction::End], None),
            def(vec![], None, vec![Instruction::Nop, Instruction::End], None),
        ],
        vec![],
    ));
    let info = decoded(&input);
    assert_eq!(info.functions[0].id, 1);
    assert_eq!(info.functions[1].id, 2);
    let out = remap(&input, &reference).unwrap();
    assert_eq!(out.names.len(), 2);
    assert_eq!(out.names.get(0), None);
    assert_eq!(out.names.get(1).unwrap(), "b");
    assert_eq!(out.names.get(2).unwrap(), "a");
    assert_eq!(names_in(&out.output), vec![(1, "b".to_string()), (2, "a".to_string())]);
}

#[test]
fn repeated_runs_give_the_same_output() {
    let input = simple_input();
    let reference = simple_reference();
    let first = remap(&input, &reference).unwrap();
    let second = remap(&input, &reference).unwrap();
    assert_eq!(first.output, second.output);
    assert_eq!(first.names, second.names);
}

#[test]
fn output_decodes_to_the_functions_of_the_input() {
    let input = simple_input();
    // No function of this reference is a candidate, so no name is added.
    let reference = bytes(build(
        0,
        vec![def(vec![ValueType::F64], None, vec![Instruction::End], Some("other"))],
        vec![],
    ));
    let out = remap(&input, &reference).unwrap();
    assert_eq!(out.names.len(), 0);
    let before = decoded(&input);
    let after = decoded(&out.output);
    assert_eq!(before.functions.len(), 2);
    assert_eq!(before, after);
}

#[test]
fn second_run_keeps_the_names_of_the_first() {
    let input = simple_input();
    let reference = simple_reference();
    let first = remap(&input, &reference).unwrap();
    let second = remap(&first.output, &reference).unwrap();
    assert_eq!(first.names, second.names);
    let expected = vec![(0, "square".to_string()), (1, "squareTen".to_string())];
    assert_eq!(names_in(&first.output), expected);
    assert_eq!(names_in(&second.output), expected);
    assert_eq!(decoded(&input), decoded(&second.output));
}

#[test]
fn function_without_candidate_gets_no_name() {
    let input = bytes(build(
        0,
        vec![
            def(vec![ValueType::I64], None, vec![Instruction::End], None),
            def(vec![ValueType::I32], Some(ValueType::I32), vec![Instruction::End], None),
        ],
        vec![],
    ));
    let out = remap(&input, &simple_reference()).unwrap();
    assert_eq!(out.names.len(), 1);
    assert_eq!(out.names.get(0), None);
    assert_eq!(out.names.get(1).unwrap(), "squareTen");
    assert_eq!(names_in(&out.output), vec![(1, "squareTen".to_string())]);
}

#[test]
fn best_candidate_without_name_gives_no_entry() {
    let input = bytes(build(
        0,
        vec![def(vec![], None, vec![Instruction::Nop, Instruction::Nop, Instruction::End], None)],
        vec![],
    ));
    let reference = bytes(build(
        0,
        vec![
            def(vec![], None, vec![Instruction::Nop, Instruction::Nop, Instruction::End], None),
            def(vec![], None, vec![Instruction::Nop, Instruction::End], Some("shorter")),
        ],
        vec![],
    ));
    let out = remap(&input, &reference).unwrap();
    assert_eq!(out.names.len(), 0);
    assert_eq!(names_in(&out.output), vec![]);
}

#[test]
fn equal_weights_go_to_the_first_reference() {
    let body = vec![Instruction::Nop, Instruction::End];
    let input = bytes(build(0, vec![def(vec![], None, body.clone(), None)], vec![]));
    let reference = bytes(build(
        0,
        vec![
            def(vec![], None, body.clone(), Some("first")),
            def(vec![], None, body.clone(), Some("second")),
        ],
        vec![],
    ));
    let out = remap(&input, &reference).unwrap();
    assert_eq!(out.names.get(0).unwrap(), "first");
}

#[test]
fn pointers_into_data_of_either_module_are_taken_as_equal() {
    let data = |offset: i32| {
        DataSegment::new(
            0,
            Some(InitExpr::new(vec![Instruction::I32Const(offset), Instruction::End])),
            vec![0; 8],
        )
    };
    let input = bytes(build(
        0,
        vec![def(
            vec![],
            None,
            vec![Instruction::I32Const(104), Instruction::I32Store(2, 100), Instruction::End],
            None,
        )],
        vec![data(100)],
    ));
    let reference = bytes(build(
        0,
        vec![
            def(
                vec![],
                None,
                vec![Instruction::I32Const(7), Instruction::I32Store(2, 3), Instruction::End],
                Some("far"),
            ),
            def(
                vec![],
                None,
                vec![Instruction::I32Const(208), Instruction::I32Store(2, 200), Instruction::End],
                Some("near"),
            ),
        ],
        vec![data(200)],
    ));
    let out = remap(&input, &reference).unwrap();
    assert_eq!(out.names.get(0).unwrap(), "near");

    let strict = Remapper::builder()
        .input(&input)
        .reference(&reference)
        .ingore_constant_data_section_pointers(false)
        .build()
        .unwrap()
        .remap()
        .unwrap();
    // Without it only `end` matches in both, and the first one wins.
    assert_eq!(strict.names.get(0).unwrap(), "far");
}

#[test]
fn locals_have_to_match_unless_switched_off() {
    let mut with_local = def(vec![], None, vec![Instruction::End], None);
    with_local.locals = vec![Local::new(1, ValueType::I32)];
    let input = bytes(build(0, vec![with_local], vec![]));
    let reference = bytes(build(0, vec![def(vec![], None, vec![Instruction::End], Some("bare"))], vec![]));
    let out = remap(&input, &reference).unwrap();
    assert_eq!(out.names.len(), 0);

    let loose = Remapper::builder()
        .input(&input)
        .reference(&reference)
        .require_exact_function_locals(false)
        .build()
        .unwrap()
        .remap()
        .unwrap();
    assert_eq!(loose.names.get(0).unwrap(), "bare");
}

#[test]
fn output_is_the_input_with_one_more_section() {
    let input = simple_input();
    let out = remap(&input, &simple_reference()).unwrap();
    let before = parity_wasm::deserialize_buffer::<Module>(&input).unwrap();
    let after = parity_wasm::deserialize_buffer::<Module>(&out.output).unwrap();
    assert_eq!(after.sections().len(), before.sections().len() + 1);
    assert_eq!(&after.sections()[..before.sections().len()], before.sections());
    assert!(after.has_names_section());
    assert!(out.output.len() > input.len());
}

#[test]
fn builder_wants_both_modules() {
    let bytes = simple_input();
    assert!(matches!(Remapper::builder().build(), Err(RemapperError::MissingInput)));
    assert!(matches!(
        Remapper::builder().reference(&bytes).build(),
        Err(RemapperError::MissingInput)
    ));
    assert!(matches!(
        Remapper::builder().input(&bytes).build(),
        Err(RemapperError::MissingReference)
    ));
    assert!(matches!(
        Remapper::builder()
            .input(&bytes)
            .ingore_constant_data_section_pointers(false)
            .require_exact_function_locals(false)
            .build(),
        Err(RemapperError::MissingReference)
    ));
    assert!(Remapper::builder().input(&bytes).reference(&bytes).build().is_ok());
    // Bytes that are no module are taken here and refused by the run.
    let remapper = Remapper::builder().input(&[]).reference(&[]).build().unwrap();
    assert!(matches!(remapper.remap(), Err(RemapperError::InvalidInputBinary)));
}

#[test]
fn parse_errors_become_errors_of_the_run() {
    assert_eq!(
        RemapperError::from(ParseError::InvalidOffsetInstruction),
        RemapperError::Parse(ParseError::InvalidOffsetInstruction)
    );
    assert_eq!(
        RemapperError::from(ParseError::MissingSection("code")),
        RemapperError::Parse(ParseError::MissingSection("code"))
    );
}
