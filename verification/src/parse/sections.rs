//! The sections of a module that the decoder reads, as plain values.

use vstd::prelude::*;
use parity_wasm::elements::NameMap;
use crate::parse::function::{Instruction, InstructionView, ValueType};
use crate::wasm::name_map_entries;

verus! {

/// The signature in an entry of the type section.
#[derive(Debug, PartialEq, Eq)]
pub struct FunctionType {
    pub params: Vec<ValueType>,
    pub return_type: Option<ValueType>,
}

/// The mathematical value of a [`FunctionType`].
#[verifier::ext_equal]
pub struct FunctionTypeView {
    pub params: Seq<ValueType>,
    pub return_type: Option<ValueType>,
}

impl DeepView for FunctionType {
    type V = FunctionTypeView;

    open spec fn deep_view(&self) -> FunctionTypeView {
        FunctionTypeView { params: self.params@, return_type: self.return_type }
    }
}

/// A run of locals of one type, as a function body declares them.
#[derive(Clone, Copy, Debug, PartialEq, Eq, Structural)]
pub struct Local {
    pub count: u32,
    pub value_type: ValueType,
}

impl DeepView for Local {
    type V = Local;

    open spec fn deep_view(&self) -> Local {
        *self
    }
}

/// An entry of the code section.
#[derive(Debug, PartialEq, Eq)]
pub struct FunctionBody {
    pub locals: Vec<Local>,
    pub instructions: Vec<Instruction>,
}

/// The mathematical value of a [`FunctionBody`].
#[verifier::ext_equal]
pub struct FunctionBodyView {
    pub locals: Seq<Local>,
    pub instructions: Seq<InstructionView>,
}

impl DeepView for FunctionBody {
    type V = FunctionBodyView;

    open spec fn deep_view(&self) -> FunctionBodyView {
        FunctionBodyView { locals: self.locals@, instructions: self.instructions.deep_view() }
    }
}

/// An entry of the data section.
#[derive(Debug, PartialEq, Eq)]
pub struct DataSegment {
    /// The expression that gives the address at which the bytes are loaded.
    pub offset: Option<Vec<Instruction>>,
    pub value: Vec<u8>,
}

/// The mathematical value of a [`DataSegment`].
#[verifier::ext_equal]
pub struct DataSegmentView {
    pub offset: Option<Seq<InstructionView>>,
    pub value: Seq<u8>,
}

impl DeepView for DataSegment {
    type V = DataSegmentView;

    open spec fn deep_view(&self) -> DataSegmentView {
        DataSegmentView { offset: self.offset.deep_view(), value: self.value@ }
    }
}

/// What the decoder reads of a module. A section that the module lacks is
/// `None`.
#[derive(Debug, PartialEq, Eq)]
pub struct ModuleSections {
    /// The data section.
    pub data: Option<Vec<DataSegment>>,
    /// The type section.
    pub types: Option<Vec<FunctionType>>,
    /// The function section: for each defined function the index of its type.
    pub functions: Option<Vec<u32>>,
    /// The code section.
    pub code: Option<Vec<FunctionBody>>,
    /// The function names of the name section, where it has been parsed.
    pub function_names: Option<NameMap>,
    /// The number of functions that the module imports.
    pub imported_functions: usize,
}

/// The mathematical value of a [`ModuleSections`].
#[verifier::ext_equal]
pub struct ModuleSectionsView {
    pub data: Option<Seq<DataSegmentView>>,
    pub types: Option<Seq<FunctionTypeView>>,
    pub functions: Option<Seq<u32>>,
    pub code: Option<Seq<FunctionBodyView>>,
    pub function_names: Option<Map<u32, Seq<char>>>,
    pub imported_functions: nat,
}

impl DeepView for ModuleSections {
    type V = ModuleSectionsView;

    open spec fn deep_view(&self) -> ModuleSectionsView {
        ModuleSectionsView {
            data: self.data.deep_view(),
            types: self.types.deep_view(),
            functions: self.functions.deep_view(),
            code: self.code.deep_view(),
            function_names: match self.function_names {
                Some(names) => Some(name_map_entries(names)),
                None => None,
            },
            imported_functions: self.imported_functions as nat,
        }
    }
}

} // verus!
