//! Recovers function names for a stripped WebAssembly module by comparing it
//! with a reference module that still carries its debug names.

pub mod matching;
pub mod names;
pub mod parse;
pub mod wasm;

use vstd::prelude::*;
use parity_wasm::elements::{Module, NameMap, NameSection};
use crate::matching::{MatchingContext, Weight};
use crate::names::{
    assign_names, assigned_names, assigned_names_fit, has_no_match, leaves_unmatched_unnamed,
    lemma_no_candidate_no_name,
};
use crate::parse::{
    decode, lemma_decoded_is_well_formed, DataRegion, ModuleInfo, ModuleInfoView, ParseError,
};
use crate::wasm::{
    decode_module, function_names_read, insert_name_section, module_bytes, module_decoded,
    module_sections, module_with_names, module_writable, name_map_bytes, name_map_entries,
    name_section_of_functions, name_section_with, names_parsed, names_writable, parse_names,
    read_function_names, serialize_module, serialize_name_map, MAX_NAME_PAYLOAD,
};

verus! {

/// Why no [`Remapper`] is made, or why a run gives no output.
#[derive(Debug, PartialEq, Eq)]
pub enum RemapperError {
    /// No input was set when the [`Remapper`] was to be made.
    MissingInput,
    /// No reference was set when the [`Remapper`] was to be made.
    MissingReference,
    /// The bytes of the input are no module.
    InvalidInputBinary,
    /// The bytes of the reference are no module, or its names cannot be read.
    InvalidReferenceBinary,
    /// One of the two modules cannot be decoded.
    Parse(ParseError),
    /// The names cannot be written into the module.
    Serialization,
}

impl RemapperError {
    /// Whether the error is one of making a [`Remapper`]: a module that was
    /// never set. A run gives no such error.
    pub open spec fn is_of_construction(self) -> bool {
        self == RemapperError::MissingInput || self == RemapperError::MissingReference
    }
}

impl From<ParseError> for RemapperError {
    fn from(error: ParseError) -> (r: RemapperError) {
        RemapperError::Parse(error)
    }
}

impl vstd::std_specs::convert::FromSpecImpl<ParseError> for RemapperError {
    open spec fn obeys_from_spec() -> bool {
        true
    }

    open spec fn from_spec(error: ParseError) -> RemapperError {
        RemapperError::Parse(error)
    }
}

/// What a run gives.
#[derive(Debug)]
pub struct RemapperOutput {
    /// The input module with the names of its functions added.
    pub output: Vec<u8>,
    /// The name that each function got, by the index of the function.
    pub names: NameMap,
}

/// The two modules of one run, and how their functions are compared.
#[derive(Debug)]
pub struct Remapper<'wasm> {
    input: &'wasm [u8],
    reference: &'wasm [u8],
    ingore_constant_data_section_pointers: bool,
    require_exact_function_locals: bool,
    matching_threshold: Weight,
}

/// Collects what a [`Remapper`] is made of.
#[derive(Debug)]
pub struct RemapperBuilder<'wasm> {
    input: Option<&'wasm [u8]>,
    reference: Option<&'wasm [u8]>,
    ingore_constant_data_section_pointers: bool,
    require_exact_function_locals: bool,
    matching_threshold: Weight,
}

/// The name section that is made of `entries` for `module`: the entries are
/// written as bytes and read back as the function names of `module`. There is
/// none where the bytes are too many or are refused as names of `module`.
pub open spec fn name_section_of(module: Module, entries: Map<u32, Seq<char>>) -> Option<
    NameSection,
> {
    let payload = name_map_bytes(entries);
    if payload.len() <= MAX_NAME_PAYLOAD {
        match function_names_read(module, payload) {
            Some(functions) => Some(name_section_with(functions)),
            None => None,
        }
    } else {
        None
    }
}

/// The bytes of `module` with the name section of `entries` added.
pub open spec fn bytes_with_names(module: Module, entries: Map<u32, Seq<char>>) -> Option<Seq<u8>> {
    match name_section_of(module, entries) {
        Some(section) => Some(module_bytes(module_with_names(module, section))),
        None => None,
    }
}

/// What a run on the modules `input` and `reference` gives: the bytes of the
/// output and the names that were given, or the error.
///
/// The input is read first, then the reference and its names. The input is
/// decoded before the reference. The functions are compared over the data
/// regions of both modules, those of the input first.
pub open spec fn remap_outcome(
    input: Seq<u8>,
    reference: Seq<u8>,
    normalize: bool,
    exact_locals: bool,
) -> Result<(Seq<u8>, Map<u32, Seq<char>>), RemapperError> {
    if module_decoded(input) is None {
        Err(RemapperError::InvalidInputBinary)
    } else if module_decoded(reference) is None || names_parsed(module_decoded(reference)->Some_0)
        is None {
        Err(RemapperError::InvalidReferenceBinary)
    } else {
        let input_module = module_decoded(input)->Some_0;
        let reference_module = names_parsed(module_decoded(reference)->Some_0)->Some_0;
        match decode(module_sections(input_module)) {
            Err(e) => Err(RemapperError::Parse(e)),
            Ok(input_info) => match decode(module_sections(reference_module)) {
                Err(e) => Err(RemapperError::Parse(e)),
                Ok(reference_info) => {
                    let regions = input_info.data_regions + reference_info.data_regions;
                    let names = assigned_names(
                        regions,
                        normalize,
                        exact_locals,
                        input_info.functions,
                        reference_info.functions,
                    );
                    if input_info.functions.len() > u32::MAX || !assigned_names_fit(
                        regions,
                        normalize,
                        exact_locals,
                        input_info.functions,
                        reference_info.functions,
                    ) {
                        Err(RemapperError::Serialization)
                    } else {
                        match bytes_with_names(input_module, names) {
                            Some(bytes) => Ok((bytes, names)),
                            None => Err(RemapperError::Serialization),
                        }
                    }
                },
            },
        }
    }
}

/// The functions and data regions that a run decodes from the bytes of its
/// input, where they are a module that decodes.
pub open spec fn decoded_input(input: Seq<u8>) -> ModuleInfoView {
    decode(module_sections(module_decoded(input)->Some_0))->Ok_0
}

/// The functions and data regions that a run decodes from the bytes of its
/// reference, where they are a module whose names are parsed and that
/// decodes.
pub open spec fn decoded_reference(reference: Seq<u8>) -> ModuleInfoView {
    decode(module_sections(names_parsed(module_decoded(reference)->Some_0)->Some_0))->Ok_0
}

/// A run gives no error of making a [`Remapper`].
pub proof fn lemma_run_gives_no_construction_error(
    input: Seq<u8>,
    reference: Seq<u8>,
    normalize: bool,
    exact_locals: bool,
)
    ensures
        remap_outcome(input, reference, normalize, exact_locals) matches Err(e)
            ==> !e.is_of_construction(),
{
}

/// In the names that a run gives, a function of the input whose signature is
/// that of no function of the reference has no entry.
pub proof fn lemma_run_leaves_unmatched_unnamed(
    input: Seq<u8>,
    reference: Seq<u8>,
    normalize: bool,
    exact_locals: bool,
    position: int,
)
    requires
        remap_outcome(input, reference, normalize, exact_locals) is Ok,
        0 <= position < decoded_input(input).functions.len(),
        has_no_match(decoded_input(input).functions[position], decoded_reference(reference).functions),
    ensures
        !remap_outcome(input, reference, normalize, exact_locals)->Ok_0.1.contains_key(
            decoded_input(input).functions[position].id,
        ),
{
    let input_info = decoded_input(input);
    let reference_info = decoded_reference(reference);
    lemma_decoded_is_well_formed(module_sections(module_decoded(input)->Some_0));
    lemma_no_candidate_no_name(
        input_info.data_regions + reference_info.data_regions,
        normalize,
        exact_locals,
        input_info.functions,
        reference_info.functions,
        position,
    );
}

/// Whether `result` is what a run on `input` and `reference` gives.
pub open spec fn is_outcome(
    result: Result<RemapperOutput, RemapperError>,
    input: Seq<u8>,
    reference: Seq<u8>,
    normalize: bool,
    exact_locals: bool,
) -> bool {
    match result {
        Ok(out) => remap_outcome(input, reference, normalize, exact_locals) == Ok::<
            (Seq<u8>, Map<u32, Seq<char>>),
            RemapperError,
        >((out.output@, name_map_entries(out.names))),
        Err(e) => remap_outcome(input, reference, normalize, exact_locals) == Err::<
            (Seq<u8>, Map<u32, Seq<char>>),
            RemapperError,
        >(e),
    }
}

/// Two runs on the same modules with the same options end alike: both fail
/// with the same error, or both give the same bytes and the same names.
pub proof fn lemma_runs_agree(
    first: Result<RemapperOutput, RemapperError>,
    second: Result<RemapperOutput, RemapperError>,
    input: Seq<u8>,
    reference: Seq<u8>,
    normalize: bool,
    exact_locals: bool,
)
    requires
        is_outcome(first, input, reference, normalize, exact_locals),
        is_outcome(second, input, reference, normalize, exact_locals),
    ensures
        match (first, second) {
            (Ok(a), Ok(b)) => a.output@ == b.output@ && name_map_entries(a.names)
                == name_map_entries(b.names),
            (Err(a), Err(b)) => a == b,
            _ => false,
        },
{
}

/// Copies the regions of `first`, then those of `second`, into one list.
pub fn pool_regions(first: &[DataRegion], second: &[DataRegion]) -> (pooled: Vec<DataRegion>)
    ensures
        pooled.deep_view() == first.deep_view() + second.deep_view(),
{
    let mut pooled: Vec<DataRegion> = Vec::new();
    let mut i: usize = 0;
    while i < first.len()
        invariant
            i <= first@.len(),
            pooled@.len() == i,
            forall|k: int| 0 <= k < i ==> (#[trigger] pooled@[k]).deep_view() == first@[k].deep_view(),
        decreases first@.len() - i,
    {
        pooled.push(first[i].duplicate());
        i += 1;
    }
    let mut j: usize = 0;
    while j < second.len()
        invariant
            j <= second@.len(),
            pooled@.len() == first@.len() + j,
            forall|k: int|
                0 <= k < first@.len() ==> (#[trigger] pooled@[k]).deep_view()
                    == first@[k].deep_view(),
            forall|k: int|
                0 <= k < j ==> (#[trigger] pooled@[first@.len() + k]).deep_view()
                    == second@[k].deep_view(),
        decreases second@.len() - j,
    {
        pooled.push(second[j].duplicate());
        j += 1;
    }
    assert(pooled.deep_view() =~= first.deep_view() + second.deep_view()) by {
        assert forall|k: int| 0 <= k < pooled@.len() implies pooled.deep_view()[k] == (
        first.deep_view() + second.deep_view())[k] by {
            if k >= first@.len() {
                assert(pooled@[first@.len() + (k - first@.len())].deep_view() == second@[k
                    - first@.len()].deep_view());
            }
        }
    }
    pooled
}

impl<'wasm> Remapper<'wasm> {
    /// The bytes of the module that gets the names.
    pub closed spec fn input_bytes(&self) -> Seq<u8> {
        self.input@
    }

    /// The bytes of the module that the names are taken from.
    pub closed spec fn reference_bytes(&self) -> Seq<u8> {
        self.reference@
    }

    /// Whether constants and store offsets that point into a data region
    /// count as equal.
    pub closed spec fn ignores_data_pointers(&self) -> bool {
        self.ingore_constant_data_section_pointers
    }

    /// Whether two functions have to declare the same locals to match.
    pub closed spec fn requires_exact_locals(&self) -> bool {
        self.require_exact_function_locals
    }

    /// The weight that was set as the threshold of a match.
    pub closed spec fn threshold(&self) -> Weight {
        self.matching_threshold
    }

    /// The weight that was set as the threshold of a match. It is kept with
    /// the options and has no effect: no candidate is dropped for a weight
    /// below it, and the outcome of [`Remapper::remap`] does not depend on it.
    pub fn matching_threshold(&self) -> (threshold: Weight)
        ensures
            threshold == self.threshold(),
    {
        self.matching_threshold
    }

    /// Tells whether constants and store offsets that point into a data
    /// region count as equal.
    pub fn ignores_data_pointers_enabled(&self) -> (r: bool)
        ensures
            r == self.ignores_data_pointers(),
    {
        self.ingore_constant_data_section_pointers
    }

    /// Tells whether two functions have to declare the same locals to match.
    pub fn exact_locals_required(&self) -> (r: bool)
        ensures
            r == self.requires_exact_locals(),
    {
        self.require_exact_function_locals
    }

    /// A builder with no modules yet, both options switched on and the
    /// threshold 0.
    pub fn builder() -> (builder: RemapperBuilder<'wasm>)
        ensures
            builder.input_bytes() is None,
            builder.reference_bytes() is None,
            builder.ignores_data_pointers(),
            builder.requires_exact_locals(),
            builder.threshold() == Weight::spec_zero(),
    {
        RemapperBuilder {
            input: None,
            reference: None,
            ingore_constant_data_section_pointers: true,
            require_exact_function_locals: true,
            matching_threshold: Weight::zero(),
        }
    }

    /// Gives the functions of the input the names of their best matches in
    /// the reference, and writes the names into the input module.
    pub fn remap(&self) -> (r: Result<RemapperOutput, RemapperError>)
        ensures
            is_outcome(
                r,
                self.input_bytes(),
                self.reference_bytes(),
                self.ignores_data_pointers(),
                self.requires_exact_locals(),
            ),
            r matches Err(e) ==> !e.is_of_construction(),
            self.input_bytes().len() == 0 ==> r == Err::<RemapperOutput, RemapperError>(
                RemapperError::InvalidInputBinary,
            ),
            self.reference_bytes().len() == 0 ==> r == Err::<RemapperOutput, RemapperError>(
                RemapperError::InvalidInputBinary,
            ) || r == Err::<RemapperOutput, RemapperError>(RemapperError::InvalidReferenceBinary),
    {
        let input = match decode_module(self.input) {
            Ok(module) => module,
            Err(_) => { return Err(RemapperError::InvalidInputBinary); },
        };
        let reference = match decode_module(self.reference) {
            Ok(module) => module,
            Err(_) => { return Err(RemapperError::InvalidReferenceBinary); },
        };
        let reference = match parse_names(reference) {
            Some(module) => module,
            None => { return Err(RemapperError::InvalidReferenceBinary); },
        };
        let input_info = match ModuleInfo::try_from(&input) {
            Ok(info) => info,
            Err(e) => { return Err(RemapperError::Parse(e)); },
        };
        let reference_info = match ModuleInfo::try_from(&reference) {
            Ok(info) => info,
            Err(e) => { return Err(RemapperError::Parse(e)); },
        };
        let data_regions = pool_regions(
            input_info.data_regions.as_slice(),
            reference_info.data_regions.as_slice(),
        );
        let match_ctx = MatchingContext::new(data_regions.as_slice(), self);
        let (name_map, fits) = assign_names(&input_info, &reference_info, &match_ctx);
        if input_info.functions.len() > u32::MAX as usize || !fits {
            return Err(RemapperError::Serialization);
        }
        let name_section = match self.build_name_section(&input, &name_map) {
            Ok(section) => section,
            Err(e) => { return Err(e); },
        };
        let ghost source = self.input@;
        let ghost payload = name_map_bytes(name_map_entries(name_map));
        let mut output_module = input;
        match insert_name_section(&mut output_module, name_section) {
            Ok(_) => {},
            // Not reached: a name section is always taken.
            Err(_) => { return Err(RemapperError::Serialization); },
        }
        assert(module_writable(output_module)) by {
            assert(module_decoded(source) is Some);
            assert(function_names_read(module_decoded(source)->Some_0, payload) is Some);
        }
        match serialize_module(output_module) {
            Ok(output) => Ok(RemapperOutput { output, names: name_map }),
            // Not reached: writing into a vector does not fail.
            Err(_) => Err(RemapperError::Serialization),
        }
    }

    /// Gives each function of `input_info` that has a candidate in
    /// `reference_info` the name of its best one, if that one has a name.
    pub fn build_name_map(
        &self,
        input_info: &ModuleInfo,
        reference_info: &ModuleInfo,
        match_ctx: MatchingContext,
    ) -> (name_map: NameMap)
        ensures
            name_map_entries(name_map) == assigned_names(
                match_ctx.regions(),
                match_ctx.normalizes(),
                match_ctx.exact_locals(),
                input_info.deep_view().functions,
                reference_info.deep_view().functions,
            ),
            leaves_unmatched_unnamed(
                name_map_entries(name_map),
                input_info.deep_view().functions,
                reference_info.deep_view().functions,
            ),
    {
        let (name_map, _) = assign_names(input_info, reference_info, &match_ctx);
        name_map
    }

    /// Makes the name section that gives the functions of `module` the names
    /// of `name_map`.
    fn build_name_section(&self, module: &Module, name_map: &NameMap) -> (r: Result<
        NameSection,
        RemapperError,
    >)
        requires
            names_writable(name_map_entries(*name_map)),
        ensures
            match r {
                Ok(section) => name_section_of(*module, name_map_entries(*name_map)) == Some(
                    section,
                ),
                Err(e) => e == RemapperError::Serialization && name_section_of(
                    *module,
                    name_map_entries(*name_map),
                ) is None,
            },
    {
        let buffer = match serialize_name_map(name_map) {
            Ok(buffer) => buffer,
            // Not reached: writing into a vector does not fail.
            Err(_) => { return Err(RemapperError::Serialization); },
        };
        if buffer.len() > MAX_NAME_PAYLOAD {
            return Err(RemapperError::Serialization);
        }
        match read_function_names(module, buffer.as_slice()) {
            Ok(functions) => Ok(name_section_of_functions(functions)),
            Err(_) => Err(RemapperError::Serialization),
        }
    }
}

impl<'wasm> RemapperBuilder<'wasm> {
    /// The bytes of the input, once they are set.
    pub closed spec fn input_bytes(&self) -> Option<Seq<u8>> {
        match self.input {
            Some(bytes) => Some(bytes@),
            None => None,
        }
    }

    /// The bytes of the reference, once they are set.
    pub closed spec fn reference_bytes(&self) -> Option<Seq<u8>> {
        match self.reference {
            Some(bytes) => Some(bytes@),
            None => None,
        }
    }

    /// Whether constants and store offsets that point into a data region
    /// will count as equal.
    pub closed spec fn ignores_data_pointers(&self) -> bool {
        self.ingore_constant_data_section_pointers
    }

    /// Whether two functions will have to declare the same locals to match.
    pub closed spec fn requires_exact_locals(&self) -> bool {
        self.require_exact_function_locals
    }

    /// The weight that is set as the threshold of a match.
    pub closed spec fn threshold(&self) -> Weight {
        self.matching_threshold
    }

    /// Sets the module that gets the names.
    pub fn input(self, input: &'wasm [u8]) -> (builder: Self)
        ensures
            builder.input_bytes() == Some(input@),
            builder.reference_bytes() == self.reference_bytes(),
            builder.ignores_data_pointers() == self.ignores_data_pointers(),
            builder.requires_exact_locals() == self.requires_exact_locals(),
            builder.threshold() == self.threshold(),
    {
        RemapperBuilder {
            input: Some(input),
            reference: self.reference,
            ingore_constant_data_section_pointers: self.ingore_constant_data_section_pointers,
            require_exact_function_locals: self.require_exact_function_locals,
            matching_threshold: self.matching_threshold,
        }
    }

    /// Sets the module that the names are taken from.
    pub fn reference(self, reference: &'wasm [u8]) -> (builder: Self)
        ensures
            builder.input_bytes() == self.input_bytes(),
            builder.reference_bytes() == Some(reference@),
            builder.ignores_data_pointers() == self.ignores_data_pointers(),
            builder.requires_exact_locals() == self.requires_exact_locals(),
            builder.threshold() == self.threshold(),
    {
        RemapperBuilder {
            input: self.input,
            reference: Some(reference),
            ingore_constant_data_section_pointers: self.ingore_constant_data_section_pointers,
            require_exact_function_locals: self.require_exact_function_locals,
            matching_threshold: self.matching_threshold,
        }
    }

    /// Sets whether constants and store offsets that point into a data region
    /// count as equal, whatever their values.
    pub fn ingore_constant_data_section_pointers(self, enabled: bool) -> (builder: Self)
        ensures
            builder.input_bytes() == self.input_bytes(),
            builder.reference_bytes() == self.reference_bytes(),
            builder.ignores_data_pointers() == enabled,
            builder.requires_exact_locals() == self.requires_exact_locals(),
            builder.threshold() == self.threshold(),
    {
        RemapperBuilder {
            input: self.input,
            reference: self.reference,
            ingore_constant_data_section_pointers: enabled,
            require_exact_function_locals: self.require_exact_function_locals,
            matching_threshold: self.matching_threshold,
        }
    }

    /// Sets whether two functions have to declare the same locals to match.
    pub fn require_exact_function_locals(self, enabled: bool) -> (builder: Self)
        ensures
            builder.input_bytes() == self.input_bytes(),
            builder.reference_bytes() == self.reference_bytes(),
            builder.ignores_data_pointers() == self.ignores_data_pointers(),
            builder.requires_exact_locals() == enabled,
            builder.threshold() == self.threshold(),
    {
        RemapperBuilder {
            input: self.input,
            reference: self.reference,
            ingore_constant_data_section_pointers: self.ingore_constant_data_section_pointers,
            require_exact_function_locals: enabled,
            matching_threshold: self.matching_threshold,
        }
    }

    /// Sets the threshold of a match. It is kept with the options and has no
    /// effect on what is matched.
    pub fn matching_threshold(self, threshold: Weight) -> (builder: Self)
        ensures
            builder.input_bytes() == self.input_bytes(),
            builder.reference_bytes() == self.reference_bytes(),
            builder.ignores_data_pointers() == self.ignores_data_pointers(),
            builder.requires_exact_locals() == self.requires_exact_locals(),
            builder.threshold() == threshold,
    {
        RemapperBuilder {
            input: self.input,
            reference: self.reference,
            ingore_constant_data_section_pointers: self.ingore_constant_data_section_pointers,
            require_exact_function_locals: self.require_exact_function_locals,
            matching_threshold: threshold,
        }
    }

    /// Makes the [`Remapper`]. Both modules have to be set: without the input
    /// the error is `MissingInput`, else without the reference
    /// `MissingReference`. Whether the bytes are modules is found by the run.
    pub fn build(&self) -> (r: Result<Remapper<'wasm>, RemapperError>)
        ensures
            match r {
                Ok(remapper) => self.input_bytes() == Some(remapper.input_bytes())
                    && self.reference_bytes() == Some(remapper.reference_bytes())
                    && remapper.ignores_data_pointers() == self.ignores_data_pointers()
                    && remapper.requires_exact_locals() == self.requires_exact_locals()
                    && remapper.threshold() == self.threshold(),
                Err(e) => e.is_of_construction() && if self.input_bytes() is None {
                    e == RemapperError::MissingInput
                } else {
                    e == RemapperError::MissingReference && self.reference_bytes() is None
                },
            },
    {
        let input = match self.input {
            Some(input) => input,
            None => { return Err(RemapperError::MissingInput); },
        };
        let reference = match self.reference {
            Some(reference) => reference,
            None => { return Err(RemapperError::MissingReference); },
        };
        Ok(
            Remapper {
                input,
                reference,
                ingore_constant_data_section_pointers: self.ingore_constant_data_section_pointers,
                require_exact_function_locals: self.require_exact_function_locals,
                matching_threshold: self.matching_threshold,
            },
        )
    }
}

} // verus!
