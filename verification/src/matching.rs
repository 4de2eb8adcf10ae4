//! Scoring how well a function of one module matches a function of another.

use vstd::prelude::*;
use crate::parse::function::{Function, FunctionView, Instruction, InstructionView, ValueType};
use crate::parse::{address, address_of, DataRegion, DataRegionView};
use crate::Remapper;

verus! {

/// How well two functions match: `matching` of the `total` instruction
/// positions hold equivalent instructions. It stands for the fraction
/// `matching / total`.
#[derive(Clone, Copy, Debug, PartialEq, Eq, Structural)]
pub struct Weight {
    pub matching: usize,
    pub total: usize,
}

impl DeepView for Weight {
    type V = Weight;

    open spec fn deep_view(&self) -> Weight {
        *self
    }
}

impl Weight {
    /// Whether the weight is a fraction between 0 and 1.
    pub open spec fn well_formed(self) -> bool {
        self.matching <= self.total && self.total >= 1
    }

    /// Whether `self` is a smaller fraction than `other`.
    pub open spec fn less_than(self, other: Weight) -> bool {
        self.matching * other.total < other.matching * self.total
    }

    /// Whether `self` is the fraction 0.
    pub open spec fn is_zero(self) -> bool {
        self.matching == 0
    }

    /// The weight 0, as the fraction 0 of 1.
    pub open spec fn spec_zero() -> Weight {
        Weight { matching: 0, total: 1 }
    }

    /// The weight 0, as the fraction 0 of 1.
    #[verifier::when_used_as_spec(spec_zero)]
    pub fn zero() -> (w: Weight)
        ensures
            w == Weight::spec_zero(),
    {
        Weight { matching: 0, total: 1 }
    }

    /// Tells whether `self` is a smaller fraction than `other`.
    pub fn is_less_than(&self, other: &Weight) -> (r: bool)
        ensures
            r == self.less_than(*other),
    {
        let left_matching = self.matching as u128;
        let left_total = self.total as u128;
        let right_matching = other.matching as u128;
        let right_total = other.total as u128;
        assert(left_matching * right_total <= u128::MAX) by (nonlinear_arith)
            requires
                left_matching <= u64::MAX,
                right_total <= u64::MAX,
        ;
        assert(right_matching * left_total <= u128::MAX) by (nonlinear_arith)
            requires
                right_matching <= u64::MAX,
                left_total <= u64::MAX,
        ;
        left_matching * right_total < right_matching * left_total
    }
}

/// Whether `offset` lies in one of `regions`.
pub open spec fn in_regions(regions: Seq<DataRegionView>, offset: u32) -> bool {
    exists|i: int| 0 <= i < regions.len() && (#[trigger] regions[i]).contains(offset)
}

/// Whether two instructions count as the same.
///
/// With `normalize`, two `i32.store` are equivalent where both offsets lie in
/// a data region, and two `i32.const` where both values do or where the values
/// are equal. Two `call` are equivalent, and so are two `call_indirect`. Every
/// other pair is equivalent where the two instructions are equal.
pub open spec fn instructions_match(
    regions: Seq<DataRegionView>,
    normalize: bool,
    left: InstructionView,
    right: InstructionView,
) -> bool {
    if normalize && left is I32Store && right is I32Store {
        in_regions(regions, left->I32Store_1) && in_regions(regions, right->I32Store_1)
    } else if normalize && left is I32Const && right is I32Const {
        (in_regions(regions, address_of(left->I32Const_0)) && in_regions(
            regions,
            address_of(right->I32Const_0),
        )) || left->I32Const_0 == right->I32Const_0
    } else if left is CallIndirect && right is CallIndirect {
        true
    } else if left is Call && right is Call {
        true
    } else {
        left == right
    }
}

/// Whether two functions take the same parameters and return the same.
pub open spec fn signatures_match(input: FunctionView, other: FunctionView) -> bool {
    input.param_types == other.param_types && input.return_type == other.return_type
}

/// Whether `other` may be compared with `input` at all: the signatures are
/// the same and, with `exact_locals`, so are the declared locals.
pub open spec fn is_candidate(exact_locals: bool, input: FunctionView, other: FunctionView) -> bool {
    signatures_match(input, other) && (exact_locals ==> input.local_types == other.local_types)
}

/// The number of positions below `upto` at which `left` and `right` hold
/// equivalent instructions.
pub open spec fn matching_count(
    regions: Seq<DataRegionView>,
    normalize: bool,
    left: Seq<InstructionView>,
    right: Seq<InstructionView>,
    upto: nat,
) -> nat
    decreases upto,
{
    if upto == 0 {
        0
    } else {
        let before = matching_count(regions, normalize, left, right, (upto - 1) as nat);
        if instructions_match(regions, normalize, left[upto - 1], right[upto - 1]) {
            before + 1
        } else {
            before
        }
    }
}

/// The smaller of two lengths.
pub open spec fn shorter(left: nat, right: nat) -> nat {
    if left <= right {
        left
    } else {
        right
    }
}

/// The larger of two lengths.
pub open spec fn longer(left: nat, right: nat) -> nat {
    if left <= right {
        right
    } else {
        left
    }
}

/// The weight of the pair `input` and `other`.
///
/// It is 0 where `other` is no candidate, and where both functions are
/// empty. Otherwise the instructions are compared position by position, as
/// far as the shorter function goes, and the matches are counted against the
/// length of the longer one.
pub open spec fn weight_of(
    regions: Seq<DataRegionView>,
    normalize: bool,
    exact_locals: bool,
    input: FunctionView,
    other: FunctionView,
) -> Weight {
    let total = longer(input.instructions.len(), other.instructions.len());
    if !is_candidate(exact_locals, input, other) || total == 0 {
        Weight::spec_zero()
    } else {
        Weight {
            matching: matching_count(
                regions,
                normalize,
                input.instructions,
                other.instructions,
                shorter(input.instructions.len(), other.instructions.len()),
            ) as usize,
            total: total as usize,
        }
    }
}

/// The candidates among `others`, in their order, each with its weight.
pub open spec fn candidates_of(
    regions: Seq<DataRegionView>,
    normalize: bool,
    exact_locals: bool,
    input: FunctionView,
    others: Seq<FunctionView>,
) -> Seq<(FunctionView, Weight)>
    decreases others.len(),
{
    if others.len() == 0 {
        Seq::empty()
    } else {
        let before = candidates_of(regions, normalize, exact_locals, input, others.drop_last());
        if is_candidate(exact_locals, input, others.last()) {
            before.push(
                (others.last(), weight_of(regions, normalize, exact_locals, input, others.last())),
            )
        } else {
            before
        }
    }
}

/// A count of matches is never more than the positions that were compared.
pub proof fn lemma_matching_count_bounded(
    regions: Seq<DataRegionView>,
    normalize: bool,
    left: Seq<InstructionView>,
    right: Seq<InstructionView>,
    upto: nat,
)
    ensures
        matching_count(regions, normalize, left, right, upto) <= upto,
    decreases upto,
{
    if upto > 0 {
        lemma_matching_count_bounded(regions, normalize, left, right, (upto - 1) as nat);
    }
}

/// A pair of functions whose parameter types or return types differ has the
/// weight 0.
pub proof fn lemma_signature_soundness(
    regions: Seq<DataRegionView>,
    normalize: bool,
    exact_locals: bool,
    input: FunctionView,
    other: FunctionView,
)
    requires
        input.param_types != other.param_types || input.return_type != other.return_type,
    ensures
        weight_of(regions, normalize, exact_locals, input, other).is_zero(),
{
}

/// Where the locals have to be the same, a pair of functions whose declared
/// locals differ has the weight 0, whatever their instructions are.
pub proof fn lemma_locals_gate(
    regions: Seq<DataRegionView>,
    normalize: bool,
    input: FunctionView,
    other: FunctionView,
)
    requires
        input.local_types != other.local_types,
    ensures
        weight_of(regions, normalize, true, input, other).is_zero(),
{
}

/// With pointer normalization, two `i32.store` whose offsets both lie in a
/// data region are equivalent, whatever the offsets and the alignments are.
pub proof fn lemma_stores_into_data_match(
    regions: Seq<DataRegionView>,
    left_align: u32,
    left_offset: u32,
    right_align: u32,
    right_offset: u32,
)
    requires
        in_regions(regions, left_offset),
        in_regions(regions, right_offset),
    ensures
        instructions_match(
            regions,
            true,
            InstructionView::I32Store(left_align, left_offset),
            InstructionView::I32Store(right_align, right_offset),
        ),
{
}

/// Without pointer normalization, two `i32.store` are equivalent only where
/// their operands are equal.
pub proof fn lemma_stores_match_strictly(
    regions: Seq<DataRegionView>,
    left_align: u32,
    left_offset: u32,
    right_align: u32,
    right_offset: u32,
)
    ensures
        instructions_match(
            regions,
            false,
            InstructionView::I32Store(left_align, left_offset),
            InstructionView::I32Store(right_align, right_offset),
        ) <==> left_align == right_align && left_offset == right_offset,
{
}

/// With pointer normalization, two `i32.const` are equivalent where both
/// values lie in a data region, and where the values are equal; without it,
/// only where the values are equal.
pub proof fn lemma_constants_match(
    regions: Seq<DataRegionView>,
    normalize: bool,
    left: i32,
    right: i32,
)
    ensures
        instructions_match(
            regions,
            normalize,
            InstructionView::I32Const(left),
            InstructionView::I32Const(right),
        ) <==> left == right || (normalize && in_regions(regions, address_of(left)) && in_regions(
            regions,
            address_of(right),
        )),
{
}

/// Two `call` are equivalent whatever they call, and so are two
/// `call_indirect`, whatever their type and table are.
pub proof fn lemma_calls_match(
    regions: Seq<DataRegionView>,
    normalize: bool,
    left_callee: u32,
    right_callee: u32,
    left_type: u32,
    left_table: u8,
    right_type: u32,
    right_table: u8,
)
    ensures
        instructions_match(
            regions,
            normalize,
            InstructionView::Call(left_callee),
            InstructionView::Call(right_callee),
        ),
        instructions_match(
            regions,
            normalize,
            InstructionView::CallIndirect(left_type, left_table),
            InstructionView::CallIndirect(right_type, right_table),
        ),
{
}

/// Two instructions of different kinds are never equivalent.
pub proof fn lemma_kinds_have_to_agree(
    regions: Seq<DataRegionView>,
    normalize: bool,
    left: InstructionView,
    right: InstructionView,
)
    requires
        instructions_match(regions, normalize, left, right),
    ensures
        left is I32Store <==> right is I32Store,
        left is I32Const <==> right is I32Const,
        left is Call <==> right is Call,
        left is CallIndirect <==> right is CallIndirect,
        left is Other <==> right is Other,
        left is Other ==> left == right,
{
}

/// The equivalence of instructions does not depend on their order.
pub proof fn lemma_instructions_match_symmetric(
    regions: Seq<DataRegionView>,
    normalize: bool,
    left: InstructionView,
    right: InstructionView,
)
    ensures
        instructions_match(regions, normalize, left, right) == instructions_match(
            regions,
            normalize,
            right,
            left,
        ),
{
}

/// Every candidate passes the gates, and is listed with the weight of its
/// pair; a function that is no candidate for any of `others` has no
/// candidates.
pub proof fn lemma_candidates(
    regions: Seq<DataRegionView>,
    normalize: bool,
    exact_locals: bool,
    input: FunctionView,
    others: Seq<FunctionView>,
)
    ensures
        candidates_of(regions, normalize, exact_locals, input, others).len() <= others.len(),
        forall|k: int|
            0 <= k < candidates_of(regions, normalize, exact_locals, input, others).len() ==> {
                let candidate = #[trigger] candidates_of(
                    regions,
                    normalize,
                    exact_locals,
                    input,
                    others,
                )[k];
                &&& others.contains(candidate.0)
                &&& is_candidate(exact_locals, input, candidate.0)
                &&& candidate.1 == weight_of(regions, normalize, exact_locals, input, candidate.0)
            },
        (forall|k: int| 0 <= k < others.len() ==> !is_candidate(exact_locals, input, #[trigger] others[k]))
            <==> candidates_of(regions, normalize, exact_locals, input, others).len() == 0,
    decreases others.len(),
{
    if others.len() > 0 {
        let init = others.drop_last();
        lemma_candidates(regions, normalize, exact_locals, input, init);
        let before = candidates_of(regions, normalize, exact_locals, input, init);
        let all = candidates_of(regions, normalize, exact_locals, input, others);
        assert(forall|k: int| 0 <= k < init.len() ==> init[k] == others[k]);
        assert forall|k: int| 0 <= k < all.len() implies {
            let candidate = #[trigger] all[k];
            &&& others.contains(candidate.0)
            &&& is_candidate(exact_locals, input, candidate.0)
            &&& candidate.1 == weight_of(regions, normalize, exact_locals, input, candidate.0)
        } by {
            if k < before.len() {
                assert(all[k] == before[k]);
                let at = choose|j: int| 0 <= j < init.len() && init[j] == before[k].0;
                assert(others[at] == before[k].0);
            } else {
                assert(others[others.len() - 1] == others.last());
            }
        }
        if is_candidate(exact_locals, input, others.last()) {
            assert(others[others.len() - 1] == others.last());
        } else if before.len() == 0 {
            assert forall|k: int| 0 <= k < others.len() implies !is_candidate(
                exact_locals,
                input,
                #[trigger] others[k],
            ) by {
                if k < init.len() {
                    assert(init[k] == others[k]);
                }
            }
        } else {
            assert(all == before);
            if forall|k: int| 0 <= k < others.len() ==> !is_candidate(exact_locals, input, #[trigger] others[k]) {
                assert forall|k: int| 0 <= k < init.len() implies !is_candidate(
                    exact_locals,
                    input,
                    #[trigger] init[k],
                ) by {
                    assert(init[k] == others[k]);
                }
            }
        }
    }
}

/// Tells whether two lists of value types are equal.
pub fn value_types_equal(left: &[ValueType], right: &[ValueType]) -> (r: bool)
    ensures
        r == (left@ == right@),
{
    if left.len() != right.len() {
        return false;
    }
    let mut i: usize = 0;
    while i < left.len()
        invariant
            left@.len() == right@.len(),
            i <= left@.len(),
            forall|k: int| 0 <= k < i ==> left@[k] == right@[k],
        decreases left@.len() - i,
    {
        if left[i] != right[i] {
            return false;
        }
        i += 1;
    }
    assert(left@ =~= right@);
    true
}

/// The data regions and the options that a comparison goes by.
pub struct MatchingContext<'a, 'wasm> {
    data_regions: &'a [DataRegion],
    options: &'a Remapper<'wasm>,
}

impl<'a, 'wasm> MatchingContext<'a, 'wasm> {
    /// The data regions of the context.
    pub closed spec fn regions(&self) -> Seq<DataRegionView> {
        self.data_regions.deep_view()
    }

    /// Whether pointers into data regions are taken as equal.
    pub closed spec fn normalizes(&self) -> bool {
        self.options.ignores_data_pointers()
    }

    /// Whether candidates have to declare the same locals.
    pub closed spec fn exact_locals(&self) -> bool {
        self.options.requires_exact_locals()
    }

    /// A context over the regions of both modules and the options of the run.
    pub fn new(data_regions: &'a [DataRegion], options: &'a Remapper<'wasm>) -> (ctx: Self)
        ensures
            ctx.regions() == data_regions.deep_view(),
            ctx.normalizes() == options.ignores_data_pointers(),
            ctx.exact_locals() == options.requires_exact_locals(),
    {
        Self { data_regions, options }
    }

    /// Tells whether `offset` lies in one of the data regions.
    pub fn is_in_data_regions(&self, offset: u32) -> (r: bool)
        ensures
            r == in_regions(self.regions(), offset),
    {
        let mut i: usize = 0;
        while i < self.data_regions.len()
            invariant
                i <= self.data_regions@.len(),
                forall|k: int| 0 <= k < i ==> !(#[trigger] self.regions()[k]).contains(offset),
            decreases self.data_regions@.len() - i,
        {
            assert(self.regions()[i as int] == self.data_regions@[i as int].deep_view());
            if self.data_regions[i].is_offset_inside(offset) {
                return true;
            }
            i += 1;
        }
        false
    }

    /// Tells whether both offsets lie in data regions; not needfully in the
    /// same one.
    pub fn both_locations_in_data_regions(&self, left: u32, right: u32) -> (r: bool)
        ensures
            r == (in_regions(self.regions(), left) && in_regions(self.regions(), right)),
    {
        let left_inside = self.is_in_data_regions(left);
        let right_inside = self.is_in_data_regions(right);
        left_inside && right_inside
    }

    /// Tells whether two instructions count as the same.
    pub fn do_instructions_match(&self, left: &Instruction, right: &Instruction) -> (r: bool)
        ensures
            r == instructions_match(
                self.regions(),
                self.normalizes(),
                left.deep_view(),
                right.deep_view(),
            ),
    {
        let normalize = self.options.ignores_data_pointers_enabled();
        match (left, right) {
            (Instruction::I32Store(_, left_offset), Instruction::I32Store(_, right_offset)) => {
                if normalize {
                    self.both_locations_in_data_regions(*left_offset, *right_offset)
                } else {
                    left.same(right)
                }
            },
            (Instruction::I32Const(left_const), Instruction::I32Const(right_const)) => {
                if normalize {
                    let in_data_region = self.both_locations_in_data_regions(
                        address(*left_const),
                        address(*right_const),
                    );
                    in_data_region || *left_const == *right_const
                } else {
                    left.same(right)
                }
            },
            (Instruction::CallIndirect(_, _), Instruction::CallIndirect(_, _)) => true,
            (Instruction::Call(_), Instruction::Call(_)) => true,
            (_, _) => left.same(right),
        }
    }

    /// Tells whether two functions take the same parameters and return the
    /// same.
    pub fn does_signiture_match(&self, input: &Function, other: &Function) -> (r: bool)
        ensures
            r == signatures_match(input.deep_view(), other.deep_view()),
    {
        value_types_equal(input.param_types.as_slice(), other.param_types.as_slice())
            && input.return_type == other.return_type
    }

    /// Tells whether `other` may be compared with `input` at all.
    pub fn is_candidate_for(&self, input: &Function, other: &Function) -> (r: bool)
        ensures
            r == is_candidate(self.exact_locals(), input.deep_view(), other.deep_view()),
    {
        if !self.does_signiture_match(input, other) {
            false
        } else if self.options.exact_locals_required() {
            value_types_equal(input.local_types.as_slice(), other.local_types.as_slice())
        } else {
            true
        }
    }

    /// The weight of the pair `input` and `other`.
    pub fn get_match_weight_for(&self, input: &Function, other: &Function) -> (w: Weight)
        ensures
            w == weight_of(
                self.regions(),
                self.normalizes(),
                self.exact_locals(),
                input.deep_view(),
                other.deep_view(),
            ),
            w.well_formed(),
    {
        let input_len = input.instructions.len();
        let other_len = other.instructions.len();
        let max_instructions = if input_len <= other_len {
            other_len
        } else {
            input_len
        };
        let compared = if input_len <= other_len {
            input_len
        } else {
            other_len
        };
        if !self.is_candidate_for(input, other) || max_instructions == 0 {
            return Weight::zero();
        }
        let ghost left = input.instructions.deep_view();
        let ghost right = other.instructions.deep_view();
        let mut matching: usize = 0;
        let mut i: usize = 0;
        while i < compared
            invariant
                left == input.instructions.deep_view(),
                right == other.instructions.deep_view(),
                compared <= input.instructions@.len(),
                compared <= other.instructions@.len(),
                i <= compared,
                matching <= i,
                matching == matching_count(self.regions(), self.normalizes(), left, right, i as nat),
            decreases compared - i,
        {
            assert(left[i as int] == input.instructions@[i as int].deep_view());
            assert(right[i as int] == other.instructions@[i as int].deep_view());
            if self.do_instructions_match(&input.instructions[i], &other.instructions[i]) {
                matching += 1;
            }
            i += 1;
        }
        Weight { matching, total: max_instructions }
    }

    /// The candidates among `others`, in their order, each with its weight.
    pub fn find_matches<'func>(&self, input: &Function, others: &'func [Function]) -> (matches: Vec<
        (&'func Function, Weight),
    >)
        ensures
            matches.deep_view() == candidates_of(
                self.regions(),
                self.normalizes(),
                self.exact_locals(),
                input.deep_view(),
                others.deep_view(),
            ),
            forall|k: int| 0 <= k < matches@.len() ==> (#[trigger] matches@[k]).1.well_formed(),
    {
        let mut matches: Vec<(&'func Function, Weight)> = Vec::new();
        let mut i: usize = 0;
        while i < others.len()
            invariant
                i <= others@.len(),
                matches.deep_view() == candidates_of(
                    self.regions(),
                    self.normalizes(),
                    self.exact_locals(),
                    input.deep_view(),
                    others.deep_view().take(i as int),
                ),
                forall|k: int| 0 <= k < matches@.len() ==> (#[trigger] matches@[k]).1.well_formed(),
            decreases others@.len() - i,
        {
            let other = &others[i];
            assert(others.deep_view().take(i + 1).drop_last() =~= others.deep_view().take(i as int));
            assert(others.deep_view().take(i + 1).last() == other.deep_view());
            if self.is_candidate_for(input, other) {
                let weight = self.get_match_weight_for(input, other);
                let ghost before = matches.deep_view();
                matches.push((other, weight));
                assert(matches.deep_view() =~= before.push((other.deep_view(), weight)));
            }
            i += 1;
        }
        assert(others.deep_view().take(others@.len() as int) =~= others.deep_view());
        matches
    }
}

} // verus!
