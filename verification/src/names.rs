//! Choosing, for each function of the input, the name of its best match.

use vstd::prelude::*;
use parity_wasm::elements::NameMap;
use crate::matching::{candidates_of, lemma_candidates, signatures_match, MatchingContext, Weight};
use crate::parse::function::{Function, FunctionView};
use crate::parse::{DataRegionView, ModuleInfo};
use crate::wasm::{
    name_at, name_fits, name_map_entries, name_map_insert, name_map_with_capacity, names_fit,
    no_names,
};

verus! {

/// The place of the best candidate: the one with the greatest weight, and
/// among several of that weight the one that comes first. For an empty list
/// it is 0.
pub open spec fn best_position(candidates: Seq<(FunctionView, Weight)>) -> int
    decreases candidates.len(),
{
    if candidates.len() <= 1 {
        0
    } else {
        let before = best_position(candidates.drop_last());
        if candidates[before].1.less_than(candidates.last().1) {
            candidates.len() - 1
        } else {
            before
        }
    }
}

/// The name of the best candidate, if there is a candidate and it has one.
pub open spec fn best_name(candidates: Seq<(FunctionView, Weight)>) -> Option<Seq<char>> {
    if candidates.len() == 0 {
        None
    } else {
        candidates[best_position(candidates)].0.name
    }
}

/// The names that the functions of `inputs` get from `references`: each
/// function that has a candidate whose best one is named gets that name under
/// its own index.
pub open spec fn assigned_names(
    regions: Seq<DataRegionView>,
    normalize: bool,
    exact_locals: bool,
    inputs: Seq<FunctionView>,
    references: Seq<FunctionView>,
) -> Map<u32, Seq<char>>
    decreases inputs.len(),
{
    if inputs.len() == 0 {
        no_names()
    } else {
        let before = assigned_names(regions, normalize, exact_locals, inputs.drop_last(), references);
        match best_name(
            candidates_of(regions, normalize, exact_locals, inputs.last(), references),
        ) {
            Some(name) => before.insert(inputs.last().id, name),
            None => before,
        }
    }
}

/// Whether the name that the function at `position` of `inputs` gets, if it
/// gets one, fits.
pub open spec fn assigned_name_fits(
    regions: Seq<DataRegionView>,
    normalize: bool,
    exact_locals: bool,
    inputs: Seq<FunctionView>,
    references: Seq<FunctionView>,
    position: int,
) -> bool {
    match best_name(candidates_of(regions, normalize, exact_locals, inputs[position], references)) {
        Some(name) => name_fits(name),
        None => true,
    }
}

/// Whether each name that a function of `inputs` gets fits.
pub open spec fn assigned_names_fit(
    regions: Seq<DataRegionView>,
    normalize: bool,
    exact_locals: bool,
    inputs: Seq<FunctionView>,
    references: Seq<FunctionView>,
) -> bool {
    forall|position: int|
        0 <= position < inputs.len() ==> #[trigger] assigned_name_fits(
            regions,
            normalize,
            exact_locals,
            inputs,
            references,
            position,
        )
}

/// The order of weights is transitive.
pub proof fn lemma_less_than_transitive(a: Weight, b: Weight, c: Weight)
    requires
        a.well_formed(),
        b.well_formed(),
        c.well_formed(),
        !b.less_than(a),
        !c.less_than(b),
    ensures
        !c.less_than(a),
        a.less_than(b) || b.less_than(c) ==> a.less_than(c),
{
    let (am, at) = (a.matching as int, a.total as int);
    let (bm, bt) = (b.matching as int, b.total as int);
    let (cm, ct) = (c.matching as int, c.total as int);
    assert(am * bt <= bm * at);
    assert(bm * ct <= cm * bt);
    assert(am * ct * bt <= cm * at * bt) by (nonlinear_arith)
        requires
            am * bt <= bm * at,
            bm * ct <= cm * bt,
            at >= 1,
            bt >= 1,
            ct >= 1,
            am >= 0,
            bm >= 0,
            cm >= 0,
    ;
    assert(am * ct <= cm * at) by (nonlinear_arith)
        requires
            am * ct * bt <= cm * at * bt,
            bt >= 1,
    ;
    if a.less_than(b) || b.less_than(c) {
        assert(am * ct * bt < cm * at * bt) by (nonlinear_arith)
            requires
                am * bt <= bm * at,
                bm * ct <= cm * bt,
                am * bt < bm * at || bm * ct < cm * bt,
                at >= 1,
                bt >= 1,
                ct >= 1,
                am >= 0,
                bm >= 0,
                cm >= 0,
        ;
        assert(am * ct < cm * at) by (nonlinear_arith)
            requires
                am * ct * bt < cm * at * bt,
                bt >= 1,
        ;
    }
}

/// The best candidate is as good as every candidate, and better than every
/// candidate before it.
pub proof fn lemma_best_is_first_greatest(candidates: Seq<(FunctionView, Weight)>)
    requires
        candidates.len() > 0,
        forall|k: int| 0 <= k < candidates.len() ==> (#[trigger] candidates[k]).1.well_formed(),
    ensures
        0 <= best_position(candidates) < candidates.len(),
        forall|k: int|
            0 <= k < candidates.len() ==> !candidates[best_position(candidates)].1.less_than(
                (#[trigger] candidates[k]).1,
            ),
        forall|k: int|
            0 <= k < best_position(candidates) ==> (#[trigger] candidates[k]).1.less_than(
                candidates[best_position(candidates)].1,
            ),
    decreases candidates.len(),
{
    if candidates.len() > 1 {
        let init = candidates.drop_last();
        lemma_best_is_first_greatest(init);
        let before = best_position(init);
        let best = best_position(candidates);
        assert(forall|k: int| 0 <= k < init.len() ==> init[k] == candidates[k]);
        if candidates[before].1.less_than(candidates.last().1) {
            assert forall|k: int| 0 <= k < candidates.len() implies !candidates[best].1.less_than(
                (#[trigger] candidates[k]).1,
            ) by {
                if k < init.len() {
                    assert(init[k] == candidates[k]);
                    lemma_less_than_transitive(
                        candidates[k].1,
                        candidates[before].1,
                        candidates[best].1,
                    );
                }
            }
            assert forall|k: int| 0 <= k < best implies (#[trigger] candidates[k]).1.less_than(
                candidates[best].1,
            ) by {
                assert(init[k] == candidates[k]);
                lemma_less_than_transitive(
                    candidates[k].1,
                    candidates[before].1,
                    candidates[best].1,
                );
            }
        } else {
            assert forall|k: int| 0 <= k < candidates.len() implies !candidates[best].1.less_than(
                (#[trigger] candidates[k]).1,
            ) by {
                if k < init.len() {
                    assert(init[k] == candidates[k]);
                }
            }
            assert forall|k: int| 0 <= k < best implies (#[trigger] candidates[k]).1.less_than(
                candidates[best].1,
            ) by {
                assert(init[k] == candidates[k]);
            }
        }
    }
}

/// Every index that gets a name is the index of a function of `inputs` that
/// has a candidate.
pub proof fn lemma_named_functions_have_candidates(
    regions: Seq<DataRegionView>,
    normalize: bool,
    exact_locals: bool,
    inputs: Seq<FunctionView>,
    references: Seq<FunctionView>,
    index: u32,
)
    requires
        assigned_names(regions, normalize, exact_locals, inputs, references).contains_key(index),
    ensures
        exists|position: int|
            0 <= position < inputs.len() && (#[trigger] inputs[position]).id == index
                && candidates_of(
                regions,
                normalize,
                exact_locals,
                inputs[position],
                references,
            ).len() > 0,
    decreases inputs.len(),
{
    if inputs.len() > 0 {
        let init = inputs.drop_last();
        let before = assigned_names(regions, normalize, exact_locals, init, references);
        let candidates = candidates_of(regions, normalize, exact_locals, inputs.last(), references);
        if before.contains_key(index) {
            lemma_named_functions_have_candidates(
                regions,
                normalize,
                exact_locals,
                init,
                references,
                index,
            );
            let position = choose|position: int|
                0 <= position < init.len() && (#[trigger] init[position]).id == index
                    && candidates_of(
                    regions,
                    normalize,
                    exact_locals,
                    init[position],
                    references,
                ).len() > 0;
            assert(inputs[position] == init[position]);
        } else {
            assert(best_name(candidates) is Some);
            assert(inputs[inputs.len() - 1] == inputs.last());
        }
    }
}

/// The names hold for the index of a function the name of its best
/// candidate, and nothing where it has no candidate or the best one has no
/// name, as long as no other function of `inputs` has the same index.
pub proof fn lemma_assigned_name_is_best(
    regions: Seq<DataRegionView>,
    normalize: bool,
    exact_locals: bool,
    inputs: Seq<FunctionView>,
    references: Seq<FunctionView>,
    position: int,
)
    requires
        0 <= position < inputs.len(),
        forall|k: int|
            0 <= k < inputs.len() && k != position ==> (#[trigger] inputs[k]).id
                != inputs[position].id,
    ensures
        name_at(
            assigned_names(regions, normalize, exact_locals, inputs, references),
            inputs[position].id,
        ) == best_name(
            candidates_of(regions, normalize, exact_locals, inputs[position], references),
        ),
    decreases inputs.len(),
{
    let index = inputs[position].id;
    let init = inputs.drop_last();
    let before = assigned_names(regions, normalize, exact_locals, init, references);
    assert(forall|k: int| 0 <= k < init.len() ==> init[k] == inputs[k]);
    if position == inputs.len() - 1 {
        if before.contains_key(index) {
            lemma_named_functions_have_candidates(
                regions,
                normalize,
                exact_locals,
                init,
                references,
                index,
            );
            let other = choose|other: int|
                0 <= other < init.len() && (#[trigger] init[other]).id == index && candidates_of(
                    regions,
                    normalize,
                    exact_locals,
                    init[other],
                    references,
                ).len() > 0;
            assert(inputs[other].id == index);
        }
    } else {
        assert(inputs[inputs.len() - 1].id != index);
        lemma_assigned_name_is_best(regions, normalize, exact_locals, init, references, position);
    }
}

/// A function whose signature is that of no function of `references` gets no
/// name: the names hold no entry for its index, as long as no other function
/// of `inputs` has the same index.
pub proof fn lemma_no_candidate_no_name(
    regions: Seq<DataRegionView>,
    normalize: bool,
    exact_locals: bool,
    inputs: Seq<FunctionView>,
    references: Seq<FunctionView>,
    position: int,
)
    requires
        0 <= position < inputs.len(),
        forall|k: int|
            0 <= k < references.len() ==> !signatures_match(
                inputs[position],
                #[trigger] references[k],
            ),
        forall|k: int|
            0 <= k < inputs.len() && k != position ==> (#[trigger] inputs[k]).id
                != inputs[position].id,
    ensures
        !assigned_names(regions, normalize, exact_locals, inputs, references).contains_key(
            inputs[position].id,
        ),
{
    let index = inputs[position].id;
    if assigned_names(regions, normalize, exact_locals, inputs, references).contains_key(index) {
        lemma_named_functions_have_candidates(
            regions,
            normalize,
            exact_locals,
            inputs,
            references,
            index,
        );
        let named = choose|named: int|
            0 <= named < inputs.len() && (#[trigger] inputs[named]).id == index && candidates_of(
                regions,
                normalize,
                exact_locals,
                inputs[named],
                references,
            ).len() > 0;
        assert(named == position);
        lemma_candidates(regions, normalize, exact_locals, inputs[position], references);
    }
}

/// Whether no function of `references` has the signature of `input`.
pub open spec fn has_no_match(input: FunctionView, references: Seq<FunctionView>) -> bool {
    forall|k: int| 0 <= k < references.len() ==> !signatures_match(input, #[trigger] references[k])
}

/// Whether the function at `position` is the only one of `inputs` with its
/// index.
pub open spec fn has_own_index(inputs: Seq<FunctionView>, position: int) -> bool {
    forall|k: int|
        0 <= k < inputs.len() && k != position ==> (#[trigger] inputs[k]).id
            != inputs[position].id
}

/// Whether `names` holds no entry for a function of `inputs` that has its
/// own index and whose signature is that of no function of `references`.
pub open spec fn leaves_unmatched_unnamed(
    names: Map<u32, Seq<char>>,
    inputs: Seq<FunctionView>,
    references: Seq<FunctionView>,
) -> bool {
    forall|position: int|
        0 <= position < inputs.len() && has_own_index(inputs, position) && #[trigger] has_no_match(
            inputs[position],
            references,
        ) ==> !names.contains_key(inputs[position].id)
}

/// The names that are given leave every function without a name that has its
/// own index and whose signature is that of no function of `references`.
pub proof fn lemma_unmatched_stay_unnamed(
    regions: Seq<DataRegionView>,
    normalize: bool,
    exact_locals: bool,
    inputs: Seq<FunctionView>,
    references: Seq<FunctionView>,
)
    ensures
        leaves_unmatched_unnamed(
            assigned_names(regions, normalize, exact_locals, inputs, references),
            inputs,
            references,
        ),
{
    assert forall|position: int|
        0 <= position < inputs.len() && has_own_index(inputs, position) && #[trigger] has_no_match(
            inputs[position],
            references,
        ) implies !assigned_names(
        regions,
        normalize,
        exact_locals,
        inputs,
        references,
    ).contains_key(inputs[position].id) by {
        lemma_no_candidate_no_name(regions, normalize, exact_locals, inputs, references, position);
    }
}

/// The place of the best of `matches`, if there is any.
pub fn best_match(matches: &[(&Function, Weight)]) -> (best: Option<usize>)
    ensures
        match best {
            Some(position) => position < matches@.len() && position == best_position(
                matches.deep_view(),
            ),
            None => matches@.len() == 0,
        },
{
    if matches.len() == 0 {
        return None;
    }
    let ghost candidates = matches.deep_view();
    let mut best: usize = 0;
    let mut i: usize = 1;
    assert(candidates.take(1).len() == 1);
    while i < matches.len()
        invariant
            candidates == matches.deep_view(),
            1 <= i <= matches@.len(),
            best < i,
            best == best_position(candidates.take(i as int)),
        decreases matches@.len() - i,
    {
        assert(candidates.take(i + 1).drop_last() =~= candidates.take(i as int));
        assert(candidates.take(i + 1)[best as int] == matches@[best as int].deep_view());
        assert(candidates.take(i + 1).last() == matches@[i as int].deep_view());
        if matches[best].1.is_less_than(&matches[i].1) {
            best = i;
        }
        i += 1;
    }
    assert(candidates.take(matches@.len() as int) =~= candidates);
    Some(best)
}

/// Tells whether the length of `name` in bytes can be written as a `u32`.
pub fn does_name_fit(name: &String) -> (r: bool)
    ensures
        r == name_fits(name@),
{
    name.as_str().as_bytes().len() <= u32::MAX as usize
}

/// Builds the map of the names that the functions of `input_info` get from
/// `reference_info`, and tells whether each of these names fits.
pub fn assign_names(
    input_info: &ModuleInfo,
    reference_info: &ModuleInfo,
    match_ctx: &MatchingContext,
) -> (r: (NameMap, bool))
    ensures
        name_map_entries(r.0) == assigned_names(
            match_ctx.regions(),
            match_ctx.normalizes(),
            match_ctx.exact_locals(),
            input_info.deep_view().functions,
            reference_info.deep_view().functions,
        ),
        r.1 == assigned_names_fit(
            match_ctx.regions(),
            match_ctx.normalizes(),
            match_ctx.exact_locals(),
            input_info.deep_view().functions,
            reference_info.deep_view().functions,
        ),
        r.1 ==> names_fit(name_map_entries(r.0)),
        leaves_unmatched_unnamed(
            name_map_entries(r.0),
            input_info.deep_view().functions,
            reference_info.deep_view().functions,
        ),
        name_map_entries(r.0).dom().finite(),
        name_map_entries(r.0).dom().len() <= input_info.functions@.len(),
{
    let ghost inputs = input_info.deep_view().functions;
    let ghost references = reference_info.deep_view().functions;
    let mut name_map = name_map_with_capacity(input_info.functions.len());
    let mut fits = true;
    let mut i: usize = 0;
    while i < input_info.functions.len()
        invariant
            inputs == input_info.deep_view().functions,
            references == reference_info.deep_view().functions,
            i <= input_info.functions@.len(),
            name_map_entries(name_map) == assigned_names(
                match_ctx.regions(),
                match_ctx.normalizes(),
                match_ctx.exact_locals(),
                inputs.take(i as int),
                references,
            ),
            fits == forall|k: int|
                0 <= k < i ==> #[trigger] assigned_name_fits(
                    match_ctx.regions(),
                    match_ctx.normalizes(),
                    match_ctx.exact_locals(),
                    inputs,
                    references,
                    k,
                ),
            fits ==> names_fit(name_map_entries(name_map)),
            name_map_entries(name_map).dom().finite(),
            name_map_entries(name_map).dom().len() <= i,
        decreases input_info.functions@.len() - i,
    {
        let function = &input_info.functions[i];
        assert(inputs.take(i + 1).drop_last() =~= inputs.take(i as int));
        assert(inputs.take(i + 1).last() == function.deep_view());
        let matches = match_ctx.find_matches(function, reference_info.functions.as_slice());
        let ghost candidates = matches.deep_view();
        let ghost before = name_map_entries(name_map);
        assert(inputs[i as int] == function.deep_view());
        let mut name_fits_here = true;
        match best_match(matches.as_slice()) {
            Some(position) => {
                assert(candidates[position as int] == matches@[position as int].deep_view());
                match &matches[position].0.name {
                    Some(name) => {
                        let best_name = name.clone();
                        if !does_name_fit(&best_name) {
                            name_fits_here = false;
                        }
                        name_map_insert(&mut name_map, function.id, best_name);
                        assert(name_map_entries(name_map).dom() =~= before.dom().insert(
                            function.id,
                        ));
                        assert(name_map_entries(name_map)[function.id] == name@);
                        assert(names_fit(before) && name_fits(name@) ==> names_fit(
                            name_map_entries(name_map),
                        )) by {
                            let after = name_map_entries(name_map);
                            if names_fit(before) && name_fits(name@) {
                                assert forall|index: u32| after.contains_key(index) implies name_fits(
                                    #[trigger] after[index],
                                ) by {
                                    if index != function.id {
                                        assert(before.contains_key(index));
                                        assert(after[index] == before[index]);
                                    }
                                }
                            }
                        }
                    },
                    None => {},
                }
            },
            None => {},
        }
        assert(name_fits_here == assigned_name_fits(
            match_ctx.regions(),
            match_ctx.normalizes(),
            match_ctx.exact_locals(),
            inputs,
            references,
            i as int,
        ));
        fits = fits && name_fits_here;
        i += 1;
    }
    assert(inputs.take(input_info.functions@.len() as int) =~= inputs);
    proof {
        lemma_unmatched_stay_unnamed(
            match_ctx.regions(),
            match_ctx.normalizes(),
            match_ctx.exact_locals(),
            inputs,
            references,
        );
    }
    (name_map, fits)
}

} // verus!
