use vstd::prelude::*;

verus! {

#[verifier::external_type_specification]
#[verifier::external_body]
pub struct ExParams(vte::Params);

/// The parameter groups that a `vte::Params` holds, in order: each group is a
/// parameter followed by its subparameters.
pub uninterp spec fn param_groups(params: vte::Params) -> Seq<Seq<u16>>;

/// Copies out the parameter groups of `params`, as `vte::Params::iter` yields
/// them (one slice per parameter, holding the parameter and its
/// subparameters). The contract claims that the copy, group by group and
/// value by value, is what the parameter list holds, and that each group
/// holds at least one value (`Params` records a group's length as its count
/// of subparameters plus one, and only `Default` and the parser build one).
#[verifier::external_body]
pub(crate) fn groups_of(params: &vte::Params) -> (groups: Vec<Vec<u16>>)
    ensures
        groups@.len() == param_groups(*params).len(),
        forall|i: int| 0 <= i < groups@.len() ==> #[trigger] groups@[i]@ == param_groups(*params)[i],
        forall|i: int| 0 <= i < groups@.len() ==> #[trigger] groups@[i]@.len() > 0,
{
    params.iter().map(|group| group.to_vec()).collect()
}

} // verus!
