//! Splitting a request path into its verb and the segments after it.
use crate::text::{
    lemma_single_piece_iff_no_slash, lemma_split_nonempty, split_on_slash, split_slash, views,
};
use vstd::prelude::*;

verus! {

/// An incoming request: a path of the shape `<verb>/<segment>[/<segment>...]`
/// and an optional payload for the invoke verb.
#[derive(Debug, Clone, PartialEq, Eq)]
pub struct ArgsGet {
    pub path: String,
    pub args: Option<Vec<u8>>,
}

/// Splits the path of `args` on `/`: nothing when there are fewer than two
/// pieces (the path holds no `/`), else the first piece and the others in order.
pub fn get_command_with_path_parts(args: &ArgsGet) -> (r: Option<(String, Vec<String>)>)
    ensures
        split_slash(args.path@).len() <= 1 ==> r is None,
        split_slash(args.path@).len() > 1 ==> r is Some,
        r is None <==> (forall|i: int| 0 <= i < args.path@.len() ==> args.path@[i] != '/'),
        r matches Some((verb, segments)) ==> verb@ == split_slash(args.path@)[0] && views(segments@)
            == split_slash(args.path@).drop_first(),
{
    let mut parts = split_on_slash(args.path.as_str());
    proof {
        lemma_split_nonempty(args.path@);
        lemma_single_piece_iff_no_slash(args.path@);
    }
    if parts.len() <= 1 {
        return None;
    }
    let ghost all = parts@;
    let verb = parts.remove(0);
    proof {
        assert(views(parts@) =~= views(all).drop_first());
    }
    Some((verb, parts))
}

} // verus!
