//! Lookups in a list of command-line words.

use vstd::prelude::*;

verus! {

/// `p` is the first position of `title` in `args`.
pub open spec fn is_first_position(args: Seq<String>, title: Seq<char>, p: int) -> bool {
    &&& 0 <= p < args.len()
    &&& args[p]@ == title
    &&& forall|j: int| 0 <= j < p ==> (#[trigger] args[j])@ != title
}

pub open spec fn occurs(args: Seq<String>, title: Seq<char>) -> bool {
    exists|j: int| 0 <= j < args.len() && (#[trigger] args[j])@ == title
}

/// The first position of `arg_title` in `args_vec`.
pub fn argument_position_in_args_string_vec(args_vec: &Vec<String>, arg_title: String) -> (r: Option<usize>)
    ensures
        match r {
            Some(p) => is_first_position(args_vec@, arg_title@, p as int),
            None => !occurs(args_vec@, arg_title@),
        },
{
    let mut i: usize = 0;
    while i < args_vec.len()
        invariant
            i <= args_vec@.len(),
            forall|j: int| 0 <= j < i ==> (#[trigger] args_vec@[j])@ != arg_title@,
        decreases args_vec@.len() - i,
    {
        if args_vec[i] == arg_title {
            return Some(i);
        }
        i = i + 1;
    }
    None
}

/// The argument `arg_title` with the word that follows its first
/// occurrence, as in `-o out.rs`.
pub fn argument_and_param_from_args_string_vec(args_vec: &Vec<String>, arg_title: String) -> (r: Option<(String, String)>)
    requires
        forall|p: int| #[trigger] is_first_position(args_vec@, arg_title@, p) ==> p + 1 < args_vec@.len(),
    ensures
        match r {
            Some((t, v)) => t@ == arg_title@ && exists|p: int|
                is_first_position(args_vec@, arg_title@, p) && v@ == args_vec@[p + 1]@,
            None => !occurs(args_vec@, arg_title@),
        },
{
    match argument_position_in_args_string_vec(args_vec, arg_title.clone()) {
        Some(pos) => {
            assert(is_first_position(args_vec@, arg_title@, pos as int));
            let n = args_vec.len();
            assert(pos + 1 < n);
            let param = args_vec[pos + 1].clone();
            Some((arg_title, param))
        },
        None => None,
    }
}

/// Whether `arg` is among `args_vec`.
pub fn is_argument_present_on_args_string_vec(args_vec: &Vec<String>, arg: String) -> (r: bool)
    ensures
        r == occurs(args_vec@, arg@),
{
    argument_position_in_args_string_vec(args_vec, arg).is_some()
}

} // verus!
