use vstd::prelude::*;

use crate::error::PipelineError;

verus! {

/// Whether `i` is the position of the first input flag `-i` among `args`.
pub open spec fn is_first_flag(args: Seq<String>, i: int) -> bool {
    &&& 0 <= i < args.len()
    &&& args[i]@ == "-i"@
    &&& forall|j: int| 0 <= j < i ==> args[j]@ != "-i"@
}

/// Whether the input flag occurs among `args`.
pub open spec fn has_flag(args: Seq<String>) -> bool {
    exists|i: int| 0 <= i < args.len() && args[i]@ == "-i"@
}

/// The value that follows the first input flag, when there is one.
pub open spec fn source_of(args: Seq<String>) -> Option<Seq<char>> {
    if exists|i: int| is_first_flag(args, i) && i + 1 < args.len() {
        let i = choose|i: int| is_first_flag(args, i) && i + 1 < args.len();
        Some(args[i + 1]@)
    } else {
        None
    }
}

/// Position of the first input flag, if any.
fn find_flag(args: &Vec<String>) -> (r: Option<usize>)
    ensures
        match r {
            Some(i) => is_first_flag(args@, i as int),
            None => !has_flag(args@),
        },
{
    let flag = String::from_str("-i");
    let mut i: usize = 0;
    while i < args.len()
        invariant
            i <= args@.len(),
            flag@ == "-i"@,
            forall|j: int| 0 <= j < i ==> args@[j]@ != "-i"@,
        decreases args@.len() - i,
    {
        if args[i] == flag {
            return Some(i);
        }
        i = i + 1;
    }
    None
}

/// Checks that the arguments of a run carry the input flag, and hands them back.
pub fn get_flag(args: Vec<String>) -> (r: Result<Vec<String>, PipelineError>)
    ensures
        r is Ok <==> has_flag(args@),
        r matches Ok(v) ==> v@ == args@,
        r matches Err(e) ==> e == PipelineError::InvalidInvocation,
{
    match find_flag(&args) {
        Some(_) => Ok(args),
        None => Err(PipelineError::InvalidInvocation),
    }
}

/// The source path given after the first input flag. Without the flag, or
/// with nothing after it, the invocation is invalid.
pub fn source_argument(args: &Vec<String>) -> (r: Result<String, PipelineError>)
    ensures
        match r {
            Ok(p) => source_of(args@) == Some(p@),
            Err(e) => source_of(args@) is None && e == PipelineError::InvalidInvocation,
        },
{
    match find_flag(args) {
        Some(i) => {
            if i < args.len() - 1 {
                assert(is_first_flag(args@, i as int) && i + 1 < args@.len());
                let ghost k = choose|k: int| is_first_flag(args@, k) && k + 1 < args@.len();
                assert(k == i as int) by {
                    if k < i { assert(args@[k]@ != "-i"@); }
                    if k > i { assert(args@[i as int]@ != "-i"@); }
                }
                Ok(args[i + 1].clone())
            } else {
                assert forall|k: int| is_first_flag(args@, k) implies !(k + 1 < args@.len()) by {
                    if k < i { assert(args@[k]@ != "-i"@); }
                    if k > i { assert(args@[i as int]@ != "-i"@); }
                }
                Err(PipelineError::InvalidInvocation)
            }
        },
        None => {
            Err(PipelineError::InvalidInvocation)
        },
    }
}

} // verus!
