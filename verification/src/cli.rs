//! Command-line argument helpers.
use vstd::prelude::*;
use crate::text::str_eq;

verus! {

/// The value after the first occurrence of `flag` that has a value after it.
pub open spec fn flag_value_from(args: Seq<String>, flag: Seq<char>, i: int) -> Option<String>
    decreases args.len() - i,
{
    if i < 0 || i + 1 >= args.len() {
        None
    } else if args[i]@ == flag {
        Some(args[i + 1])
    } else {
        flag_value_from(args, flag, i + 1)
    }
}

/// Finds `flag` among the arguments and returns the argument after it; a
/// flag in last position has no value and is not matched.
pub fn parse_flag(args: &[String], flag: &str) -> (r: Option<String>)
    ensures
        r == flag_value_from(args@, flag@, 0),
{
    let n = args.len();
    if n < 2 {
        return None;
    }
    let mut i: usize = 0;
    while i < n - 1
        invariant
            n == args@.len(),
            n >= 2,
            flag_value_from(args@, flag@, 0) == flag_value_from(args@, flag@, i as int),
        decreases n - i,
    {
        if str_eq(args[i].as_str(), flag) {
            return Some(args[i + 1].clone());
        }
        i = i + 1;
    }
    None
}

} // verus!
