use vstd::prelude::*;

use crate::text::{chars_of, string_of};

verus! {

/// The final component of a path, as `std::path::Path::file_name` gives it.
pub uninterp spec fn file_name_of(path: Seq<char>) -> Option<Seq<char>>;

/// Relies on `std::path::Path::file_name`: the final component of `path`, or
/// `None` where there is none (an empty path, or one that ends in `..`).
#[verifier::external_body]
pub(crate) fn file_name(path: &str) -> (r: Option<String>)
    ensures
        match r {
            Some(n) => file_name_of(path@) == Some(n@),
            None => file_name_of(path@) is None,
        },
{
    std::path::Path::new(path).file_name().and_then(|n| n.to_str()).map(|n| n.to_string())
}

/// The position of the last dot in `n`, or -1 where it has none.
pub open spec fn last_dot(n: Seq<char>) -> int
    decreases n.len(),
{
    if n.len() == 0 {
        -1
    } else if n.last() == '.' {
        n.len() - 1
    } else {
        last_dot(n.drop_last())
    }
}

/// The extension of a file name: what follows its last dot, unless that dot
/// opens the name (a hidden file such as `.profile` has none).
pub open spec fn ext_of(n: Seq<char>) -> Option<Seq<char>> {
    let k = last_dot(n);
    if k > 0 {
        Some(n.skip(k + 1))
    } else {
        None
    }
}

/// The extension of the file name `name`, without its dot.
pub fn extension(name: &str) -> (r: Option<String>)
    ensures
        match r {
            Some(e) => ext_of(name@) == Some(e@),
            None => ext_of(name@) is None,
        },
{
    let cs = chars_of(name);
    let mut k: usize = cs.len();
    proof {
        assert(cs@.take(k as int) =~= cs@);
    }
    while k > 0
        invariant
            k <= cs.len(),
            cs@ == name@,
            last_dot(cs@) == last_dot(cs@.take(k as int)),
        decreases k,
    {
        proof {
            assert(cs@.take(k as int).drop_last() =~= cs@.take(k - 1));
        }
        if cs[k - 1] == '.' {
            if k == 1 {
                return None;
            }
            let mut e: Vec<char> = Vec::new();
            let mut j: usize = k;
            while j < cs.len()
                invariant
                    k <= j <= cs.len(),
                    e@ == cs@.subrange(k as int, j as int),
                decreases cs.len() - j,
            {
                e.push(cs[j]);
                proof {
                    assert(e@ =~= cs@.subrange(k as int, j + 1));
                }
                j += 1;
            }
            proof {
                assert(e@ =~= cs@.skip(k as int));
            }
            return Some(string_of(&e));
        }
        k -= 1;
    }
    None
}

} // verus!
