//! Splitting a path's final component into stem and extension. The extension
//! is what follows the last dot, except that a dot in the leading position
//! marks a dotfile, not an empty stem; a component without such a dot has the
//! whole component as its stem and an empty extension.

use vstd::prelude::*;

use vstd::string::StrSliceExecFns;
use vstd::string::StringExecFns;

verus! {

/// The index of the last dot that separates stem from extension: the last
/// dot at index one or beyond, or minus one when there is none.
pub open spec fn spec_last_dot(s: Seq<char>) -> int
    decreases s.len(),
{
    if s.len() <= 1 {
        -1
    } else if s[s.len() - 1] == '.' {
        s.len() - 1
    } else {
        spec_last_dot(s.drop_last())
    }
}

/// The stem: everything before the separating dot, or the whole component
/// when there is none.
pub open spec fn spec_stem(s: Seq<char>) -> Seq<char> {
    let j = spec_last_dot(s);
    if j == -1 {
        s
    } else {
        s.take(j)
    }
}

/// The extension: everything after the separating dot, or empty when there
/// is none.
pub open spec fn spec_ext(s: Seq<char>) -> Seq<char> {
    let j = spec_last_dot(s);
    if j == -1 {
        Seq::empty()
    } else {
        s.subrange(j + 1, s.len() as int)
    }
}

/// Scanning one character in from the end, past a non-dot, keeps the
/// separating dot the same.
proof fn lemma_last_dot_step(s: Seq<char>, k: int)
    requires
        2 <= k <= s.len(),
        s[k - 1] != '.',
    ensures
        spec_last_dot(s.take(k)) == spec_last_dot(s.take(k - 1)),
{
    let t = s.take(k);
    assert(t.len() == k);
    assert(t[k - 1] == s[k - 1]);
    assert(t.drop_last() =~= s.take(k - 1));
}

/// Splits a path's final component into its stem and its extension.
pub fn split_file_name(name: &str) -> (r: (String, String))
    ensures
        r.0@ == spec_stem(name@),
        r.1@ == spec_ext(name@),
{
    let n = name.unicode_len();
    proof {
        assert(name@.take(n as int) =~= name@);
    }
    let mut k: usize = n;
    while k > 1 && name.get_char(k - 1) != '.'
        invariant
            k <= n == name@.len(),
            spec_last_dot(name@) == spec_last_dot(name@.take(k as int)),
        decreases k,
    {
        proof {
            lemma_last_dot_step(name@, k as int);
        }
        k = k - 1;
    }
    if k > 1 {
        // the separating dot stands at k - 1
        proof {
            let t = name@.take(k as int);
            assert(t.len() == k);
            assert(t[k - 1] == name@[k - 1]);
            assert(spec_last_dot(t) == k - 1);
        }
        let stem = name.substring_char(0, k - 1).to_owned();
        let ext = name.substring_char(k, n).to_owned();
        proof {
            assert(stem@ =~= spec_stem(name@));
            assert(ext@ =~= spec_ext(name@));
        }
        (stem, ext)
    } else {
        // no separating dot: a dot at the very front marks a dotfile
        proof {
            assert(name@.take(k as int).len() <= 1);
            assert(spec_last_dot(name@) == -1);
        }
        let stem = name.to_owned();
        proof {
            assert(spec_ext(name@) =~= Seq::<char>::empty());
        }
        (stem, String::new())
    }
}

} // verus!
