//! Path-string arithmetic for navigation: descending into a child (append a
//! name after trimming trailing separators) and stepping up to the parent
//! directory. Paths are plain strings over the `/` separator.

use vstd::prelude::*;

verus! {

/// The path separator.
pub const SEPARATOR: char = '/';

/// The string with every trailing separator removed.
pub open spec fn trim_trailing_seps(s: Seq<char>) -> Seq<char>
    decreases s.len(),
{
    if s.len() > 0 && s.last() == SEPARATOR {
        trim_trailing_seps(s.drop_last())
    } else {
        s
    }
}

/// The string with its trailing non-separator run (the base name) removed:
/// what is left is empty or ends in a separator.
pub open spec fn strip_base_name(s: Seq<char>) -> Seq<char>
    decreases s.len(),
{
    if s.len() > 0 && s.last() != SEPARATOR {
        strip_base_name(s.drop_last())
    } else {
        s
    }
}

/// The path of a child `name` of directory `p`: `p` with trailing separators
/// trimmed, one separator, then the name.
pub open spec fn descend_path(p: Seq<char>, name: Seq<char>) -> Seq<char> {
    trim_trailing_seps(p) + seq![SEPARATOR] + name
}

/// The parent of a path, if it has one. Trailing separators are ignored; a
/// path that is empty, all separators, or a bare name with no separator has
/// no parent; a path whose only separators lead it (such as `/name`) has the
/// root as parent; otherwise the parent is everything before the base name,
/// with its own trailing separators trimmed.
pub open spec fn parent_path(p: Seq<char>) -> Option<Seq<char>> {
    let t = trim_trailing_seps(p);
    if t.len() == 0 {
        None
    } else {
        let u = strip_base_name(t);
        if u.len() == 0 {
            None
        } else {
            let v = trim_trailing_seps(u);
            if v.len() == 0 {
                Some(seq![SEPARATOR])
            } else {
                Some(v)
            }
        }
    }
}

/// Index just past the trimmed prefix: drops trailing separators from the
/// first `end` characters of `p`.
fn trim_seps_upto(p: &str, end: usize) -> (k: usize)
    requires
        end <= p@.len(),
    ensures
        k <= end,
        p@.subrange(0, k as int) == trim_trailing_seps(p@.subrange(0, end as int)),
{
    let mut i: usize = end;
    while i > 0 && p.get_char(i - 1) == SEPARATOR
        invariant
            i <= end,
            end <= p@.len(),
            trim_trailing_seps(p@.subrange(0, end as int)) == trim_trailing_seps(
                p@.subrange(0, i as int),
            ),
        decreases i,
    {
        proof {
            assert(p@.subrange(0, i as int).last() == SEPARATOR);
            assert(p@.subrange(0, i as int).drop_last() =~= p@.subrange(0, i - 1 as int));
        }
        i = i - 1;
    }
    proof {
        assert(trim_trailing_seps(p@.subrange(0, i as int)) == p@.subrange(0, i as int));
    }
    i
}

/// Index just past the base name's start: drops the trailing non-separator
/// run from the first `end` characters of `p`.
fn strip_base_upto(p: &str, end: usize) -> (k: usize)
    requires
        end <= p@.len(),
    ensures
        k <= end,
        p@.subrange(0, k as int) == strip_base_name(p@.subrange(0, end as int)),
{
    let mut i: usize = end;
    while i > 0 && p.get_char(i - 1) != SEPARATOR
        invariant
            i <= end,
            end <= p@.len(),
            strip_base_name(p@.subrange(0, end as int)) == strip_base_name(
                p@.subrange(0, i as int),
            ),
        decreases i,
    {
        proof {
            assert(p@.subrange(0, i as int).last() != SEPARATOR);
            assert(p@.subrange(0, i as int).drop_last() =~= p@.subrange(0, i - 1 as int));
        }
        i = i - 1;
    }
    proof {
        assert(strip_base_name(p@.subrange(0, i as int)) == p@.subrange(0, i as int));
    }
    i
}

/// The path of child `name` inside directory `p`.
pub fn descend(p: &str, name: &str) -> (r: String)
    ensures
        r@ == descend_path(p@, name@),
{
    let n = p.unicode_len();
    proof {
        assert(p@.subrange(0, n as int) =~= p@);
    }
    let k = trim_seps_upto(p, n);
    let stem = p.substring_char(0, k);
    let with_sep = String::from_str(stem).concat("/");
    let r = with_sep.concat(name);
    proof {
        reveal_strlit("/");
        assert(("/")@ =~= seq![SEPARATOR]);
        assert(r@ =~= descend_path(p@, name@));
    }
    r
}

/// The parent directory of `p`, or `None` where `p` has no parent.
pub fn parent(p: &str) -> (r: Option<String>)
    ensures
        match r {
            Option::None => parent_path(p@) is None,
            Option::Some(s) => parent_path(p@) == Some(s@),
        },
{
    let n = p.unicode_len();
    proof {
        assert(p@.subrange(0, n as int) =~= p@);
    }
    let k1 = trim_seps_upto(p, n);
    if k1 == 0 {
        proof {
            assert(trim_trailing_seps(p@).len() == 0);
        }
        return None;
    }
    let k2 = strip_base_upto(p, k1);
    if k2 == 0 {
        proof {
            assert(strip_base_name(trim_trailing_seps(p@)).len() == 0);
        }
        return None;
    }
    let k3 = trim_seps_upto(p, k2);
    if k3 == 0 {
        let root = String::from_str("/");
        proof {
            reveal_strlit("/");
            assert(root@ =~= seq![SEPARATOR]);
        }
        Some(root)
    } else {
        Some(String::from_str(p.substring_char(0, k3)))
    }
}

} // verus!
