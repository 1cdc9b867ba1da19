//! The slot's own path arithmetic. A location is a `/`-separated string;
//! the save operation needs its parent (to bootstrap missing
//! directories), and the abstract disk needs the whole chain of
//! ancestors a save may create.

use vstd::prelude::*;

verus! {

/// Index of the last separator in `p`, or `-1` when `p` has none.
pub open spec fn last_slash_index(p: Seq<char>) -> int
    decreases p.len(),
{
    if p.len() == 0 {
        -1
    } else if p[p.len() - 1] == '/' {
        p.len() - 1
    } else {
        last_slash_index(p.drop_last())
    }
}

/// The parent location of `p`: everything before the last separator,
/// where the parent of a top-level entry such as `/name` is the root
/// `/` itself. `None` when `p` is empty, holds no separator at all (a
/// bare relative name needs no directory bootstrap), or is the root.
pub open spec fn parent_path(p: Seq<char>) -> Option<Seq<char>> {
    let i = last_slash_index(p);
    if i == -1 {
        None
    } else if i == 0 {
        if p.len() == 1 {
            None
        } else {
            Some(p.subrange(0, 1))
        }
    } else {
        Some(p.subrange(0, i))
    }
}

/// `last_slash_index` points at a separator, within bounds, with no
/// separator after it.
pub proof fn lemma_last_slash_index(p: Seq<char>)
    ensures
        -1 <= last_slash_index(p) < p.len(),
        last_slash_index(p) >= 0 ==> p[last_slash_index(p)] == '/',
        forall|j: int| last_slash_index(p) < j < p.len() ==> p[j] != '/',
    decreases p.len(),
{
    if p.len() == 0 {
    } else if p[p.len() - 1] == '/' {
    } else {
        lemma_last_slash_index(p.drop_last());
        assert forall|j: int| last_slash_index(p) < j < p.len() implies p[j] != '/' by {
            if j < p.len() - 1 {
                assert(p.drop_last()[j] == p[j]);
            }
        }
    }
}

/// `last_slash_index` is the unique index with a separator at it and
/// none after it.
pub proof fn lemma_last_slash_index_is(p: Seq<char>, i: int)
    requires
        0 <= i < p.len(),
        p[i] == '/',
        forall|j: int| i < j < p.len() ==> p[j] != '/',
    ensures
        last_slash_index(p) == i,
    decreases p.len(),
{
    if p[p.len() - 1] == '/' {
        assert(i == p.len() - 1);
    } else {
        assert(i < p.len() - 1);
        assert(p.drop_last()[i] == p[i]);
        assert forall|j: int| i < j < p.drop_last().len() implies p.drop_last()[j] != '/' by {
            assert(p.drop_last()[j] == p[j]);
        }
        lemma_last_slash_index_is(p.drop_last(), i);
    }
}

/// A parent is strictly shorter than its child.
pub proof fn lemma_parent_shorter(p: Seq<char>)
    ensures
        parent_path(p) matches Some(q) ==> q.len() < p.len(),
{
    lemma_last_slash_index(p);
}

/// Every directory a save at `p` may have to create: the parent, the
/// parent's parent, and so on up to the root.
pub open spec fn ancestor_dirs(p: Seq<char>) -> Set<Seq<char>>
    decreases p.len(),
    via ancestor_dirs_decreases
{
    match parent_path(p) {
        Option::None => Set::empty(),
        Option::Some(q) => ancestor_dirs(q).insert(q),
    }
}

#[via_fn]
proof fn ancestor_dirs_decreases(p: Seq<char>) {
    lemma_parent_shorter(p);
}

/// The parent location of `path`, exactly as [`parent_path`] states it.
pub fn parent_of(path: &str) -> (r: Option<String>)
    ensures
        match r {
            Option::Some(q) => parent_path(path@) == Some(q@),
            Option::None => parent_path(path@) is None,
        },
{
    let len = path.unicode_len();
    let mut idx: usize = 0;
    let mut last: Option<usize> = None;
    while idx < len
        invariant
            idx <= len,
            len == path@.len(),
            match last {
                Option::Some(k) => k < idx && path@[k as int] == '/' && (forall|j: int|
                    k < j < idx ==> path@[j] != '/'),
                Option::None => forall|j: int| 0 <= j < idx ==> path@[j] != '/',
            },
        decreases len - idx,
    {
        if path.get_char(idx) == '/' {
            last = Some(idx);
        }
        idx += 1;
    }
    match last {
        Option::Some(k) => {
            proof {
                lemma_last_slash_index_is(path@, k as int);
            }
            if k == 0 {
                if len == 1 {
                    None
                } else {
                    Some(path.substring_char(0, 1).to_owned())
                }
            } else {
                Some(path.substring_char(0, k).to_owned())
            }
        }
        Option::None => {
            proof {
                lemma_last_slash_index(path@);
            }
            None
        }
    }
}

} // verus!
