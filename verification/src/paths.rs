use vstd::prelude::*;

use crate::ascii::SLASH;
use crate::pane::copy_bytes;

verus! {

/// The parent of a canonical absolute path: everything before the last
/// slash, the root when the last slash opens the path, and nothing for the
/// root itself or for a path with no slash at all.
pub open spec fn parent_model(p: Seq<u8>) -> Option<Seq<u8>> {
    match p.index_of_last(SLASH) {
        Some(i) => if p.len() <= 1 {
            None
        } else if i == 0 {
            Some(seq![SLASH])
        } else {
            Some(p.take(i))
        },
        None => None,
    }
}

/// The final component of a path: everything after the last slash, or the
/// whole path when it has none.
pub open spec fn file_name_model(p: Seq<u8>) -> Seq<u8> {
    match p.index_of_last(SLASH) {
        Some(i) => p.skip(i + 1),
        None => p,
    }
}

/// The index of the last slash, if the path has one.
fn find_last_slash(p: &Vec<u8>) -> (r: Option<usize>)
    ensures
        match r {
            Some(i) => i < p@.len() && p@.index_of_last(SLASH) == Some(i as int),
            None => p@.index_of_last(SLASH) is None,
        },
{
    proof {
        p@.index_of_last_ensures(SLASH);
    }
    let mut i: usize = p.len();
    while i > 0
        invariant
            i <= p@.len(),
            forall|j: int| i <= j < p@.len() ==> p@[j] != SLASH,
        decreases i,
    {
        i = i - 1;
        if p[i] == SLASH {
            proof {
                assert(p@.contains(SLASH)) by {
                    assert(p@[i as int] == SLASH);
                }
                p@.index_of_last_ensures(SLASH);
                match p@.index_of_last(SLASH) {
                    Some(idx) => {
                        if idx < i as int {
                            assert(p@[i as int] != SLASH);
                            assert(false);
                        }
                        if idx > i as int {
                            assert(p@[idx] != SLASH);
                            assert(false);
                        }
                    },
                    None => {
                        assert(false);
                    },
                }
            }
            return Some(i);
        }
    }
    proof {
        if p@.contains(SLASH) {
            let witness = choose|j: int| 0 <= j < p@.len() && p@[j] == SLASH;
            assert(p@[witness] != SLASH);
        }
    }
    None
}

/// The parent directory of a canonical absolute path, when it has one.
pub fn parent_of(p: &Vec<u8>) -> (r: Option<Vec<u8>>)
    ensures
        match r {
            Some(v) => parent_model(p@) == Some(v@),
            None => parent_model(p@) is None,
        },
{
    match find_last_slash(p) {
        Some(i) => {
            if p.len() <= 1 {
                None
            } else if i == 0 {
                let mut root: Vec<u8> = Vec::new();
                root.push(SLASH);
                proof {
                    assert(root@ =~= seq![SLASH]);
                }
                Some(root)
            } else {
                let mut out: Vec<u8> = Vec::new();
                let mut j: usize = 0;
                while j < i
                    invariant
                        j <= i,
                        i < p@.len(),
                        out@ =~= p@.take(j as int),
                    decreases i - j,
                {
                    out.push(p[j]);
                    j = j + 1;
                }
                Some(out)
            }
        },
        None => None,
    }
}

/// The final component of a path.
pub fn file_name_of(p: &Vec<u8>) -> (r: Vec<u8>)
    ensures
        r@ == file_name_model(p@),
{
    match find_last_slash(p) {
        Some(i) => {
            let len = p.len();
            let mut out: Vec<u8> = Vec::new();
            let mut j: usize = i + 1;
            while j < len
                invariant
                    len == p@.len(),
                    i + 1 <= j <= p@.len(),
                    i < p@.len(),
                    out@ =~= p@.subrange(i + 1, j as int),
                decreases p@.len() - j,
            {
                out.push(p[j]);
                j = j + 1;
            }
            proof {
                assert(p@.subrange(i + 1, p@.len() as int) =~= p@.skip(i + 1));
            }
            out
        },
        None => copy_bytes(p),
    }
}

/// A directory path joined with a child name by one slash.
pub fn join_path(dir: &Vec<u8>, name: &Vec<u8>) -> (r: Vec<u8>)
    ensures
        r@ == dir@ + seq![SLASH] + name@,
{
    let mut out = copy_bytes(dir);
    out.push(SLASH);
    let mut rest = copy_bytes(name);
    out.append(&mut rest);
    proof {
        assert(out@ =~= dir@ + seq![SLASH] + name@);
    }
    out
}

} // verus!
