//! Workspace rules: which caller-supplied context files may be materialized
//! under the working directory, and how paths are joined beneath it.

use vstd::prelude::*;
use vstd::seq_lib::*;
use vstd::string::*;
use crate::data::{ContextFile, ContextFileModel};

verus! {

/// Whether `p` holds two consecutive dots anywhere.
pub open spec fn has_dotdot(p: Seq<char>) -> bool {
    exists|i: int| 0 <= i && i + 2 <= p.len() && #[trigger] p[i] == '.' && p[i + 1] == '.'
}

/// Whether `p` begins with a root separator.
pub open spec fn is_rooted(p: Seq<char>) -> bool {
    p.len() > 0 && p[0] == '/'
}

/// Whether a context file at relative path `p` may be written: it must not
/// hold a parent-directory segment and must not be rooted, so that it
/// resolves inside the working directory.
pub open spec fn context_path_allowed(p: Seq<char>) -> bool {
    !has_dotdot(p) && !is_rooted(p)
}

/// Decides whether a context-file path may be materialized.
pub fn path_allowed(path: &str) -> (b: bool)
    ensures
        b == context_path_allowed(path@),
{
    let n = path.unicode_len();
    if n > 0 && path.get_char(0) == '/' {
        return false;
    }
    let mut i: usize = 0;
    while i + 1 < n
        invariant
            n == path@.len(),
            i == 0 || i < n,
            forall|j: int| 0 <= j && j < i ==> !(#[trigger] path@[j] == '.' && path@[j + 1] == '.'),
        decreases n - i,
    {
        if path.get_char(i) == '.' && path.get_char(i + 1) == '.' {
            assert(has_dotdot(path@));
            return false;
        }
        i = i + 1;
    }
    assert(!has_dotdot(path@));
    true
}

/// The path of `rel` beneath `base`.
pub open spec fn joined_path(base: Seq<char>, rel: Seq<char>) -> Seq<char> {
    base + "/"@ + rel
}

/// Joins `rel` beneath `base` with a single separator.
pub fn join_path(base: &str, rel: &str) -> (r: String)
    ensures
        r@ == joined_path(base@, rel@),
{
    let mut out = base.to_owned();
    out.append("/");
    out.append(rel);
    out
}

fn clone_context_file(f: &ContextFile) -> (r: ContextFile)
    ensures
        r@ == f@,
{
    ContextFile { path: f.path.clone(), content: f.content.clone() }
}

/// Keeps exactly the context files whose paths may be materialized, in their
/// given order; a file with a parent-directory segment or a rooted path is
/// skipped without affecting the others.
pub fn filter_context_files(files: &Vec<ContextFile>) -> (r: Vec<ContextFile>)
    ensures
        r@.map_values(|f: ContextFile| f@) == files@.map_values(|f: ContextFile| f@).filter(
            |f: ContextFileModel| context_path_allowed(f.path),
        ),
{
    let ghost m = files@.map_values(|f: ContextFile| f@);
    let ghost pred = |f: ContextFileModel| context_path_allowed(f.path);
    let mut r: Vec<ContextFile> = Vec::new();
    proof {
        reveal(Seq::filter);
        assert(m.take(0).len() == 0);
    }
    let mut i: usize = 0;
    while i < files.len()
        invariant
            i <= files.len(),
            m == files@.map_values(|f: ContextFile| f@),
            pred == (|f: ContextFileModel| context_path_allowed(f.path)),
            r@.map_values(|f: ContextFile| f@) == m.take(i as int).filter(pred),
        decreases files.len() - i,
    {
        proof {
            reveal(Seq::filter);
            assert(m.take(i + 1).drop_last() =~= m.take(i as int));
            assert(m.take(i + 1).last() == m[i as int]);
            assert(m[i as int] == files@[i as int]@);
        }
        let keep = path_allowed(files[i].path.as_str());
        if keep {
            let ghost prev = r@;
            let cf = clone_context_file(&files[i]);
            assert(cf@ == m[i as int]);
            r.push(cf);
            proof {
                reveal(Seq::filter);
                let left = r@.map_values(|f: ContextFile| f@);
                let right = m.take(i + 1).filter(pred);
                assert(pred(m[i as int]));
                assert(m.take(i + 1).len() == i + 1);
                assert(right == m.take(i as int).filter(pred).push(m[i as int]));
                let prevm = prev.map_values(|f: ContextFile| f@);
                assert(prevm.len() == prev.len());
                assert(left.len() == prev.len() + 1);
                assert forall|j: int| 0 <= j < left.len() implies left[j] == right[j] by {
                    assert(left[j] == r@[j]@);
                    if j < prev.len() {
                        assert(r@[j] == prev[j]);
                        assert(prevm[j] == prev[j]@);
                        assert(right[j] == m.take(i as int).filter(pred)[j]);
                    } else {
                        assert(r@[j] == cf);
                    }
                }
                assert(left =~= right);
            }
        } else {
            proof {
                reveal(Seq::filter);
                assert(m.take(i + 1).filter(pred) == m.take(i as int).filter(pred));
            }
        }
        i = i + 1;
    }
    proof {
        assert(m.take(files.len() as int) =~= m);
    }
    r
}

/// The context files that may be materialized, in their given order.
pub open spec fn allowed_context_files(files: Seq<ContextFileModel>) -> Seq<ContextFileModel> {
    files.filter(|f: ContextFileModel| context_path_allowed(f.path))
}

/// Law: no context file whose path holds a parent-directory segment or is
/// rooted is ever materialized, and every file with an allowed path still is:
/// the materialized sequence is exactly the allowed files, in their order.
pub proof fn lemma_context_filter_sound(files: Seq<ContextFileModel>)
    ensures
        forall|j: int|
            0 <= j < allowed_context_files(files).len() ==> context_path_allowed(
                #[trigger] allowed_context_files(files)[j].path,
            ),
        forall|i: int|
            0 <= i < files.len() && context_path_allowed(#[trigger] files[i].path)
                ==> allowed_context_files(files).contains(files[i]),
{
    let pred = |f: ContextFileModel| context_path_allowed(f.path);
    broadcast use vstd::seq_lib::group_filter_ensures;

    assert forall|j: int| 0 <= j < allowed_context_files(files).len() implies context_path_allowed(
        allowed_context_files(files)[j].path,
    ) by {
        assert(files.filter(pred)[j] == allowed_context_files(files)[j]);
        assert(pred(files.filter(pred)[j]));
    }
    assert forall|i: int| 0 <= i < files.len() && context_path_allowed(files[i].path) implies
        allowed_context_files(files).contains(files[i]) by {
        assert(pred(files[i]));
        assert(files.filter(pred).contains(files[i]));
    }
}

} // verus!
