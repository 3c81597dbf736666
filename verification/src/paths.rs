//! A model of Windows-style file paths as character strings.
//!
//! A path is an ordinary `String`; `\` and `/` both separate components.
//! The functions here derive the pieces the installer needs: the file-name
//! component, the parent directory, the extension, joining a name onto a
//! directory, and replacing an extension.

use vstd::prelude::*;

verus! {

/// A character that separates path components.
pub open spec fn is_separator(c: char) -> bool {
    c == '\\' || c == '/'
}

/// The index right after the last separator of `p`: where the file-name
/// component begins. `0` when `p` has no separator.
pub open spec fn file_start(p: Seq<char>) -> int
    decreases p.len(),
{
    if p.len() == 0 {
        0
    } else if is_separator(p.last()) {
        p.len() as int
    } else {
        file_start(p.drop_last())
    }
}

/// The index right after the last `.` of `p`; `0` when `p` has no dot.
pub open spec fn after_last_dot(p: Seq<char>) -> int
    decreases p.len(),
{
    if p.len() == 0 {
        0
    } else if p.last() == '.' {
        p.len() as int
    } else {
        after_last_dot(p.drop_last())
    }
}

pub proof fn lemma_file_start_bounds(p: Seq<char>)
    ensures
        0 <= file_start(p) <= p.len(),
    decreases p.len(),
{
    if p.len() > 0 && !is_separator(p.last()) {
        lemma_file_start_bounds(p.drop_last());
    }
}

pub proof fn lemma_after_last_dot_bounds(p: Seq<char>)
    ensures
        0 <= after_last_dot(p) <= p.len(),
    decreases p.len(),
{
    if p.len() > 0 && p.last() != '.' {
        lemma_after_last_dot_bounds(p.drop_last());
    }
}

/// The characters of the file-name component of `p` (possibly empty).
pub open spec fn file_part(p: Seq<char>) -> Seq<char> {
    p.subrange(file_start(p), p.len() as int)
}

/// The file-name component of `p`, or `None` when there is none to extract:
/// the path is empty or ends in a separator, or the last component is the
/// current- or parent-directory marker.
pub open spec fn file_name_spec(p: Seq<char>) -> Option<Seq<char>> {
    let f = file_part(p);
    if f.len() == 0 || f == seq!['.'] || f == seq!['.', '.'] {
        None
    } else {
        Some(f)
    }
}

/// `name` joined onto the directory `dir` with a separator as needed.
pub open spec fn join_spec(dir: Seq<char>, name: Seq<char>) -> Seq<char> {
    if dir.len() == 0 {
        name
    } else if is_separator(dir.last()) {
        dir + name
    } else {
        dir + seq!['\\'] + name
    }
}

/// Whether the file-name component of `p` carries an extension: a `.` that
/// stands strictly after the component's first character.
pub open spec fn has_extension(p: Seq<char>) -> bool {
    after_last_dot(p) > file_start(p) + 1
}

/// The extension of `p`: the characters after the last `.` of its file-name
/// component (empty when that `.` ends the path).
pub open spec fn extension_spec(p: Seq<char>) -> Option<Seq<char>> {
    if has_extension(p) {
        Some(p.subrange(after_last_dot(p), p.len() as int))
    } else {
        None
    }
}

/// `p` with its extension replaced by `ext`: the old extension and its dot
/// are cut off, and `.` and `ext` are appended.
pub open spec fn with_extension_spec(p: Seq<char>, ext: Seq<char>) -> Seq<char> {
    let stem = if has_extension(p) {
        p.take(after_last_dot(p) - 1)
    } else {
        p
    };
    stem + seq!['.'] + ext
}

/// The directory part of `p`: everything before the last separator, the
/// separator itself for a path directly under the root, `None` when `p` has
/// no separator at all.
pub open spec fn parent_spec(p: Seq<char>) -> Option<Seq<char>> {
    if file_start(p) == 0 {
        None
    } else if file_start(p) == 1 {
        Some(p.take(1))
    } else {
        Some(p.take(file_start(p) - 1))
    }
}

/// Appending separator-free text does not move the file-name start.
pub proof fn lemma_file_start_no_sep_suffix(u: Seq<char>, v: Seq<char>)
    requires
        forall|j: int| 0 <= j < v.len() ==> !is_separator(v[j]),
    ensures
        file_start(u + v) == file_start(u),
    decreases v.len(),
{
    if v.len() == 0 {
        assert(u + v =~= u);
    } else {
        assert((u + v).drop_last() =~= u + v.drop_last());
        assert(!is_separator((u + v).last()));
        lemma_file_start_no_sep_suffix(u, v.drop_last());
    }
}

/// Appending dot-free text does not move the last dot.
pub proof fn lemma_after_last_dot_no_dot_suffix(u: Seq<char>, v: Seq<char>)
    requires
        forall|j: int| 0 <= j < v.len() ==> v[j] != '.',
    ensures
        after_last_dot(u + v) == after_last_dot(u),
    decreases v.len(),
{
    if v.len() == 0 {
        assert(u + v =~= u);
    } else {
        assert((u + v).drop_last() =~= u + v.drop_last());
        assert((u + v).last() != '.');
        lemma_after_last_dot_no_dot_suffix(u, v.drop_last());
    }
}

/// No separator stands at or after the file-name start.
pub proof fn lemma_file_start_all_after(p: Seq<char>)
    ensures
        forall|j: int| file_start(p) <= j < p.len() ==> !is_separator(#[trigger] p[j]),
    decreases p.len(),
{
    if p.len() > 0 && !is_separator(p.last()) {
        lemma_file_start_all_after(p.drop_last());
        lemma_file_start_bounds(p);
        assert forall|j: int| file_start(p) <= j < p.len() implies !is_separator(p[j]) by {
            if j < p.len() - 1 {
                assert(p.drop_last()[j] == p[j]);
            }
        }
    }
}

/// Cutting `p` anywhere at or after the file-name start keeps that start.
pub proof fn lemma_file_start_take(p: Seq<char>, k: int)
    requires
        file_start(p) <= k <= p.len(),
    ensures
        file_start(p.take(k)) == file_start(p),
    decreases p.len() - k,
{
    if k == p.len() {
        assert(p.take(k) =~= p);
    } else {
        lemma_file_start_take(p, k + 1);
        lemma_file_start_bounds(p);
        lemma_file_start_all_after(p);
        assert(!is_separator(p[k]));
        assert(p.take(k + 1).last() == p[k]);
        assert(p.take(k + 1).drop_last() =~= p.take(k));
    }
}

/// The derived destination for an installation: `name` when given, else the
/// file name of `program`, joined onto `dir`, with `ext` (when given)
/// replacing any extension of the joined path. `None` when no base name can
/// be extracted.
pub open spec fn destination_spec(
    dir: Seq<char>,
    name: Option<Seq<char>>,
    program: Seq<char>,
    ext: Option<Seq<char>>,
) -> Option<Seq<char>> {
    let base = match name {
        Some(n) => Some(n),
        None => file_name_spec(program),
    };
    match base {
        None => None,
        Some(b) => {
            let joined = join_spec(dir, b);
            match ext {
                Some(e) => Some(with_extension_spec(joined, e)),
                None => Some(joined),
            }
        },
    }
}

/// Finds where the file-name component of `p` begins.
pub fn find_file_start(p: &str) -> (r: usize)
    ensures
        r == file_start(p@),
        r <= p@.len(),
{
    proof {
        lemma_file_start_bounds(p@);
    }
    let n = p.unicode_len();
    let mut i = n;
    proof {
        assert(p@.take(n as int) =~= p@);
    }
    while i > 0
        invariant
            i <= n,
            n == p@.len(),
            file_start(p@.take(i as int)) == file_start(p@),
        decreases i,
    {
        let c = p.get_char(i - 1);
        if c == '\\' || c == '/' {
            proof {
                assert(p@.take(i as int).last() == p@[i - 1]);
            }
            return i;
        }
        proof {
            assert(p@.take(i as int).drop_last() =~= p@.take(i as int - 1));
        }
        i = i - 1;
    }
    proof {
        assert(p@.take(0) =~= Seq::<char>::empty());
    }
    0
}

/// Finds where the text after the last `.` of `p` begins.
pub fn find_after_last_dot(p: &str) -> (r: usize)
    ensures
        r == after_last_dot(p@),
        r <= p@.len(),
{
    proof {
        lemma_after_last_dot_bounds(p@);
    }
    let n = p.unicode_len();
    let mut i = n;
    proof {
        assert(p@.take(n as int) =~= p@);
    }
    while i > 0
        invariant
            i <= n,
            n == p@.len(),
            after_last_dot(p@.take(i as int)) == after_last_dot(p@),
        decreases i,
    {
        let c = p.get_char(i - 1);
        if c == '.' {
            proof {
                assert(p@.take(i as int).last() == p@[i - 1]);
            }
            return i;
        }
        proof {
            assert(p@.take(i as int).drop_last() =~= p@.take(i as int - 1));
        }
        i = i - 1;
    }
    proof {
        assert(p@.take(0) =~= Seq::<char>::empty());
    }
    0
}

/// The file-name component of `p`, or `None` when none can be extracted.
pub fn file_name_of(p: &str) -> (r: Option<String>)
    ensures
        r.deep_view() == file_name_spec(p@),
{
    let n = p.unicode_len();
    let fs = find_file_start(p);
    let f = p.substring_char(fs, n);
    let flen = n - fs;
    proof {
        assert(f@ =~= file_part(p@));
    }
    if flen == 0 {
        None
    } else if flen == 1 && f.get_char(0) == '.' {
        proof {
            assert(f@ =~= seq!['.']);
        }
        None
    } else if flen == 2 && f.get_char(0) == '.' && f.get_char(1) == '.' {
        proof {
            assert(f@ =~= seq!['.', '.']);
        }
        None
    } else {
        proof {
            if f@ == seq!['.'] {
                assert(f@.len() == 1);
            }
            if f@ == seq!['.', '.'] {
                assert(f@.len() == 2);
                assert(f@[0] == '.');
            }
        }
        Some(String::from_str(f))
    }
}

/// Joins `name` onto the directory `dir`, inserting a `\` unless `dir` is
/// empty or already ends in a separator.
pub fn join_path(dir: &str, name: &str) -> (r: String)
    ensures
        r@ == join_spec(dir@, name@),
{
    let n = dir.unicode_len();
    if n == 0 {
        String::from_str(name)
    } else {
        let last = dir.get_char(n - 1);
        let mut r = String::from_str(dir);
        if !(last == '\\' || last == '/') {
            r.append("\\");
            proof {
                reveal_strlit("\\");
                assert(dir@ + "\\"@ =~= dir@ + seq!['\\']);
            }
        }
        r.append(name);
        r
    }
}

/// Replaces the extension of `p` with `ext` (appending one when `p` has no
/// extension of its own).
pub fn with_extension(p: &str, ext: &str) -> (r: String)
    ensures
        r@ == with_extension_spec(p@, ext@),
{
    let n = p.unicode_len();
    let fs = find_file_start(p);
    let ad = find_after_last_dot(p);
    let stem = if ad >= 1 && ad - 1 > fs {
        p.substring_char(0, ad - 1)
    } else {
        p
    };
    let mut r = String::from_str(stem);
    r.append(".");
    proof {
        reveal_strlit(".");
        assert(stem@ + "."@ =~= stem@ + seq!['.']);
    }
    r.append(ext);
    proof {
        if ad >= 1 && ad - 1 > fs {
            assert(p@.subrange(0, ad - 1) =~= p@.take(after_last_dot(p@) - 1));
        }
    }
    r
}

/// The directory part of `p`, or `None` when `p` is a bare file name.
pub fn parent_dir(p: &str) -> (r: Option<String>)
    ensures
        r.deep_view() == parent_spec(p@),
{
    let fs = find_file_start(p);
    if fs == 0 {
        None
    } else if fs == 1 {
        Some(String::from_str(p.substring_char(0, 1)))
    } else {
        Some(String::from_str(p.substring_char(0, fs - 1)))
    }
}

/// The extension of `p`, or `None` when its file name has none.
pub fn extension_of(p: &str) -> (r: Option<String>)
    ensures
        r.deep_view() == extension_spec(p@),
{
    let n = p.unicode_len();
    let fs = find_file_start(p);
    let ad = find_after_last_dot(p);
    if ad >= 1 && ad - 1 > fs {
        Some(String::from_str(p.substring_char(ad, n)))
    } else {
        None
    }
}

} // verus!
