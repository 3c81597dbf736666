//! The guarantees the destination derivation gives, stated once for every
//! input and proved against the path model.

use vstd::prelude::*;

use crate::paths::{
    destination_spec, extension_spec, file_name_spec, file_part, file_start, has_extension,
    is_separator, join_spec, with_extension_spec, after_last_dot,
    lemma_after_last_dot_bounds, lemma_after_last_dot_no_dot_suffix, lemma_file_start_all_after,
    lemma_file_start_bounds, lemma_file_start_no_sep_suffix, lemma_file_start_take,
};

verus! {

/// When a display name is provided, the destination's base name is that
/// name exactly, whatever the source path's own name is — for every
/// installation that forces no extension, and every separator-free name.
pub proof fn lemma_display_name_sets_base_name(dir: Seq<char>, n: Seq<char>, program: Seq<char>)
    requires
        forall|j: int| 0 <= j < n.len() ==> !is_separator(#[trigger] n[j]),
    ensures
        destination_spec(dir, Some(n), program, None) matches Some(d) && file_part(d) == n,
{
    let d = join_spec(dir, n);
    if dir.len() == 0 {
        lemma_file_start_no_sep_suffix(Seq::<char>::empty(), n);
        assert(Seq::<char>::empty() + n =~= n);
        assert(file_part(d) =~= n);
    } else if is_separator(dir.last()) {
        lemma_file_start_no_sep_suffix(dir, n);
        assert(file_start(dir) == dir.len());
        assert(file_part(d) =~= n);
    } else {
        let base = dir + seq!['\\'];
        assert(d =~= base + n);
        lemma_file_start_no_sep_suffix(base, n);
        assert(base.last() == '\\');
        assert(file_start(base) == base.len());
        assert(file_part(d) =~= n);
    }
}

/// When no display name is provided, the destination's base name is the
/// source path's file-name component; and the destination exists exactly
/// when that component can be extracted.
pub proof fn lemma_source_name_sets_base_name(dir: Seq<char>, program: Seq<char>)
    ensures
        destination_spec(dir, None, program, None) is Some <==> file_name_spec(program) is Some,
        file_name_spec(program) matches Some(f) ==> destination_spec(
            dir,
            None,
            program,
            None,
        ) matches Some(d) && file_part(d) == f,
{
    if let Some(f) = file_name_spec(program) {
        lemma_file_start_bounds(program);
        lemma_file_start_all_after(program);
        assert forall|j: int| 0 <= j < f.len() implies !is_separator(#[trigger] f[j]) by {
            assert(f[j] == program[file_start(program) + j]);
        }
        lemma_display_name_sets_base_name(dir, f, program);
    }
}

/// Replacing the extension of a path that does not end in a separator
/// really leaves that extension on it, for any dot- and separator-free
/// replacement.
pub proof fn lemma_forced_extension(p: Seq<char>, ext: Seq<char>)
    requires
        forall|j: int| 0 <= j < ext.len() ==> ext[j] != '.' && !is_separator(#[trigger] ext[j]),
        p.len() > 0,
        !is_separator(p.last()),
    ensures
        extension_spec(with_extension_spec(p, ext)) == Some(ext),
{
    lemma_file_start_bounds(p);
    lemma_after_last_dot_bounds(p);
    let stem = if has_extension(p) {
        p.take(after_last_dot(p) - 1)
    } else {
        p
    };
    let q = with_extension_spec(p, ext);
    assert(file_start(p) == file_start(p.drop_last()));
    lemma_file_start_bounds(p.drop_last());
    assert(file_start(p) < p.len());
    if has_extension(p) {
        lemma_file_start_take(p, after_last_dot(p) - 1);
    }
    assert(file_start(stem) < stem.len());
    // The appended text moves neither the file-name start nor, past the new
    // dot, the last dot.
    let dot_ext = seq!['.'] + ext;
    assert forall|j: int| 0 <= j < dot_ext.len() implies !is_separator(#[trigger] dot_ext[j]) by {
        if j > 0 {
            assert(dot_ext[j] == ext[j - 1]);
        }
    }
    assert(q =~= stem + dot_ext);
    lemma_file_start_no_sep_suffix(stem, dot_ext);
    assert(q =~= (stem + seq!['.']) + ext);
    lemma_after_last_dot_no_dot_suffix(stem + seq!['.'], ext);
    assert((stem + seq!['.']).last() == '.');
    assert(after_last_dot(stem + seq!['.']) == stem.len() + 1);
    assert(has_extension(q));
    assert(q.subrange(after_last_dot(q), q.len() as int) =~= ext);
}

/// A shortcut or PowerShell-wrapper destination always carries the
/// shortcut extension, whatever extension the display name or the source
/// carried — for every display name that is nonempty and does not end in
/// a separator.
pub proof fn lemma_shortcut_destination_extension(
    dir: Seq<char>,
    name: Option<Seq<char>>,
    program: Seq<char>,
)
    requires
        name matches Some(n) ==> n.len() > 0 && !is_separator(n.last()),
    ensures
        destination_spec(dir, name, program, Some("lnk"@)) matches Some(d) ==> extension_spec(d)
            == Some("lnk"@),
{
    reveal_strlit("lnk");
    let base = match name {
        Some(n) => Some(n),
        None => file_name_spec(program),
    };
    if let Some(b) = base {
        if name is None {
            lemma_file_start_bounds(program);
            lemma_file_start_all_after(program);
            assert(b =~= file_part(program));
            assert(b.last() == program[program.len() - 1 as int]
                || b.last() == program[file_start(program) + b.len() - 1]);
            assert(!is_separator(b.last()));
        }
        let joined = join_spec(dir, b);
        assert(b.len() > 0);
        if dir.len() == 0 {
            assert(joined.last() == b.last());
        } else if is_separator(dir.last()) {
            assert(joined.last() == b.last());
        } else {
            assert(joined =~= (dir + seq!['\\']) + b);
            assert(joined.last() == b.last());
        }
        assert forall|j: int| 0 <= j < "lnk"@.len() implies "lnk"@[j] != '.' && !is_separator(
            #[trigger] "lnk"@[j],
        ) by {
            assert("lnk"@[0] == 'l' && "lnk"@[1] == 'n' && "lnk"@[2] == 'k');
        }
        lemma_forced_extension(joined, "lnk"@);
    }
}

} // verus!
