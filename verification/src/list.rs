//! Listing the programs installed in a registry directory.
//!
//! A directory scan (done by the caller, which owns the I/O) yields one
//! [`ScanEntry`] per directory entry; the functions here decide which
//! entries count as installed programs: regular files whose extension —
//! after resolving a symbolic link to its target — is on the recognized
//! list. The recognized list is parsed from the `PATHEXT`-style text the
//! environment provides.

use vstd::prelude::*;

use crate::paths::extension_spec;
use crate::paths::extension_of;
use crate::sys::push_char;

verus! {

/// What a directory scan learned about an entry's symbolic-link status.
#[derive(Debug, Clone)]
pub enum LinkStatus {
    /// The entry is not a symbolic link.
    NotSymlink,
    /// The entry is a symbolic link to the recorded target.
    ResolvesTo(String),
    /// The entry is a symbolic link whose target could not be read.
    Unreadable,
}

/// One entry of a registry directory, as a scan reports it.
#[derive(Debug, Clone)]
pub struct ScanEntry {
    /// The entry's full path.
    pub path: String,
    /// Whether the path names a regular file (following symbolic links).
    pub is_file: bool,
    /// The entry's symbolic-link status.
    pub link: LinkStatus,
}

/// An upper-case ASCII letter mapped to its lower-case form; every other
/// character kept as it is.
pub open spec fn lower_char(c: char) -> char {
    if 'A' <= c && c <= 'Z' {
        ((c as u32) + 32) as char
    } else {
        c
    }
}

/// `s` with every upper-case ASCII letter lowered.
pub open spec fn lower_seq(s: Seq<char>) -> Seq<char> {
    Seq::new(s.len(), |i: int| lower_char(s[i]))
}

/// The index of the first `;` of `s`, or `s.len()` when it has none.
pub open spec fn first_semi(s: Seq<char>) -> nat
    decreases s.len(),
{
    if s.len() == 0 {
        0
    } else if s[0] == ';' {
        0
    } else {
        1 + first_semi(s.drop_first())
    }
}

/// Exactly one way to be the first `;`: a position preceded by none.
pub proof fn lemma_first_semi_is(s: Seq<char>, k: int)
    requires
        0 <= k <= s.len(),
        forall|j: int| 0 <= j < k ==> s[j] != ';',
        k < s.len() ==> s[k] == ';',
    ensures
        first_semi(s) == k,
    decreases s.len(),
{
    if s.len() == 0 {
    } else if s[0] == ';' {
        assert(k == 0);
    } else {
        assert(k > 0) by {
            if k == 0 {
                assert(s[0] == ';');
            }
        }
        assert forall|j: int| 0 <= j < k - 1 implies s.drop_first()[j] != ';' by {
            assert(s.drop_first()[j] == s[j + 1]);
        }
        assert(k - 1 < s.drop_first().len() ==> s.drop_first()[k - 1] == s[k]);
        lemma_first_semi_is(s.drop_first(), k - 1);
    }
}

/// `s` cut at every `;`, as std's split does it: `n` semicolons give
/// `n + 1` segments, empty ones included.
pub open spec fn split_semis(s: Seq<char>) -> Seq<Seq<char>>
    decreases s.len(),
{
    let k = first_semi(s);
    if k >= s.len() {
        seq![s]
    } else {
        seq![s.take(k as int)] + split_semis(s.subrange(k as int + 1, s.len() as int))
    }
}

/// `s` with its leading dots removed.
pub open spec fn drop_dots(s: Seq<char>) -> Seq<char>
    decreases s.len(),
{
    if s.len() > 0 && s[0] == '.' {
        drop_dots(s.drop_first())
    } else {
        s
    }
}

/// A segment of the recognized-extension text, normalized: leading dots
/// removed, then lowered.
pub open spec fn ext_entry(e: Seq<char>) -> Seq<char> {
    lower_seq(drop_dots(e))
}

/// The recognized-extension text parsed: split at `;`, each segment
/// normalized.
pub open spec fn parse_exts_spec(s: Seq<char>) -> Seq<Seq<char>> {
    split_semis(s).map_values(|e: Seq<char>| ext_entry(e))
}

/// Whether the extension of `p` is on the recognized list, compared
/// case-insensitively (the list itself is already lower case).
pub open spec fn path_ext_listed(p: Seq<char>, exts: Seq<Seq<char>>) -> bool {
    match extension_spec(p) {
        Some(e) => exts.contains(lower_seq(e)),
        None => false,
    }
}

/// Whether an entry counts as a program file: its own extension decides
/// for a plain file, the target's extension for a symbolic link, and a
/// link whose target cannot be read never counts.
pub open spec fn is_program_spec(path: Seq<char>, link: LinkStatus, exts: Seq<Seq<char>>) -> bool {
    match link {
        LinkStatus::NotSymlink => path_ext_listed(path, exts),
        LinkStatus::ResolvesTo(t) => path_ext_listed(t@, exts),
        LinkStatus::Unreadable => false,
    }
}

/// `s` with every upper-case ASCII letter lowered.
fn lower_string(s: &str) -> (r: String)
    ensures
        r@ == lower_seq(s@),
{
    let n = s.unicode_len();
    let mut r = String::new();
    proof {
        assert(lower_seq(s@.take(0)) =~= Seq::<char>::empty());
    }
    let mut i: usize = 0;
    while i < n
        invariant
            i <= n,
            n == s@.len(),
            r@ == lower_seq(s@.take(i as int)),
        decreases n - i,
    {
        let c = s.get_char(i);
        let lc = if c >= 'A' && c <= 'Z' {
            ((c as u8) + 32) as char
        } else {
            c
        };
        push_char(&mut r, lc);
        proof {
            assert(lower_seq(s@.take(i as int)).push(lower_char(s@[i as int])) =~= lower_seq(
                s@.take(i as int + 1),
            ));
        }
        i = i + 1;
    }
    proof {
        assert(s@.take(n as int) =~= s@);
    }
    r
}

/// Whether the list holds this exact string.
fn contains_string(v: &Vec<String>, x: &String) -> (r: bool)
    ensures
        r == v.deep_view().contains(x@),
{
    let mut i: usize = 0;
    while i < v.len()
        invariant
            i <= v.len(),
            forall|k: int| 0 <= k < i ==> v.deep_view()[k] != x@,
        decreases v.len() - i,
    {
        if v[i].eq(x) {
            proof {
                assert(v.deep_view()[i as int] == x@);
            }
            return true;
        }
        i = i + 1;
    }
    false
}

/// One segment of the recognized-extension text, normalized.
fn ext_entry_exec(seg: &str) -> (r: String)
    ensures
        r@ == ext_entry(seg@),
{
    let n = seg.unicode_len();
    proof {
        assert(seg@.subrange(0, n as int) =~= seg@);
    }
    let mut d: usize = 0;
    while d < n && seg.get_char(d) == '.'
        invariant
            d <= n,
            n == seg@.len(),
            drop_dots(seg@) == drop_dots(seg@.subrange(d as int, n as int)),
        decreases n - d,
    {
        proof {
            assert(seg@.subrange(d as int, n as int).drop_first() =~= seg@.subrange(
                d as int + 1,
                n as int,
            ));
        }
        d = d + 1;
    }
    let tail = seg.substring_char(d, n);
    lower_string(tail)
}

/// Parses the recognized-extension text: the segments between `;`, each
/// with leading dots removed and lowered. Nothing is recognized when the
/// environment provides no text.
pub fn get_program_exts(pathext: &Option<String>) -> (r: Vec<String>)
    ensures
        pathext is None ==> r@.len() == 0,
        pathext matches Some(s) ==> r.deep_view() == parse_exts_spec(s@),
{
    let s: &String = match pathext {
        Some(s) => s,
        None => {
            return Vec::new();
        },
    };
    let stxt = s.as_str();
    let n = stxt.unicode_len();
    let mut r: Vec<String> = Vec::new();
    proof {
        assert(s@.subrange(0, n as int) =~= s@);
        let f = |e: Seq<char>| ext_entry(e);
        assert(r.deep_view() + split_semis(s@).map_values(f) =~= split_semis(s@).map_values(f));
    }
    let mut start: usize = 0;
    let mut i: usize = 0;
    while i < n
        invariant
            start <= i <= n,
            n == stxt@.len(),
            stxt@ == s@,
            forall|j: int| start <= j < i ==> stxt@[j] != ';',
            parse_exts_spec(s@) == r.deep_view() + split_semis(
                s@.subrange(start as int, n as int),
            ).map_values(|e: Seq<char>| ext_entry(e)),
        decreases n - i,
    {
        let c = stxt.get_char(i);
        if c == ';' {
            let seg = stxt.substring_char(start, i);
            let entry = ext_entry_exec(seg);
            proof {
                let u = s@.subrange(start as int, n as int);
                assert forall|j: int| 0 <= j < i - start implies u[j] != ';' by {
                    assert(u[j] == stxt@[start + j]);
                }
                assert(u[i - start] == ';');
                lemma_first_semi_is(u, i - start);
                assert(u.take(i - start) =~= s@.subrange(start as int, i as int));
                assert(u.subrange(i - start + 1, u.len() as int) =~= s@.subrange(
                    i as int + 1,
                    n as int,
                ));
                assert(seg@ == u.take(i - start));
                let f = |e: Seq<char>| ext_entry(e);
                assert((seq![u.take(i - start)] + split_semis(
                    u.subrange(i - start + 1, u.len() as int),
                )).map_values(f) =~= seq![ext_entry(seg@)] + split_semis(
                    s@.subrange(i as int + 1, n as int),
                ).map_values(f));
            }
            r.push(entry);
            proof {
                let f = |e: Seq<char>| ext_entry(e);
                assert(r.deep_view() + split_semis(s@.subrange(i as int + 1, n as int)).map_values(
                    f,
                ) =~= parse_exts_spec(s@));
            }
            start = i + 1;
        }
        i = i + 1;
    }
    let seg = stxt.substring_char(start, n);
    let entry = ext_entry_exec(seg);
    proof {
        let u = s@.subrange(start as int, n as int);
        assert forall|j: int| 0 <= j < u.len() implies u[j] != ';' by {
            assert(u[j] == stxt@[start + j]);
        }
        lemma_first_semi_is(u, u.len() as int);
        assert(seg@ == u);
        let f = |e: Seq<char>| ext_entry(e);
        assert(seq![u].map_values(f) =~= seq![ext_entry(seg@)]);
    }
    r.push(entry);
    proof {
        assert(r.deep_view() =~= parse_exts_spec(s@));
    }
    r
}

/// The full recognized-extension list: the environment's entries plus the
/// script extension `ps1` and the shortcut extension `lnk`.
pub fn program_exts_with_defaults(pathext: &Option<String>) -> (r: Vec<String>)
    ensures
        pathext is None ==> r.deep_view() == seq!["ps1"@, "lnk"@],
        pathext matches Some(s) ==> r.deep_view() == parse_exts_spec(s@) + seq!["ps1"@, "lnk"@],
{
    let mut r = get_program_exts(pathext);
    let ghost base = r.deep_view();
    r.push("ps1".to_owned());
    r.push("lnk".to_owned());
    proof {
        assert(r.deep_view() =~= base + seq!["ps1"@, "lnk"@]);
        if pathext is None {
            assert(base =~= Seq::<Seq<char>>::empty());
            assert(r.deep_view() =~= seq!["ps1"@, "lnk"@]);
        }
    }
    r
}

/// Whether one directory entry counts as an installed program file:
/// symbolic links are judged by their target, everything else by its own
/// extension, case-insensitively against the recognized list.
pub fn is_program_file(file: &String, link: &LinkStatus, program_exts: &Vec<String>) -> (r: bool)
    ensures
        r == is_program_spec(file@, *link, program_exts.deep_view()),
{
    let effective: &String = match link {
        LinkStatus::NotSymlink => file,
        LinkStatus::ResolvesTo(t) => t,
        LinkStatus::Unreadable => {
            return false;
        },
    };
    match extension_of(effective.as_str()) {
        Some(ext) => {
            let low = lower_string(ext.as_str());
            contains_string(program_exts, &low)
        },
        None => false,
    }
}

/// Whether an entry is reported by the listing: a regular file that counts
/// as a program file.
pub open spec fn entry_selected(e: ScanEntry, exts: Seq<Seq<char>>) -> bool {
    e.is_file && is_program_spec(e.path@, e.link, exts)
}

/// The paths of the selected entries, in scan order.
pub open spec fn installed_programs_spec(entries: Seq<ScanEntry>, exts: Seq<Seq<char>>) -> Seq<
    Seq<char>,
>
    decreases entries.len(),
{
    if entries.len() == 0 {
        Seq::empty()
    } else {
        let rest = installed_programs_spec(entries.drop_first(), exts);
        if entry_selected(entries[0], exts) {
            seq![entries[0].path@] + rest
        } else {
            rest
        }
    }
}

/// The programs installed in a registry directory: of the scanned entries,
/// the regular files whose (link-resolved) extension is recognized, in scan
/// order. A registry whose directory is unknown has nothing installed.
pub fn get_installed_programs(
    dir: &Option<String>,
    entries: &Vec<ScanEntry>,
    program_exts: &Vec<String>,
) -> (r: Vec<String>)
    ensures
        dir is None ==> r@.len() == 0,
        dir is Some ==> r.deep_view() == installed_programs_spec(
            entries@,
            program_exts.deep_view(),
        ),
{
    if dir.is_none() {
        return Vec::new();
    }
    let ghost exts = program_exts.deep_view();
    let n = entries.len();
    let mut r: Vec<String> = Vec::new();
    proof {
        assert(entries@.subrange(0, n as int) =~= entries@);
    }
    let mut i: usize = 0;
    while i < n
        invariant
            i <= n,
            n == entries@.len(),
            exts == program_exts.deep_view(),
            installed_programs_spec(entries@, exts) == r.deep_view() + installed_programs_spec(
                entries@.subrange(i as int, n as int),
                exts,
            ),
        decreases n - i,
    {
        let e = &entries[i];
        proof {
            let u = entries@.subrange(i as int, n as int);
            assert(u[0] == entries@[i as int]);
            assert(u.drop_first() =~= entries@.subrange(i as int + 1, n as int));
        }
        if e.is_file && is_program_file(&e.path, &e.link, program_exts) {
            r.push(e.path.clone());
            proof {
                assert(r.deep_view() + installed_programs_spec(
                    entries@.subrange(i as int + 1, n as int),
                    exts,
                ) =~= installed_programs_spec(entries@, exts));
            }
        }
        i = i + 1;
    }
    proof {
        assert(entries@.subrange(n as int, n as int) =~= Seq::<ScanEntry>::empty());
        assert(r.deep_view() + installed_programs_spec(
            entries@.subrange(n as int, n as int),
            exts,
        ) =~= r.deep_view());
    }
    r
}

} // verus!
