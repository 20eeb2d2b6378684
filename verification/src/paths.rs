//! The scanner's file rules: which plugin files are opened at all, and
//! where the settings file lives.
//!
//! Paths are byte strings. A component separator is a forward or backward
//! slash; the file name is everything after the last separator, and the
//! extension is everything after the last dot of the file name, provided
//! that dot is not its first byte.

use vstd::prelude::*;

use crate::ids::bytes_eq;
use crate::ids::contains_bytes;
use crate::ids::contains_seq;
use crate::ids::lower_seq;

verus! {

/// The fixed file name of the generated output plugin.
pub open spec fn output_name() -> Seq<u8> {
    seq![
        83u8, 51, 76, 105, 103, 104, 116, 70, 105, 120, 101, 115, 46, 111, 109, 119, 97, 100,
        100, 111, 110,
    ]
}

/// The fixed file name of the generated output plugin, as bytes
/// ("S3LightFixes.omwaddon").
pub fn output_name_bytes() -> (r: Vec<u8>)
    ensures
        r@ == output_name(),
{
    let mut v: Vec<u8> = Vec::new();
    v.push(83);
    v.push(51);
    v.push(76);
    v.push(105);
    v.push(103);
    v.push(104);
    v.push(116);
    v.push(70);
    v.push(105);
    v.push(120);
    v.push(101);
    v.push(115);
    v.push(46);
    v.push(111);
    v.push(109);
    v.push(119);
    v.push(97);
    v.push(100);
    v.push(100);
    v.push(111);
    v.push(110);
    proof {
        assert(v@ =~= output_name());
    }
    v
}

/// The host configuration's file name ("openmw.cfg"), lowercased.
pub open spec fn host_config_name() -> Seq<u8> {
    seq![111u8, 112, 101, 110, 109, 119, 46, 99, 102, 103]
}

fn host_config_name_bytes() -> (r: Vec<u8>)
    ensures
        r@ == host_config_name(),
{
    let mut v: Vec<u8> = Vec::new();
    v.push(111);
    v.push(112);
    v.push(101);
    v.push(110);
    v.push(109);
    v.push(119);
    v.push(46);
    v.push(99);
    v.push(102);
    v.push(103);
    proof {
        assert(v@ =~= host_config_name());
    }
    v
}

/// Whether a byte separates path components.
pub open spec fn is_sep(b: u8) -> bool {
    b == 47 || b == 92
}

/// The file-name component of a path: everything after the last separator.
pub open spec fn file_name_of(p: Seq<u8>) -> Seq<u8>
    decreases p.len(),
{
    if p.len() == 0 {
        Seq::empty()
    } else if is_sep(p.last()) {
        Seq::empty()
    } else {
        file_name_of(p.drop_last()).push(p.last())
    }
}

/// The extension of a file name: everything after its last dot, provided
/// that dot is not the name's first byte.
pub open spec fn ext_of(name: Seq<u8>) -> Option<Seq<u8>>
    decreases name.len(),
{
    if name.len() == 0 {
        None
    } else if name.last() == 46 {
        if name.len() == 1 {
            None
        } else {
            Some(Seq::empty())
        }
    } else {
        match ext_of(name.drop_last()) {
            Some(e) => Some(e.push(name.last())),
            None => None,
        }
    }
}

/// The four plugin extensions the scanner recognizes.
pub open spec fn recognized_ext(e: Seq<u8>) -> bool {
    ||| e == seq![101u8, 115, 112]
    ||| e == seq![101u8, 115, 109]
    ||| e == seq![111u8, 109, 119, 97, 100, 100, 111, 110]
    ||| e == seq![111u8, 109, 119, 103, 97, 109, 101]
}

/// Whether the scanner opens the file at this path: never the tool's own
/// output (so a rerun cannot feed on it), and only files carrying one of
/// the four recognized plugin extensions.
pub open spec fn should_scan_spec(p: Seq<u8>) -> bool {
    &&& !contains_seq(p, output_name())
    &&& match ext_of(file_name_of(p)) {
        Some(e) => recognized_ext(e),
        None => false,
    }
}

proof fn lemma_file_name_suffix(p: Seq<u8>, j: int)
    requires
        -1 <= j < p.len(),
        j == -1 || is_sep(p[j]),
        forall|t: int| j < t < p.len() ==> !is_sep(p[t]),
    ensures
        file_name_of(p) == p.subrange(j + 1, p.len() as int),
    decreases p.len(),
{
    if j == p.len() - 1 {
        if j == -1 {
            assert(file_name_of(p) =~= p.subrange(0, 0));
        } else {
            assert(file_name_of(p) =~= p.subrange(j + 1, p.len() as int));
        }
    } else {
        lemma_file_name_suffix(p.drop_last(), j);
        assert(file_name_of(p) =~= p.subrange(j + 1, p.len() as int)) by {
            assert(p.drop_last().subrange(j + 1, p.len() - 1) =~= p.subrange(
                j + 1,
                p.len() - 1,
            ));
            assert(p.subrange(j + 1, p.len() - 1).push(p.last()) =~= p.subrange(
                j + 1,
                p.len() as int,
            ));
        }
    }
}

proof fn lemma_ext_suffix(name: Seq<u8>, j: int)
    requires
        1 <= j < name.len(),
        name[j] == 46,
        forall|t: int| j < t < name.len() ==> name[t] != 46,
    ensures
        ext_of(name) == Some(name.subrange(j + 1, name.len() as int)),
    decreases name.len(),
{
    if j == name.len() - 1 {
        assert(ext_of(name) =~= Some(name.subrange(j + 1, name.len() as int)));
    } else {
        lemma_ext_suffix(name.drop_last(), j);
        assert(name.drop_last().subrange(j + 1, name.len() - 1) =~= name.subrange(
            j + 1,
            name.len() - 1,
        ));
        assert(name.subrange(j + 1, name.len() - 1).push(name.last()) =~= name.subrange(
            j + 1,
            name.len() as int,
        ));
    }
}

proof fn lemma_no_ext(name: Seq<u8>)
    requires
        forall|t: int| 1 <= t < name.len() ==> name[t] != 46,
    ensures
        ext_of(name) is None,
    decreases name.len(),
{
    if name.len() > 0 {
        lemma_no_ext(name.drop_last());
    }
}

/// Copies the bytes of `p` between `from` and `to`.
fn copy_range(p: &Vec<u8>, from: usize, to: usize) -> (r: Vec<u8>)
    requires
        from <= to <= p@.len(),
    ensures
        r@ == p@.subrange(from as int, to as int),
{
    let mut r: Vec<u8> = Vec::new();
    let mut i: usize = from;
    while i < to
        invariant
            from <= i <= to <= p@.len(),
            r@ == p@.subrange(from as int, i as int),
        decreases to - i,
    {
        r.push(p[i]);
        i = i + 1;
        proof {
            assert(p@.subrange(from as int, i as int) =~= p@.subrange(from as int, i - 1).push(
                p@[i - 1],
            ));
        }
    }
    r
}

/// The index one past the last separator of `p`, or 0 when `p` has none.
fn after_last_sep(p: &Vec<u8>) -> (start: usize)
    ensures
        start <= p@.len(),
        start == 0 || is_sep(p@[start - 1]),
        forall|t: int| start <= t < p@.len() ==> !is_sep(p@[t]),
{
    let mut start: usize = 0;
    let mut i: usize = 0;
    while i < p.len()
        invariant
            start <= i <= p@.len(),
            start == 0 || is_sep(p@[start - 1]),
            forall|t: int| start <= t < i ==> !is_sep(p@[t]),
        decreases p.len() - i,
    {
        let b = p[i];
        if b == 47 || b == 92 {
            start = i + 1;
        }
        i = i + 1;
    }
    start
}

/// Decides whether the scanner opens the file at this path; see
/// [`should_scan_spec`].
pub fn should_scan(path: &Vec<u8>) -> (r: bool)
    ensures
        r == should_scan_spec(path@),
{
    let own_name = output_name_bytes();
    if contains_bytes(path, &own_name) {
        return false;
    }
    let start = after_last_sep(path);
    proof {
        lemma_file_name_suffix(path@, start - 1);
    }
    let ghost name = file_name_of(path@);
    // the last dot of the file name, provided it is not the name's first byte
    let mut dot: usize = 0;
    let mut has_dot = false;
    let mut i: usize = start;
    while i < path.len()
        invariant
            start <= i <= path@.len(),
            has_dot ==> start + 1 <= dot < i && path@[dot as int] == 46,
            has_dot ==> forall|t: int| dot < t < i ==> path@[t] != 46,
            !has_dot ==> forall|t: int| start + 1 <= t < i ==> path@[t] != 46,
        decreases path.len() - i,
    {
        if path[i] == 46 && i > start {
            dot = i;
            has_dot = true;
        }
        i = i + 1;
    }
    if !has_dot {
        proof {
            assert forall|t: int| 1 <= t < name.len() implies name[t] != 46 by {
                assert(name[t] == path@[start + t]);
            }
            lemma_no_ext(name);
        }
        return false;
    }
    proof {
        assert(name[dot - start] == path@[dot as int]);
        assert forall|t: int| dot - start < t < name.len() implies name[t] != 46 by {
            assert(name[t] == path@[start + t]);
        }
        lemma_ext_suffix(name, dot - start);
        assert(name.subrange(dot - start + 1, name.len() as int) =~= path@.subrange(
            dot + 1,
            path@.len() as int,
        ));
    }
    let ext = copy_range(path, dot + 1, path.len());
    let mut cand: Vec<u8> = Vec::new();
    cand.push(101);
    cand.push(115);
    cand.push(112);
    proof {
        assert(cand@ =~= seq![101u8, 115, 112]);
    }
    if bytes_eq(&ext, &cand) {
        return true;
    }
    let mut cand: Vec<u8> = Vec::new();
    cand.push(101);
    cand.push(115);
    cand.push(109);
    proof {
        assert(cand@ =~= seq![101u8, 115, 109]);
    }
    if bytes_eq(&ext, &cand) {
        return true;
    }
    let mut cand: Vec<u8> = Vec::new();
    cand.push(111);
    cand.push(109);
    cand.push(119);
    cand.push(97);
    cand.push(100);
    cand.push(100);
    cand.push(111);
    cand.push(110);
    proof {
        assert(cand@ =~= seq![111u8, 109, 119, 97, 100, 100, 111, 110]);
    }
    if bytes_eq(&ext, &cand) {
        return true;
    }
    let mut cand: Vec<u8> = Vec::new();
    cand.push(111);
    cand.push(109);
    cand.push(119);
    cand.push(103);
    cand.push(97);
    cand.push(109);
    cand.push(101);
    proof {
        assert(cand@ =~= seq![111u8, 109, 119, 103, 97, 109, 101]);
    }
    if bytes_eq(&ext, &cand) {
        return true;
    }
    false
}

/// The directory part of a path: the bytes before the last separator, a
/// lone leading separator kept; a path without separators has the empty
/// directory, except that the empty path stays empty.
pub open spec fn parent_of(p: Seq<u8>) -> Seq<u8> {
    let rest = p.len() - file_name_of(p).len();
    if rest == 0 {
        if p.len() == 0 {
            p
        } else {
            Seq::empty()
        }
    } else if rest == 1 {
        p.subrange(0, 1)
    } else {
        p.subrange(0, rest - 1)
    }
}

/// Where the settings file lives relative to the host configuration: the
/// configured path's directory when the path names the host configuration
/// file (case-insensitively), the path itself otherwise.
pub open spec fn config_dir_spec(p: Seq<u8>) -> Seq<u8> {
    if contains_seq(lower_seq(p), host_config_name()) {
        parent_of(p)
    } else {
        p
    }
}

/// Resolves the directory the settings file is looked up in; see
/// [`config_dir_spec`].
pub fn config_dir_of(path: &Vec<u8>) -> (r: Vec<u8>)
    ensures
        r@ == config_dir_spec(path@),
{
    let lowered = crate::ids::ascii_lower(path);
    let cfg_name = host_config_name_bytes();
    if !contains_bytes(&lowered, &cfg_name) {
        let r = copy_range(path, 0, path.len());
        proof {
            assert(path@.subrange(0, path@.len() as int) =~= path@);
        }
        return r;
    }
    let start = after_last_sep(path);
    proof {
        lemma_file_name_suffix(path@, start - 1);
        assert(file_name_of(path@).len() == path@.len() - start);
    }
    if start == 0 {
        if path.len() == 0 {
            let r: Vec<u8> = Vec::new();
            proof {
                assert(r@ =~= path@);
            }
            return r;
        }
        let r: Vec<u8> = Vec::new();
        proof {
            assert(r@ =~= Seq::<u8>::empty());
        }
        return r;
    }
    if start == 1 {
        return copy_range(path, 0, 1);
    }
    copy_range(path, 0, start - 1)
}

} // verus!
