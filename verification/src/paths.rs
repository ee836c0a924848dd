//! Extension reconciliation: correcting a file's extension to match its
//! sniffed content type.
//!
//! Paths are handled as byte strings. The file name of a path is the part
//! after its last slash; the extension is the part of the file name after
//! its last dot, provided that dot is not the name's first character.

use vstd::prelude::*;
use crate::sniff::ImageKind;
use crate::sniff::spec_sniff;
use crate::sniff::sniff;

verus! {

/// Index of the last occurrence of `b` in `s`, or `-1` if there is none.
pub open spec fn last_pos(s: Seq<u8>, b: u8) -> int
    decreases s.len(),
{
    if s.len() == 0 {
        -1
    } else if s[s.len() - 1] == b {
        s.len() - 1
    } else {
        last_pos(s.drop_last(), b)
    }
}

/// `last_pos` points at an occurrence of `b` and nothing later is one.
pub proof fn lemma_last_pos(s: Seq<u8>, b: u8)
    ensures
        -1 <= last_pos(s, b) < s.len(),
        last_pos(s, b) >= 0 ==> s[last_pos(s, b)] == b,
        forall|j: int| last_pos(s, b) < j < s.len() ==> s[j] != b,
    decreases s.len(),
{
    if s.len() > 0 && s[s.len() - 1] != b {
        lemma_last_pos(s.drop_last(), b);
        assert(forall|j: int| 0 <= j < s.len() - 1 ==> s.drop_last()[j] == s[j]);
    }
}

/// Any position that carries `b` with nothing later carrying it is
/// `last_pos`; `-1` is `last_pos` when nothing carries it.
pub proof fn lemma_last_pos_unique(s: Seq<u8>, b: u8, i: int)
    requires
        -1 <= i < s.len(),
        i >= 0 ==> s[i] == b,
        forall|j: int| i < j < s.len() ==> s[j] != b,
        i == -1 ==> forall|j: int| 0 <= j < s.len() ==> s[j] != b,
    ensures
        last_pos(s, b) == i,
{
    lemma_last_pos(s, b);
    if last_pos(s, b) > i {
        assert(s[last_pos(s, b)] == b);
    } else if last_pos(s, b) < i {
        assert(s[i] == b);
    }
}

/// Position in `p` where its file name begins: just after the last slash.
pub open spec fn file_name_start(p: Seq<u8>) -> int {
    last_pos(p, '/' as u8) + 1
}

/// The file name of `p`: the part after the last slash.
pub open spec fn spec_file_name(p: Seq<u8>) -> Seq<u8> {
    p.subrange(file_name_start(p), p.len() as int)
}

/// A file name on which no extension edit is meaningful: empty, `.`, `..`.
pub open spec fn spec_special_name(f: Seq<u8>) -> bool {
    ||| f.len() == 0
    ||| (f.len() == 1 && f[0] == '.' as u8)
    ||| (f.len() == 2 && f[0] == '.' as u8 && f[1] == '.' as u8)
}

/// The extension of `p`, if it has one.
pub open spec fn spec_extension(p: Seq<u8>) -> Option<Seq<u8>> {
    let f = spec_file_name(p);
    if spec_special_name(f) {
        None
    } else {
        let d = last_pos(f, '.' as u8);
        if d > 0 {
            Some(f.subrange(d + 1, f.len() as int))
        } else {
            None
        }
    }
}

/// `p` with its extension replaced by `e`, or with `.e` appended when `p`
/// has no extension; a path whose file name is empty, `.` or `..` is left
/// unchanged.
pub open spec fn spec_with_extension(p: Seq<u8>, e: Seq<u8>) -> Seq<u8> {
    let f = spec_file_name(p);
    if spec_special_name(f) {
        p
    } else {
        let d = last_pos(f, '.' as u8);
        let stem_end: int = if d > 0 {
            file_name_start(p) + d
        } else {
            p.len() as int
        };
        p.subrange(0, stem_end) + seq!['.' as u8] + e
    }
}

/// The canonical extension for a sniffed format.
pub open spec fn spec_kind_ext(k: ImageKind) -> Seq<u8> {
    match k {
        ImageKind::Png => seq!['p' as u8, 'n' as u8, 'g' as u8],
        ImageKind::Jpeg => seq!['j' as u8, 'p' as u8, 'g' as u8],
        ImageKind::Webp => seq!['w' as u8, 'e' as u8, 'b' as u8, 'p' as u8],
        ImageKind::Gif => seq!['g' as u8, 'i' as u8, 'f' as u8],
    }
}

/// The reconciled path for a file at `p` whose first bytes are `content`:
/// unchanged when no signature matches or the extension already agrees,
/// and renamed to the canonical extension otherwise.
pub open spec fn spec_reconcile(p: Seq<u8>, content: Seq<u8>) -> Seq<u8> {
    match spec_sniff(content) {
        Option::None => p,
        Option::Some(k) => if spec_extension(p) == Some(spec_kind_ext(k)) {
            p
        } else {
            spec_with_extension(p, spec_kind_ext(k))
        },
    }
}

/// Index of the last occurrence of `b` in `s`, if any.
fn last_byte_pos(s: &[u8], b: u8) -> (r: Option<usize>)
    ensures
        match r {
            Option::Some(i) => i == last_pos(s@, b),
            Option::None => last_pos(s@, b) == -1,
        },
{
    let mut i: usize = s.len();
    while i > 0
        invariant
            0 <= i <= s@.len(),
            forall|j: int| i <= j < s@.len() ==> s@[j] != b,
        decreases i,
    {
        i = i - 1;
        if s[i] == b {
            proof {
                lemma_last_pos_unique(s@, b, i as int);
            }
            return Some(i);
        }
    }
    proof {
        lemma_last_pos_unique(s@, b, -1);
    }
    None
}

/// The two byte strings hold the same bytes.
pub fn eq_bytes(a: &[u8], b: &[u8]) -> (r: bool)
    ensures
        r == (a@ == b@),
{
    if a.len() != b.len() {
        return false;
    }
    let mut i: usize = 0;
    while i < a.len()
        invariant
            0 <= i <= a@.len() == b@.len(),
            forall|j: int| 0 <= j < i ==> a@[j] == b@[j],
        decreases a@.len() - i,
    {
        if a[i] != b[i] {
            return false;
        }
        i += 1;
    }
    proof {
        assert(a@ =~= b@);
    }
    true
}

/// Where the file name of `path` begins, and how long it is.
fn file_name_span(path: &Vec<u8>) -> (r: (usize, usize))
    ensures
        r.0 == file_name_start(path@),
        r.1 == spec_file_name(path@).len(),
        r.0 + r.1 == path@.len(),
{
    let n: usize = path.len();
    proof {
        lemma_last_pos(path@, '/' as u8);
    }
    let start: usize = match last_byte_pos(path.as_slice(), '/' as u8) {
        Option::Some(i) => i + 1,
        Option::None => 0,
    };
    (start, n - start)
}

/// The file name is empty, `.`, or `..`.
fn is_special_name(f: &[u8]) -> (r: bool)
    ensures
        r == spec_special_name(f@),
{
    if f.len() == 0 {
        return true;
    }
    if f.len() == 1 && f[0] == '.' as u8 {
        return true;
    }
    if f.len() == 2 && f[0] == '.' as u8 && f[1] == '.' as u8 {
        return true;
    }
    false
}

/// The extension of `path`, if it has one.
pub fn extension_of(path: &Vec<u8>) -> (r: Option<Vec<u8>>)
    ensures
        r is Some <==> spec_extension(path@) is Some,
        r is Some ==> r.unwrap()@ == spec_extension(path@).unwrap(),
{
    let (start, flen) = file_name_span(path);
    let fname = vstd::slice::slice_subrange(path.as_slice(), start, path.len());
    if is_special_name(fname) {
        return None;
    }
    match last_byte_pos(fname, '.' as u8) {
        Option::Some(d) => {
            if d > 0 {
                proof {
                    lemma_last_pos(fname@, '.' as u8);
                }
                let ext = vstd::slice::slice_subrange(fname, d + 1, flen);
                Some(vstd::slice::slice_to_vec(ext))
            } else {
                None
            }
        },
        Option::None => None,
    }
}

/// `path` with its extension replaced by `e` (or appended when absent); a
/// path whose file name is empty, `.` or `..` comes back unchanged.
pub fn with_extension(path: &Vec<u8>, e: &[u8]) -> (r: Vec<u8>)
    ensures
        r@ == spec_with_extension(path@, e@),
{
    let (start, flen) = file_name_span(path);
    let fname = vstd::slice::slice_subrange(path.as_slice(), start, path.len());
    if is_special_name(fname) {
        return vstd::slice::slice_to_vec(path.as_slice());
    }
    let stem_end: usize = match last_byte_pos(fname, '.' as u8) {
        Option::Some(d) => if d > 0 {
            proof {
                lemma_last_pos(fname@, '.' as u8);
            }
            start + d
        } else {
            path.len()
        },
        Option::None => path.len(),
    };
    let mut r: Vec<u8> = Vec::new();
    let mut k: usize = 0;
    while k < stem_end
        invariant
            0 <= k <= stem_end <= path@.len(),
            r@.len() == k,
            forall|j: int| 0 <= j < k ==> r@[j] == path@[j],
        decreases stem_end - k,
    {
        r.push(path[k]);
        k += 1;
    }
    r.push('.' as u8);
    let mut m: usize = 0;
    while m < e.len()
        invariant
            0 <= m <= e@.len(),
            r@.len() == stem_end + 1 + m,
            forall|j: int| 0 <= j < stem_end ==> r@[j] == path@[j],
            r@[stem_end as int] == '.' as u8,
            forall|j: int| 0 <= j < m ==> r@[stem_end + 1 + j] == e@[j],
        decreases e@.len() - m,
    {
        r.push(e[m]);
        m += 1;
    }
    proof {
        assert(r@ =~= path@.subrange(0, stem_end as int) + seq!['.' as u8] + e@);
    }
    r
}

/// The canonical extension for a sniffed format, as bytes.
pub fn kind_extension(k: &ImageKind) -> (r: Vec<u8>)
    ensures
        r@ == spec_kind_ext(*k),
{
    match k {
        ImageKind::Png => {
            let v: Vec<u8> = vec!['p' as u8, 'n' as u8, 'g' as u8];
            proof {
                assert(v@ =~= spec_kind_ext(ImageKind::Png));
            }
            v
        },
        ImageKind::Jpeg => {
            let v: Vec<u8> = vec!['j' as u8, 'p' as u8, 'g' as u8];
            proof {
                assert(v@ =~= spec_kind_ext(ImageKind::Jpeg));
            }
            v
        },
        ImageKind::Webp => {
            let v: Vec<u8> = vec!['w' as u8, 'e' as u8, 'b' as u8, 'p' as u8];
            proof {
                assert(v@ =~= spec_kind_ext(ImageKind::Webp));
            }
            v
        },
        ImageKind::Gif => {
            let v: Vec<u8> = vec!['g' as u8, 'i' as u8, 'f' as u8];
            proof {
                assert(v@ =~= spec_kind_ext(ImageKind::Gif));
            }
            v
        },
    }
}

/// Computes the reconciled path for a file at `path` whose first bytes are
/// `prefix`: unchanged when no signature matches or the extension already
/// agrees with the sniffed type, and carrying the canonical extension
/// otherwise. The caller performs the actual rename when the result
/// differs from `path`; for a file that does not exist or cannot be read
/// it passes an empty prefix, which matches nothing and leaves the path
/// unchanged.
pub fn reconcile(path: &Vec<u8>, prefix: &[u8]) -> (r: Vec<u8>)
    ensures
        r@ == spec_reconcile(path@, prefix@),
{
    match sniff(prefix) {
        Option::None => vstd::slice::slice_to_vec(path.as_slice()),
        Option::Some(k) => {
            let e = kind_extension(&k);
            let same = match extension_of(path) {
                Option::Some(cur) => eq_bytes(cur.as_slice(), e.as_slice()),
                Option::None => false,
            };
            if same {
                vstd::slice::slice_to_vec(path.as_slice())
            } else {
                with_extension(path, e.as_slice())
            }
        },
    }
}

/// The canonical extensions are nonempty and contain no dot and no slash.
pub proof fn lemma_kind_ext_wf(k: ImageKind)
    ensures
        spec_kind_ext(k).len() > 0,
        forall|i: int|
            0 <= i < spec_kind_ext(k).len() ==> spec_kind_ext(k)[i] != '.' as u8 && spec_kind_ext(
                k,
            )[i] != '/' as u8,
{
    let e = spec_kind_ext(k);
    assert forall|i: int| 0 <= i < e.len() implies e[i] != '.' as u8 && e[i] != '/' as u8 by {
        match k {
            ImageKind::Png => {
                assert(e[0] == 'p' as u8 && e[1] == 'n' as u8 && e[2] == 'g' as u8);
            },
            ImageKind::Jpeg => {
                assert(e[0] == 'j' as u8 && e[1] == 'p' as u8 && e[2] == 'g' as u8);
            },
            ImageKind::Webp => {
                assert(e[0] == 'w' as u8 && e[1] == 'e' as u8 && e[2] == 'b' as u8 && e[3]
                    == 'p' as u8);
            },
            ImageKind::Gif => {
                assert(e[0] == 'g' as u8 && e[1] == 'i' as u8 && e[2] == 'f' as u8);
            },
        }
    };
}

/// After replacing the extension of a path whose file name is ordinary,
/// the new path's extension is exactly the replacement.
pub proof fn lemma_with_extension_extension(p: Seq<u8>, e: Seq<u8>)
    requires
        e.len() > 0,
        forall|i: int| 0 <= i < e.len() ==> e[i] != '.' as u8 && e[i] != '/' as u8,
        !spec_special_name(spec_file_name(p)),
    ensures
        spec_extension(spec_with_extension(p, e)) == Some(e),
{
    let s0 = last_pos(p, '/' as u8);
    lemma_last_pos(p, '/' as u8);
    let start = s0 + 1;
    let f = spec_file_name(p);
    assert(f.len() == p.len() - start);
    assert(f.len() >= 1);
    let d = last_pos(f, '.' as u8);
    lemma_last_pos(f, '.' as u8);
    let stem_end: int = if d > 0 {
        start + d
    } else {
        p.len() as int
    };
    assert(s0 < stem_end <= p.len());
    let stem = p.subrange(start, stem_end);
    assert(stem.len() >= 1);
    let p2 = spec_with_extension(p, e);
    assert(p2 == p.subrange(0, stem_end) + seq!['.' as u8] + e);
    assert(p2.len() == stem_end + 1 + e.len());
    assert forall|j: int| 0 <= j < stem_end implies p2[j] == p[j] by {
        assert(p2[j] == p.subrange(0, stem_end)[j]);
    }
    assert(p2[stem_end] == '.' as u8);
    assert forall|j: int| stem_end < j < p2.len() implies p2[j] == e[j - stem_end - 1] by {}
    // The last slash of the new path is where it was in the old one.
    assert forall|j: int| s0 < j < p2.len() implies p2[j] != '/' as u8 by {
        if j < stem_end {
            assert(p2[j] == p[j]);
        } else if j == stem_end {
        } else {
            assert(p2[j] == e[j - stem_end - 1]);
        }
    }
    lemma_last_pos_unique(p2, '/' as u8, s0);
    let f2 = spec_file_name(p2);
    assert(f2 == p2.subrange(start, p2.len() as int));
    assert(f2.len() == stem.len() + 1 + e.len());
    assert forall|j: int| 0 <= j < f2.len() implies f2[j] == p2[start + j] by {}
    assert(!spec_special_name(f2));
    // The last dot of the new file name is the one just written.
    let d2 = stem.len() as int;
    assert(f2[d2] == p2[stem_end] && p2[stem_end] == '.' as u8);
    assert forall|j: int| d2 < j < f2.len() implies f2[j] != '.' as u8 by {
        assert(f2[j] == p2[start + j]);
        assert(p2[start + j] == e[start + j - stem_end - 1]);
    }
    lemma_last_pos_unique(f2, '.' as u8, d2);
    assert(d2 > 0);
    let ext2 = f2.subrange(d2 + 1, f2.len() as int);
    assert forall|j: int| 0 <= j < ext2.len() implies ext2[j] == e[j] by {
        assert(ext2[j] == f2[d2 + 1 + j]);
        assert(f2[d2 + 1 + j] == p2[start + d2 + 1 + j]);
    }
    assert(ext2 =~= e);
}

/// Law: reconciliation is idempotent — applying it twice to a path, for
/// one and the same file content, yields the same path as applying it
/// once.
pub proof fn lemma_reconcile_idempotent(p: Seq<u8>, content: Seq<u8>)
    ensures
        spec_reconcile(spec_reconcile(p, content), content) == spec_reconcile(p, content),
{
    match spec_sniff(content) {
        Option::None => {},
        Option::Some(k) => {
            let e = spec_kind_ext(k);
            lemma_kind_ext_wf(k);
            if spec_extension(p) == Some(e) {
            } else {
                if spec_special_name(spec_file_name(p)) {
                    assert(spec_with_extension(p, e) == p);
                } else {
                    lemma_with_extension_extension(p, e);
                }
            }
        },
    }
}

} // verus!
