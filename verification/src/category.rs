//! Classification of a reconciled path into the coarse category that
//! drives handler selection.

use vstd::prelude::*;
use crate::paths::spec_extension;
use crate::paths::extension_of;

verus! {

/// The coarse classification of a downloaded file, derived from its final
/// extension. `Unknown` falls back to the `OpenDirectly` behavior.
#[derive(Clone, Copy, Debug, PartialEq, Eq, Structural)]
pub enum FileCategory {
    Pdf,
    Document,
    OpenDirectly,
    Unknown,
}

/// An ASCII upper-case letter mapped to lower case; anything else kept.
pub open spec fn lower_byte(b: u8) -> u8 {
    if 'A' as u8 <= b && b <= 'Z' as u8 {
        (b + 0x20) as u8
    } else {
        b
    }
}

/// `s` with every ASCII upper-case letter mapped to lower case.
pub open spec fn spec_lower(s: Seq<u8>) -> Seq<u8> {
    Seq::new(s.len(), |i: int| lower_byte(s[i]))
}

/// The lone extension classified as `Pdf`.
pub open spec fn spec_is_pdf_ext(e: Seq<u8>) -> bool {
    e == seq!['p' as u8, 'd' as u8, 'f' as u8]
}

/// The odt/doc/xls/ppt family, classified as `Document`.
pub open spec fn spec_is_document_ext(e: Seq<u8>) -> bool {
    ||| e == seq!['o' as u8, 'd' as u8, 't' as u8]
    ||| e == seq!['o' as u8, 'd' as u8, 'p' as u8]
    ||| e == seq!['o' as u8, 'd' as u8, 's' as u8]
    ||| e == seq!['d' as u8, 'o' as u8, 'c' as u8]
    ||| e == seq!['d' as u8, 'o' as u8, 'c' as u8, 'x' as u8]
    ||| e == seq!['x' as u8, 'l' as u8, 's' as u8]
    ||| e == seq!['x' as u8, 'l' as u8, 's' as u8, 'x' as u8]
    ||| e == seq!['p' as u8, 'p' as u8, 't' as u8]
    ||| e == seq!['p' as u8, 'p' as u8, 't' as u8, 'x' as u8]
}

/// Media, archive and text extensions that are opened directly, with no
/// choice of handler needed.
pub open spec fn spec_is_direct_ext(e: Seq<u8>) -> bool {
    ||| e == seq!['m' as u8, 'p' as u8, '4' as u8]
    ||| e == seq!['w' as u8, 'e' as u8, 'b' as u8, 'm' as u8]
    ||| e == seq!['m' as u8, 'o' as u8, 'v' as u8]
    ||| e == seq!['m' as u8, 'k' as u8, 'v' as u8]
    ||| e == seq!['a' as u8, 'v' as u8, 'i' as u8]
    ||| e == seq!['m' as u8, 'p' as u8, '3' as u8]
    ||| e == seq!['w' as u8, 'a' as u8, 'v' as u8]
    ||| e == seq!['o' as u8, 'g' as u8, 'g' as u8]
    ||| e == seq!['f' as u8, 'l' as u8, 'a' as u8, 'c' as u8]
    ||| e == seq!['j' as u8, 'p' as u8, 'g' as u8]
    ||| e == seq!['j' as u8, 'p' as u8, 'e' as u8, 'g' as u8]
    ||| e == seq!['p' as u8, 'n' as u8, 'g' as u8]
    ||| e == seq!['g' as u8, 'i' as u8, 'f' as u8]
    ||| e == seq!['w' as u8, 'e' as u8, 'b' as u8, 'p' as u8]
    ||| e == seq!['b' as u8, 'm' as u8, 'p' as u8]
    ||| e == seq!['z' as u8, 'i' as u8, 'p' as u8]
    ||| e == seq!['r' as u8, 'a' as u8, 'r' as u8]
    ||| e == seq!['7' as u8, 'z' as u8]
    ||| e == seq!['t' as u8, 'a' as u8, 'r' as u8]
    ||| e == seq!['g' as u8, 'z' as u8]
    ||| e == seq!['x' as u8, 'z' as u8]
    ||| e == seq!['t' as u8, 'x' as u8, 't' as u8]
    ||| e == seq!['r' as u8, 't' as u8, 'f' as u8]
    ||| e == seq!['c' as u8, 's' as u8, 'v' as u8]
}

/// The category for a lower-cased extension.
pub open spec fn spec_classify(e: Seq<u8>) -> FileCategory {
    if spec_is_pdf_ext(e) {
        FileCategory::Pdf
    } else if spec_is_document_ext(e) {
        FileCategory::Document
    } else if spec_is_direct_ext(e) {
        FileCategory::OpenDirectly
    } else {
        FileCategory::Unknown
    }
}

/// The category of a path: its extension, lower-cased, run through the
/// extension table; a path without an extension is `Unknown`.
pub open spec fn spec_classify_path(p: Seq<u8>) -> FileCategory {
    spec_classify(
        spec_lower(
            match spec_extension(p) {
                Option::Some(e) => e,
                Option::None => Seq::<u8>::empty(),
            },
        ),
    )
}

/// The bytes equal the given two.
fn ext_is2(e: &[u8], a0: u8, a1: u8) -> (r: bool)
    ensures
        r == (e@ == seq![a0, a1]),
{
    let r = e.len() == 2 && e[0] == a0 && e[1] == a1;
    proof {
        if r {
            assert(e@ =~= seq![a0, a1]);
        } else if e@ == seq![a0, a1] {
            assert(e@[0] == a0 && e@[1] == a1);
        }
    }
    r
}

/// The bytes equal the given three.
fn ext_is3(e: &[u8], a0: u8, a1: u8, a2: u8) -> (r: bool)
    ensures
        r == (e@ == seq![a0, a1, a2]),
{
    let r = e.len() == 3 && e[0] == a0 && e[1] == a1 && e[2] == a2;
    proof {
        if r {
            assert(e@ =~= seq![a0, a1, a2]);
        } else if e@ == seq![a0, a1, a2] {
            assert(e@[0] == a0 && e@[1] == a1 && e@[2] == a2);
        }
    }
    r
}

/// The bytes equal the given four.
fn ext_is4(e: &[u8], a0: u8, a1: u8, a2: u8, a3: u8) -> (r: bool)
    ensures
        r == (e@ == seq![a0, a1, a2, a3]),
{
    let r = e.len() == 4 && e[0] == a0 && e[1] == a1 && e[2] == a2 && e[3] == a3;
    proof {
        if r {
            assert(e@ =~= seq![a0, a1, a2, a3]);
        } else if e@ == seq![a0, a1, a2, a3] {
            assert(e@[0] == a0 && e@[1] == a1 && e@[2] == a2 && e@[3] == a3);
        }
    }
    r
}

/// `s` with every ASCII upper-case letter mapped to lower case.
pub fn to_lower(v: &Vec<u8>) -> (r: Vec<u8>)
    ensures
        r@ == spec_lower(v@),
{
    let mut r: Vec<u8> = Vec::new();
    let mut i: usize = 0;
    while i < v.len()
        invariant
            0 <= i <= v@.len(),
            r@.len() == i,
            forall|j: int| 0 <= j < i ==> r@[j] == lower_byte(v@[j]),
        decreases v@.len() - i,
    {
        let b = v[i];
        if 'A' as u8 <= b && b <= 'Z' as u8 {
            r.push(b + 0x20);
        } else {
            r.push(b);
        }
        i += 1;
    }
    proof {
        assert(r@ =~= spec_lower(v@));
    }
    r
}

/// The category for a lower-cased extension.
pub fn classify_ext(ext: &Vec<u8>) -> (c: FileCategory)
    ensures
        c == spec_classify(ext@),
{
    let e = ext.as_slice();
    if ext_is3(e, 'p' as u8, 'd' as u8, 'f' as u8) {
        return FileCategory::Pdf;
    }
    let is_doc = ext_is3(e, 'o' as u8, 'd' as u8, 't' as u8)
    || ext_is3(e, 'o' as u8, 'd' as u8, 'p' as u8)
    || ext_is3(e, 'o' as u8, 'd' as u8, 's' as u8)
    || ext_is3(e, 'd' as u8, 'o' as u8, 'c' as u8)
    || ext_is4(e, 'd' as u8, 'o' as u8, 'c' as u8, 'x' as u8)
    || ext_is3(e, 'x' as u8, 'l' as u8, 's' as u8)
    || ext_is4(e, 'x' as u8, 'l' as u8, 's' as u8, 'x' as u8)
    || ext_is3(e, 'p' as u8, 'p' as u8, 't' as u8)
    || ext_is4(e, 'p' as u8, 'p' as u8, 't' as u8, 'x' as u8);
    if is_doc {
        return FileCategory::Document;
    }
    let is_direct = ext_is3(e, 'm' as u8, 'p' as u8, '4' as u8)
    || ext_is4(e, 'w' as u8, 'e' as u8, 'b' as u8, 'm' as u8)
    || ext_is3(e, 'm' as u8, 'o' as u8, 'v' as u8)
    || ext_is3(e, 'm' as u8, 'k' as u8, 'v' as u8)
    || ext_is3(e, 'a' as u8, 'v' as u8, 'i' as u8)
    || ext_is3(e, 'm' as u8, 'p' as u8, '3' as u8)
    || ext_is3(e, 'w' as u8, 'a' as u8, 'v' as u8)
    || ext_is3(e, 'o' as u8, 'g' as u8, 'g' as u8)
    || ext_is4(e, 'f' as u8, 'l' as u8, 'a' as u8, 'c' as u8)
    || ext_is3(e, 'j' as u8, 'p' as u8, 'g' as u8)
    || ext_is4(e, 'j' as u8, 'p' as u8, 'e' as u8, 'g' as u8)
    || ext_is3(e, 'p' as u8, 'n' as u8, 'g' as u8)
    || ext_is3(e, 'g' as u8, 'i' as u8, 'f' as u8)
    || ext_is4(e, 'w' as u8, 'e' as u8, 'b' as u8, 'p' as u8)
    || ext_is3(e, 'b' as u8, 'm' as u8, 'p' as u8)
    || ext_is3(e, 'z' as u8, 'i' as u8, 'p' as u8)
    || ext_is3(e, 'r' as u8, 'a' as u8, 'r' as u8)
    || ext_is2(e, '7' as u8, 'z' as u8)
    || ext_is3(e, 't' as u8, 'a' as u8, 'r' as u8)
    || ext_is2(e, 'g' as u8, 'z' as u8)
    || ext_is2(e, 'x' as u8, 'z' as u8)
    || ext_is3(e, 't' as u8, 'x' as u8, 't' as u8)
    || ext_is3(e, 'r' as u8, 't' as u8, 'f' as u8)
    || ext_is3(e, 'c' as u8, 's' as u8, 'v' as u8);
    if is_direct {
        return FileCategory::OpenDirectly;
    }
    FileCategory::Unknown
}

/// The category of a path: its extension, lower-cased, run through the
/// extension table.
pub fn classify_path(path: &Vec<u8>) -> (c: FileCategory)
    ensures
        c == spec_classify_path(path@),
{
    let e: Vec<u8> = match extension_of(path) {
        Option::Some(e) => e,
        Option::None => Vec::new(),
    };
    let low = to_lower(&e);
    classify_ext(&low)
}

} // verus!
