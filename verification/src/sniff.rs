//! Signature sniffing: identifying an image format from the leading bytes of
//! a file, independent of the name the remote server gave it.

use vstd::prelude::*;

verus! {

/// The image formats whose magic prefixes the sniffer recognizes.
#[derive(Clone, Copy, Debug, PartialEq, Eq, Structural)]
pub enum ImageKind {
    Png,
    Jpeg,
    Webp,
    Gif,
}

/// `s` begins with the bytes of `pat`.
pub open spec fn spec_starts_with(s: Seq<u8>, pat: Seq<u8>) -> bool {
    s.len() >= pat.len() && s.subrange(0, pat.len() as int) == pat
}

/// The fixed eight-byte signature that every PNG file begins with.
pub open spec fn png_signature() -> Seq<u8> {
    seq![0x89u8, 0x50u8, 0x4eu8, 0x47u8, 0x0du8, 0x0au8, 0x1au8, 0x0au8]
}

/// The recognized four-byte JPEG prefixes: `FF D8 FF` followed by one of
/// `E0`, `E1`, `E2`, `E3`, `E8`.
pub open spec fn is_jpeg_prefix(s: Seq<u8>) -> bool {
    &&& s.len() >= 4
    &&& s[0] == 0xffu8
    &&& s[1] == 0xd8u8
    &&& s[2] == 0xffu8
    &&& (s[3] == 0xe0u8 || s[3] == 0xe1u8 || s[3] == 0xe2u8 || s[3] == 0xe3u8 || s[3]
        == 0xe8u8)
}

/// The RIFF container signature, `RIFF` in ASCII, mapped to WebP.
pub open spec fn riff_signature() -> Seq<u8> {
    seq!['R' as u8, 'I' as u8, 'F' as u8, 'F' as u8]
}

/// The GIF signature, `GIF8` in ASCII.
pub open spec fn gif_signature() -> Seq<u8> {
    seq!['G' as u8, 'I' as u8, 'F' as u8, '8' as u8]
}

/// What the sniffer returns on a given byte prefix: the first matching rule
/// wins, and a buffer shorter than every signature, or matching none,
/// yields no match.
pub open spec fn spec_sniff(s: Seq<u8>) -> Option<ImageKind> {
    if spec_starts_with(s, png_signature()) {
        Some(ImageKind::Png)
    } else if is_jpeg_prefix(s) {
        Some(ImageKind::Jpeg)
    } else if spec_starts_with(s, riff_signature()) {
        Some(ImageKind::Webp)
    } else if spec_starts_with(s, gif_signature()) {
        Some(ImageKind::Gif)
    } else {
        None
    }
}

/// `s` begins with the bytes of `pat`.
fn starts_with_bytes(s: &[u8], pat: &[u8]) -> (r: bool)
    ensures
        r == spec_starts_with(s@, pat@),
{
    if s.len() < pat.len() {
        return false;
    }
    let mut i: usize = 0;
    while i < pat.len()
        invariant
            0 <= i <= pat@.len() <= s@.len(),
            forall|j: int| 0 <= j < i ==> s@[j] == pat@[j],
        decreases pat@.len() - i,
    {
        if s[i] != pat[i] {
            proof {
                assert(s@.subrange(0, pat@.len() as int)[i as int] == s@[i as int]);
            }
            return false;
        }
        i += 1;
    }
    proof {
        assert(s@.subrange(0, pat@.len() as int) =~= pat@);
    }
    true
}

/// Inspects a byte prefix of a file and returns the recognized format, if
/// any. Deterministic given identical bytes; unrecognized or truncated
/// content yields `None`, never an error.
pub fn sniff(prefix: &[u8]) -> (r: Option<ImageKind>)
    ensures
        r == spec_sniff(prefix@),
{
    let png: Vec<u8> = vec![0x89u8, 0x50u8, 0x4eu8, 0x47u8, 0x0du8, 0x0au8, 0x1au8, 0x0au8];
    proof {
        assert(png@ =~= png_signature());
    }
    if starts_with_bytes(prefix, png.as_slice()) {
        return Some(ImageKind::Png);
    }
    if prefix.len() >= 4 && prefix[0] == 0xff && prefix[1] == 0xd8 && prefix[2] == 0xff && (
    prefix[3] == 0xe0 || prefix[3] == 0xe1 || prefix[3] == 0xe2 || prefix[3] == 0xe3 || prefix[3]
        == 0xe8) {
        return Some(ImageKind::Jpeg);
    }
    let riff: Vec<u8> = vec!['R' as u8, 'I' as u8, 'F' as u8, 'F' as u8];
    proof {
        assert(riff@ =~= riff_signature());
    }
    if starts_with_bytes(prefix, riff.as_slice()) {
        return Some(ImageKind::Webp);
    }
    let gif: Vec<u8> = vec!['G' as u8, 'I' as u8, 'F' as u8, '8' as u8];
    proof {
        assert(gif@ =~= gif_signature());
    }
    if starts_with_bytes(prefix, gif.as_slice()) {
        return Some(ImageKind::Gif);
    }
    None
}

/// Law: a buffer that begins with a known signature is classified as exactly
/// the corresponding format, and a buffer shorter than the shortest known
/// signature, or matching none, yields no match.
pub proof fn lemma_sniff_exact(s: Seq<u8>)
    ensures
        spec_starts_with(s, png_signature()) ==> spec_sniff(s) == Some(ImageKind::Png),
        is_jpeg_prefix(s) ==> spec_sniff(s) == Some(ImageKind::Jpeg),
        spec_starts_with(s, riff_signature()) ==> spec_sniff(s) == Some(ImageKind::Webp),
        spec_starts_with(s, gif_signature()) ==> spec_sniff(s) == Some(ImageKind::Gif),
        s.len() < 4 ==> spec_sniff(s) == None::<ImageKind>,
        !spec_starts_with(s, png_signature()) && !is_jpeg_prefix(s) && !spec_starts_with(
            s,
            riff_signature(),
        ) && !spec_starts_with(s, gif_signature()) ==> spec_sniff(s) == None::<ImageKind>,
{
    if spec_starts_with(s, png_signature()) {
        assert(s[0] == 0x89u8) by {
            assert(s.subrange(0, 8)[0] == s[0]);
        }
    }
    if spec_starts_with(s, riff_signature()) {
        assert(s[0] == 'R' as u8) by {
            assert(s.subrange(0, 4)[0] == s[0]);
        }
        assert(!spec_starts_with(s, png_signature())) by {
            if spec_starts_with(s, png_signature()) {
                assert(s.subrange(0, 8)[0] == s[0]);
            }
        }
    }
    if spec_starts_with(s, gif_signature()) {
        assert(s[0] == 'G' as u8) by {
            assert(s.subrange(0, 4)[0] == s[0]);
        }
        assert(!spec_starts_with(s, png_signature())) by {
            if spec_starts_with(s, png_signature()) {
                assert(s.subrange(0, 8)[0] == s[0]);
            }
        }
        assert(!spec_starts_with(s, riff_signature())) by {
            if spec_starts_with(s, riff_signature()) {
                assert(s.subrange(0, 4)[0] == s[0]);
            }
        }
    }
}

} // verus!
