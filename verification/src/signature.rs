//! The magic bytes by which the codec provider tells container formats apart.
//!
//! The table is stated in the order in which the provider tries its entries:
//! the first entry that matches decides. Each entry yields the provider's own
//! name for the format.

use vstd::prelude::*;

verus! {

/// `bytes` begins with `magic`.
pub open spec fn begins_with(bytes: Seq<u8>, magic: Seq<u8>) -> bool {
    magic.is_prefix_of(bytes)
}

/// `bytes` holds `magic` from position `at` on.
pub open spec fn holds_at(bytes: Seq<u8>, at: int, magic: Seq<u8>) -> bool {
    &&& at + magic.len() <= bytes.len()
    &&& bytes.subrange(at, at + magic.len()) == magic
}

/// The eight bytes every PNG file starts with.
pub open spec fn png_magic() -> Seq<u8> {
    seq![0x89u8, 0x50, 0x4e, 0x47, 0x0d, 0x0a, 0x1a, 0x0a]
}

/// The start-of-image marker and the first byte of the marker after it.
pub open spec fn jpeg_magic() -> Seq<u8> {
    seq![0xffu8, 0xd8, 0xff]
}

/// `GIF89a`
pub open spec fn gif89a_magic() -> Seq<u8> {
    seq![0x47u8, 0x49, 0x46, 0x38, 0x39, 0x61]
}

/// `GIF87a`
pub open spec fn gif87a_magic() -> Seq<u8> {
    seq![0x47u8, 0x49, 0x46, 0x38, 0x37, 0x61]
}

/// `RIFF`
pub open spec fn riff_magic() -> Seq<u8> {
    seq![0x52u8, 0x49, 0x46, 0x46]
}

/// `WEBP`
pub open spec fn webp_magic() -> Seq<u8> {
    seq![0x57u8, 0x45, 0x42, 0x50]
}

/// `BM`
pub open spec fn bmp_magic() -> Seq<u8> {
    seq![0x42u8, 0x4d]
}

/// `ftypavif`
pub open spec fn avif_brand() -> Seq<u8> {
    seq![0x66u8, 0x74, 0x79, 0x70, 0x61, 0x76, 0x69, 0x66]
}

/// A RIFF container of type WEBP: `RIFF`, four bytes of length that are not
/// looked at, then `WEBP`.
pub open spec fn is_webp_container(bytes: Seq<u8>) -> bool {
    &&& bytes.len() >= 12
    &&& begins_with(bytes, riff_magic())
    &&& holds_at(bytes, 8, webp_magic())
}

/// An ISO media file of brand `avif`: two zero bytes, two bytes that are not
/// looked at, then `ftypavif`.
pub open spec fn is_avif_container(bytes: Seq<u8>) -> bool {
    &&& bytes.len() >= 12
    &&& bytes[0] == 0
    &&& bytes[1] == 0
    &&& holds_at(bytes, 4, avif_brand())
}

/// A Netpbm file: `P` and a digit from `1` to `7`.
pub open spec fn is_pnm_header(bytes: Seq<u8>) -> bool {
    &&& bytes.len() >= 2
    &&& bytes[0] == 0x50
    &&& 0x31 <= bytes[1] <= 0x37
}

/// The provider's name of the format whose signature `bytes` begins with, or
/// `None` where no signature matches.
pub open spec fn signature_name(bytes: Seq<u8>) -> Option<Seq<char>> {
    if begins_with(bytes, png_magic()) {
        Some("Png"@)
    } else if begins_with(bytes, jpeg_magic()) {
        Some("Jpeg"@)
    } else if begins_with(bytes, gif89a_magic()) || begins_with(bytes, gif87a_magic()) {
        Some("Gif"@)
    } else if is_webp_container(bytes) {
        Some("WebP"@)
    } else if begins_with(bytes, seq![0x4du8, 0x4d, 0x00, 0x2a]) || begins_with(
        bytes,
        seq![0x49u8, 0x49, 0x2a, 0x00],
    ) {
        Some("Tiff"@)
    } else if begins_with(bytes, seq![0x44u8, 0x44, 0x53, 0x20]) {
        Some("Dds"@)
    } else if begins_with(bytes, bmp_magic()) {
        Some("Bmp"@)
    } else if begins_with(bytes, seq![0x00u8, 0x00, 0x01, 0x00]) {
        Some("Ico"@)
    } else if begins_with(
        bytes,
        seq![0x23u8, 0x3f, 0x52, 0x41, 0x44, 0x49, 0x41, 0x4e, 0x43, 0x45],
    ) {
        Some("Hdr"@)
    } else if is_avif_container(bytes) {
        Some("Avif"@)
    } else if begins_with(bytes, seq![0x76u8, 0x2f, 0x31, 0x01]) {
        Some("OpenExr"@)
    } else if begins_with(bytes, seq![0x71u8, 0x6f, 0x69, 0x66]) {
        Some("Qoi"@)
    } else if is_pnm_header(bytes) {
        Some("Pnm"@)
    } else if begins_with(bytes, seq![0x66u8, 0x61, 0x72, 0x62, 0x66, 0x65, 0x6c, 0x64]) {
        Some("Farbfeld"@)
    } else {
        None
    }
}

/// No signature is longer than this many bytes.
pub open spec fn longest_signature() -> nat {
    12
}

/// Detection is prefix-based: only the first twelve bytes are looked at, so
/// whatever follows them never changes the answer.
pub proof fn lemma_signature_reads_the_start_only(bytes: Seq<u8>)
    requires
        bytes.len() >= longest_signature(),
    ensures
        signature_name(bytes) == signature_name(bytes.subrange(0, longest_signature() as int)),
{
    let head = bytes.subrange(0, 12);
    assert forall|magic: Seq<u8>| magic.len() <= 12 implies begins_with(bytes, magic)
        == begins_with(head, magic) by {
        if magic.len() <= 12 {
            assert(head.subrange(0, magic.len() as int) =~= bytes.subrange(0, magic.len() as int));
        }
    }
    assert(head.subrange(8, 12) =~= bytes.subrange(8, 12));
    assert(head.subrange(4, 12) =~= bytes.subrange(4, 12));
}

/// A signature that is there in full stays recognised when more bytes
/// follow: a header prefix is classified as the whole file is.
pub proof fn lemma_signature_survives_more_bytes(head: Seq<u8>, bytes: Seq<u8>)
    requires
        head.is_prefix_of(bytes),
        signature_name(head) is Some,
    ensures
        signature_name(bytes) == signature_name(head),
{
    assert forall|magic: Seq<u8>| begins_with(head, magic) implies begins_with(bytes, magic) by {
        if begins_with(head, magic) {
            assert(bytes.subrange(0, magic.len() as int) =~= head.subrange(0, magic.len() as int));
        }
    }
    assert forall|i: int| 0 <= i < head.len() implies head[i] == bytes[i] by {
        assert(bytes.subrange(0, head.len() as int)[i] == bytes[i]);
    }
    if head.len() >= 12 {
        assert(head.subrange(8, 12) =~= bytes.subrange(8, 12));
        assert(head.subrange(4, 12) =~= bytes.subrange(4, 12));
    }
    lemma_first_bytes_decide(head);
    lemma_first_bytes_decide(bytes);
}

/// What each signature asks of the first bytes.
proof fn lemma_first_bytes_decide(bytes: Seq<u8>)
    ensures
        begins_with(bytes, png_magic()) ==> bytes[0] == 0x89,
        begins_with(bytes, jpeg_magic()) ==> bytes[0] == 0xff,
        begins_with(bytes, gif89a_magic()) ==> bytes[0] == 0x47,
        begins_with(bytes, gif87a_magic()) ==> bytes[0] == 0x47,
        begins_with(bytes, riff_magic()) ==> bytes[0] == 0x52,
        begins_with(bytes, seq![0x4du8, 0x4d, 0x00, 0x2a]) ==> bytes[0] == 0x4d,
        begins_with(bytes, seq![0x49u8, 0x49, 0x2a, 0x00]) ==> bytes[0] == 0x49,
        begins_with(bytes, seq![0x44u8, 0x44, 0x53, 0x20]) ==> bytes[0] == 0x44,
        begins_with(bytes, bmp_magic()) ==> bytes[0] == 0x42,
        begins_with(bytes, seq![0x00u8, 0x00, 0x01, 0x00]) ==> bytes[0] == 0x00,
        begins_with(
            bytes,
            seq![0x23u8, 0x3f, 0x52, 0x41, 0x44, 0x49, 0x41, 0x4e, 0x43, 0x45],
        ) ==> bytes[0] == 0x23,
        begins_with(bytes, seq![0x76u8, 0x2f, 0x31, 0x01]) ==> bytes[0] == 0x76,
        begins_with(bytes, seq![0x71u8, 0x6f, 0x69, 0x66]) ==> bytes[0] == 0x71,
        begins_with(bytes, seq![0x66u8, 0x61, 0x72, 0x62, 0x66, 0x65, 0x6c, 0x64]) ==> bytes[0]
            == 0x66,
{
    assert forall|magic: Seq<u8>| magic.len() > 0 && begins_with(bytes, magic) implies bytes[0]
        == magic[0] by {
        if magic.len() > 0 && begins_with(bytes, magic) {
            assert(bytes.subrange(0, magic.len() as int)[0] == bytes[0]);
        }
    }
    assert(png_magic()[0] == 0x89);
    assert(jpeg_magic()[0] == 0xff);
    assert(gif89a_magic()[0] == 0x47);
    assert(gif87a_magic()[0] == 0x47);
    assert(riff_magic()[0] == 0x52);
    assert(bmp_magic()[0] == 0x42);
    assert(seq![0x4du8, 0x4d, 0x00, 0x2a][0] == 0x4d);
    assert(seq![0x49u8, 0x49, 0x2a, 0x00][0] == 0x49);
    assert(seq![0x44u8, 0x44, 0x53, 0x20][0] == 0x44);
    assert(seq![0x00u8, 0x00, 0x01, 0x00][0] == 0x00);
    assert(seq![0x23u8, 0x3f, 0x52, 0x41, 0x44, 0x49, 0x41, 0x4e, 0x43, 0x45][0] == 0x23);
    assert(seq![0x76u8, 0x2f, 0x31, 0x01][0] == 0x76);
    assert(seq![0x71u8, 0x6f, 0x69, 0x66][0] == 0x71);
    assert(seq![0x66u8, 0x61, 0x72, 0x62, 0x66, 0x65, 0x6c, 0x64][0] == 0x66);
}

/// A PNG signature that is cut off inside itself is no signature at all: it
/// is not taken for PNG, nor for anything else.
pub proof fn lemma_truncated_png_signature_is_none(length: int)
    requires
        0 <= length < png_magic().len(),
    ensures
        signature_name(png_magic().subrange(0, length)) is None,
{
    let cut = png_magic().subrange(0, length);
    lemma_first_bytes_decide(cut);
    if length > 0 {
        assert(cut[0] == 0x89);
    }
}

/// Bytes that begin with the PNG signature are PNG, whatever follows.
pub proof fn lemma_png_signature_is_png(bytes: Seq<u8>)
    requires
        begins_with(bytes, png_magic()),
    ensures
        signature_name(bytes) == Some("Png"@),
{
}

} // verus!
