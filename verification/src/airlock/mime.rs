//! Content sniffing: the kind of an artifact judged from its bytes alone.
use vstd::prelude::*;
use crate::airlock::markers::{
    elf_magic, elf_magic_bytes, jpeg_magic, jpeg_magic_bytes, pdf_magic, pdf_magic_bytes,
    png_magic, png_magic_bytes, zip_magic, zip_magic_bytes,
};
use crate::airlock::scrub::{matches_at, starts_with};

verus! {

/// The content kinds the airlock recognises.
#[derive(Debug, Clone, Copy, PartialEq, Eq, Structural)]
pub enum SniffedMime {
    Pdf,
    Png,
    Jpeg,
    PlainText,
    Executable,
    MsWord,
    MsExcel,
    MsPowerpoint,
    ZipArchive,
    TarArchive,
    GzipArchive,
    Unknown,
}

/// The MIME type string of each content kind.
pub open spec fn mime_name(m: SniffedMime) -> Seq<char> {
    match m {
        SniffedMime::Pdf => "application/pdf"@,
        SniffedMime::Png => "image/png"@,
        SniffedMime::Jpeg => "image/jpeg"@,
        SniffedMime::PlainText => "text/plain"@,
        SniffedMime::Executable => "application/executable"@,
        SniffedMime::MsWord => "application/msword"@,
        SniffedMime::MsExcel => "application/vnd.ms-excel"@,
        SniffedMime::MsPowerpoint => "application/vnd.ms-powerpoint"@,
        SniffedMime::ZipArchive => "application/zip"@,
        SniffedMime::TarArchive => "application/x-tar"@,
        SniffedMime::GzipArchive => "application/gzip"@,
        SniffedMime::Unknown => "application/unknown"@,
    }
}

/// The risk every artifact of a kind starts with.
pub open spec fn baseline_risk(m: SniffedMime) -> u8 {
    match m {
        SniffedMime::PlainText | SniffedMime::Png | SniffedMime::Jpeg => 5,
        SniffedMime::Pdf => 15,
        SniffedMime::MsWord | SniffedMime::MsExcel | SniffedMime::MsPowerpoint => 40,
        SniffedMime::ZipArchive | SniffedMime::TarArchive | SniffedMime::GzipArchive => 35,
        SniffedMime::Executable => 95,
        SniffedMime::Unknown => 90,
    }
}

/// The kind is an Office document.
pub open spec fn office_document(m: SniffedMime) -> bool {
    m == SniffedMime::MsWord || m == SniffedMime::MsExcel || m == SniffedMime::MsPowerpoint
}

/// The kind is an archive.
pub open spec fn archive(m: SniffedMime) -> bool {
    m == SniffedMime::ZipArchive || m == SniffedMime::TarArchive || m == SniffedMime::GzipArchive
}

impl SniffedMime {
    /// The MIME type string of this kind.
    pub fn as_str(&self) -> (r: &'static str)
        ensures
            r@ == mime_name(*self),
    {
        match self {
            SniffedMime::Pdf => "application/pdf",
            SniffedMime::Png => "image/png",
            SniffedMime::Jpeg => "image/jpeg",
            SniffedMime::PlainText => "text/plain",
            SniffedMime::Executable => "application/executable",
            SniffedMime::MsWord => "application/msword",
            SniffedMime::MsExcel => "application/vnd.ms-excel",
            SniffedMime::MsPowerpoint => "application/vnd.ms-powerpoint",
            SniffedMime::ZipArchive => "application/zip",
            SniffedMime::TarArchive => "application/x-tar",
            SniffedMime::GzipArchive => "application/gzip",
            SniffedMime::Unknown => "application/unknown",
        }
    }

    /// The risk every artifact of this kind starts with.
    pub fn risk_baseline(&self) -> (r: u8)
        ensures
            r == baseline_risk(*self),
    {
        match self {
            SniffedMime::PlainText | SniffedMime::Png | SniffedMime::Jpeg => 5,
            SniffedMime::Pdf => 15,
            SniffedMime::MsWord | SniffedMime::MsExcel | SniffedMime::MsPowerpoint => 40,
            SniffedMime::ZipArchive | SniffedMime::TarArchive | SniffedMime::GzipArchive => 35,
            SniffedMime::Executable => 95,
            SniffedMime::Unknown => 90,
        }
    }

    /// Whether this kind is an Office document.
    pub fn is_office_document(&self) -> (r: bool)
        ensures
            r == office_document(*self),
    {
        match self {
            SniffedMime::MsWord | SniffedMime::MsExcel | SniffedMime::MsPowerpoint => true,
            _ => false,
        }
    }

    /// Whether this kind is an archive.
    pub fn is_archive(&self) -> (r: bool)
        ensures
            r == archive(*self),
    {
        match self {
            SniffedMime::ZipArchive | SniffedMime::TarArchive | SniffedMime::GzipArchive => true,
            _ => false,
        }
    }
}

/// A byte that counts as printable text: tab, line feed, carriage return or
/// a visible ASCII character or space.
pub open spec fn printable(c: u8) -> bool {
    c == 9 || c == 10 || c == 13 || (32 <= c <= 126)
}

/// The number of printable bytes in `b`.
pub open spec fn printable_count(b: Seq<u8>) -> nat
    decreases b.len(),
{
    if b.len() == 0 {
        0
    } else {
        printable_count(b.drop_last()) + (if printable(b.last()) { 1nat } else { 0nat })
    }
}

/// The kind of an artifact judged from its leading bytes; text is at least
/// ninety percent printable bytes (rounding down).
pub open spec fn sniffed(b: Seq<u8>) -> SniffedMime {
    if starts_with(b, pdf_magic()) {
        SniffedMime::Pdf
    } else if starts_with(b, png_magic()) {
        SniffedMime::Png
    } else if starts_with(b, jpeg_magic()) {
        SniffedMime::Jpeg
    } else if starts_with(b, elf_magic()) {
        SniffedMime::Executable
    } else if starts_with(b, zip_magic()) {
        SniffedMime::ZipArchive
    } else if b.len() == 0 {
        SniffedMime::Unknown
    } else if printable_count(b) * 100 / b.len() >= 90 {
        SniffedMime::PlainText
    } else {
        SniffedMime::Unknown
    }
}

/// Judges the kind of an artifact from its bytes.
pub fn sniff_mime(bytes: &[u8]) -> (r: SniffedMime)
    ensures
        r == sniffed(bytes@),
{
    if matches_at(bytes, pdf_magic_bytes().as_slice(), 0) {
        return SniffedMime::Pdf;
    }
    if matches_at(bytes, png_magic_bytes().as_slice(), 0) {
        return SniffedMime::Png;
    }
    if matches_at(bytes, jpeg_magic_bytes().as_slice(), 0) {
        return SniffedMime::Jpeg;
    }
    if matches_at(bytes, elf_magic_bytes().as_slice(), 0) {
        return SniffedMime::Executable;
    }
    if matches_at(bytes, zip_magic_bytes().as_slice(), 0) {
        return SniffedMime::ZipArchive;
    }
    let n: usize = bytes.len();
    if n == 0 {
        return SniffedMime::Unknown;
    }
    let mut count: usize = 0;
    let mut i: usize = 0;
    while i < n
        invariant
            n == bytes@.len(),
            i <= n,
            count <= i,
            count == printable_count(bytes@.subrange(0, i as int)),
        decreases n - i,
    {
        let c: u8 = bytes[i];
        proof {
            assert(bytes@.subrange(0, i + 1).drop_last() =~= bytes@.subrange(0, i as int));
        }
        if c == 9 || c == 10 || c == 13 || (32 <= c && c <= 126) {
            count = count + 1;
        }
        i = i + 1;
    }
    proof {
        assert(bytes@.subrange(0, n as int) =~= bytes@);
    }
    if (count as u128) * 100 / (n as u128) >= 90 {
        SniffedMime::PlainText
    } else {
        SniffedMime::Unknown
    }
}

/// Each recognised magic number gives its own kind, whatever follows it:
/// "%PDF-" a PDF, the eight-byte PNG signature a PNG, FF D8 FF a JPEG,
/// 7F "ELF" an executable and "PK" 03 04 a ZIP archive. None of them is
/// ever judged unknown.
pub proof fn lemma_magic_numbers_are_recognised(b: Seq<u8>)
    ensures
        b.len() >= 5 && b[0] == 37 && b[1] == 80 && b[2] == 68 && b[3] == 70 && b[4] == 45
            ==> sniffed(b) == SniffedMime::Pdf,
        b.len() >= 8 && b[0] == 137 && b[1] == 80 && b[2] == 78 && b[3] == 71 && b[4] == 13 && b[5] == 10
            && b[6] == 26 && b[7] == 10 ==> sniffed(b) == SniffedMime::Png,
        b.len() >= 3 && b[0] == 255 && b[1] == 216 && b[2] == 255 ==> sniffed(b) == SniffedMime::Jpeg,
        b.len() >= 4 && b[0] == 127 && b[1] == 69 && b[2] == 76 && b[3] == 70 ==> sniffed(b) == SniffedMime::Executable,
        b.len() >= 4 && b[0] == 80 && b[1] == 75 && b[2] == 3 && b[3] == 4 ==> sniffed(b) == SniffedMime::ZipArchive,
{
    if b.len() >= 5 && b[0] == 37 && b[1] == 80 && b[2] == 68 && b[3] == 70 && b[4] == 45 {
        assert(b.subrange(0, 5) =~= pdf_magic());
    }
    if b.len() >= 8 && b[0] == 137 && b[1] == 80 && b[2] == 78 && b[3] == 71 && b[4] == 13 && b[5] == 10
        && b[6] == 26 && b[7] == 10 {
        assert(b.subrange(0, 8) =~= png_magic());
        assert(!starts_with(b, pdf_magic())) by {
            if starts_with(b, pdf_magic()) {
                assert(b.subrange(0, 5)[0] == b[0]);
            }
        }
    }
    if b.len() >= 3 && b[0] == 255 && b[1] == 216 && b[2] == 255 {
        assert(b.subrange(0, 3) =~= jpeg_magic());
        lemma_first_byte_rules_out(b);
    }
    if b.len() >= 4 && b[0] == 127 && b[1] == 69 && b[2] == 76 && b[3] == 70 {
        assert(b.subrange(0, 4) =~= elf_magic());
        lemma_first_byte_rules_out(b);
    }
    if b.len() >= 4 && b[0] == 80 && b[1] == 75 && b[2] == 3 && b[3] == 4 {
        assert(b.subrange(0, 4) =~= zip_magic());
        lemma_first_byte_rules_out(b);
    }
}

proof fn lemma_first_byte_rules_out(b: Seq<u8>)
    requires
        b.len() > 0,
    ensures
        starts_with(b, pdf_magic()) ==> b[0] == 37,
        starts_with(b, png_magic()) ==> b[0] == 137,
        starts_with(b, jpeg_magic()) ==> b[0] == 255,
        starts_with(b, elf_magic()) ==> b[0] == 127,
{
    if starts_with(b, pdf_magic()) {
        assert(b.subrange(0, 5)[0] == b[0]);
    }
    if starts_with(b, png_magic()) {
        assert(b.subrange(0, 8)[0] == b[0]);
    }
    if starts_with(b, jpeg_magic()) {
        assert(b.subrange(0, 3)[0] == b[0]);
    }
    if starts_with(b, elf_magic()) {
        assert(b.subrange(0, 4)[0] == b[0]);
    }
}

} // verus!
