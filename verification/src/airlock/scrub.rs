//! Byte-level inspection and scrubbing of transferred artifacts.
use vstd::prelude::*;
use crate::airlock::markers::{
    exif_marker, exif_marker_bytes, jpeg_magic, jpeg_magic_bytes, png_prefix, png_prefix_bytes, idat_chunk, idat_chunk_bytes, iend_chunk, iend_chunk_bytes, ihdr_chunk, ihdr_chunk_bytes, plte_chunk, plte_chunk_bytes, png_magic, png_magic_bytes, cmd_exe_marker, cmd_exe_marker_bytes, entity_marker, entity_marker_bytes, etc_passwd_marker, etc_passwd_marker_bytes, etc_shadow_marker, etc_shadow_marker_bytes, file_url_marker, file_url_marker_bytes, gzip_marker, gzip_marker_bytes, http_url_marker, http_url_marker_bytes, https_url_marker, https_url_marker_bytes, javascript_marker, javascript_marker_bytes, js_marker, js_marker_bytes, macro_lower_marker, macro_lower_marker_bytes, macro_upper_marker, macro_upper_marker_bytes, module1_marker, module1_marker_bytes, open_action_marker, open_action_marker_bytes, parent_backslash_marker, parent_backslash_marker_bytes, parent_slash_marker, parent_slash_marker_bytes, pk_marker, pk_marker_bytes, powershell_marker, powershell_marker_bytes, public_marker, public_marker_bytes, root_dir_marker, root_dir_marker_bytes, system_marker, system_marker_bytes, this_document_marker, this_document_marker_bytes, ustar_marker, ustar_marker_bytes, vba_marker, vba_marker_bytes, windows_system32_marker, windows_system32_marker_bytes,
};

verus! {

/// `pat` occurs in `b` starting at position `at`.
pub open spec fn occurs_at(b: Seq<u8>, pat: Seq<u8>, at: int) -> bool {
    0 <= at && at + pat.len() <= b.len() && b.subrange(at, at + pat.len()) == pat
}

/// Whether `b` begins with `pat`.
pub open spec fn starts_with(b: Seq<u8>, pat: Seq<u8>) -> bool {
    occurs_at(b, pat, 0)
}

/// Exec check of `occurs_at`.
pub fn matches_at(b: &[u8], pat: &[u8], at: usize) -> (r: bool)
    ensures
        r == occurs_at(b@, pat@, at as int),
{
    if at > b.len() || pat.len() > b.len() - at {
        return false;
    }
    let n: usize = b.len();
    let mut k: usize = 0;
    while k < pat.len()
        invariant
            n == b@.len(),
            at + pat@.len() <= b@.len(),
            k <= pat@.len(),
            forall|j: int| 0 <= j < k ==> #[trigger] b@[at + j] == pat@[j],
        decreases pat@.len() - k,
    {
        if b[at + k] != pat[k] {
            proof {
                assert(b@.subrange(at as int, at + pat@.len())[k as int] != pat@[k as int]);
            }
            return false;
        }
        k = k + 1;
    }
    proof {
        assert forall|j: int| 0 <= j < pat@.len() implies #[trigger] b@.subrange(at as int, at + pat@.len())[j] == pat@[j] by {
            assert(b@[at + j] == pat@[j]);
        }
        assert(b@.subrange(at as int, at + pat@.len()) =~= pat@);
    }
    true
}

/// Appends `b[from..to]` to `out`.
pub fn append_range(out: &mut Vec<u8>, b: &[u8], from: usize, to: usize)
    requires
        from <= to <= b@.len(),
    ensures
        final(out)@ == old(out)@ + b@.subrange(from as int, to as int),
{
    let mut i: usize = from;
    while i < to
        invariant
            from <= i <= to,
            to <= b@.len(),
            out@ == old(out)@ + b@.subrange(from as int, i as int),
        decreases to - i,
    {
        out.push(b[i]);
        i = i + 1;
        proof {
            assert(b@.subrange(from as int, i as int) =~= b@.subrange(from as int, i - 1).push(b@[i - 1]));
        }
    }
}

/// A fresh copy of `b`.
pub fn copy_bytes(b: &[u8]) -> (r: Vec<u8>)
    ensures
        r@ == b@,
{
    let mut out: Vec<u8> = Vec::new();
    append_range(&mut out, b, 0, b.len());
    proof { assert(b@.subrange(0, b@.len() as int) =~= b@); }
    out
}

/// What `strip_pattern` leaves of `b`: scanning from the front, every
/// occurrence of `pat` found is dropped and every other byte is kept.
pub open spec fn strip_from(b: Seq<u8>, pat: Seq<u8>) -> Seq<u8>
    decreases b.len(),
{
    if b.len() == 0 {
        Seq::empty()
    } else if pat.len() > 0 && starts_with(b, pat) {
        strip_from(b.skip(pat.len() as int), pat)
    } else {
        seq![b[0]] + strip_from(b.skip(1), pat)
    }
}

/// `b` with the occurrences of `pat` removed; unchanged for an empty pattern.
pub open spec fn stripped(b: Seq<u8>, pat: Seq<u8>) -> Seq<u8> {
    if pat.len() == 0 {
        b
    } else {
        strip_from(b, pat)
    }
}

proof fn lemma_strip_from_len(b: Seq<u8>, pat: Seq<u8>)
    ensures
        strip_from(b, pat).len() <= b.len(),
    decreases b.len(),
{
    if b.len() == 0 {
    } else if pat.len() > 0 && starts_with(b, pat) {
        lemma_strip_from_len(b.skip(pat.len() as int), pat);
    } else {
        lemma_strip_from_len(b.skip(1), pat);
    }
}

/// Removes every occurrence of `pat` met while scanning `bytes` from the front.
pub fn strip_pattern(bytes: &[u8], pat: &[u8]) -> (r: Vec<u8>)
    ensures
        r@ == stripped(bytes@, pat@),
        r@.len() <= bytes@.len(),
{
    if pat.len() == 0 || bytes.len() == 0 {
        proof {
            if pat@.len() != 0 {
                assert(strip_from(bytes@, pat@) == Seq::<u8>::empty());
            }
        }
        return copy_bytes(bytes);
    }
    let n: usize = bytes.len();
    let mut out: Vec<u8> = Vec::with_capacity(n);
    let mut i: usize = 0;
    proof { assert(bytes@.skip(0) =~= bytes@); }
    while i < n
        invariant
            n == bytes@.len(),
            pat@.len() > 0,
            i <= n,
            out@ + strip_from(bytes@.skip(i as int), pat@) == strip_from(bytes@, pat@),
        decreases n - i,
    {
        let ghost rest = bytes@.skip(i as int);
        if matches_at(bytes, pat, i) {
            proof {
                assert(rest.subrange(0, pat@.len() as int) =~= bytes@.subrange(i as int, i + pat@.len()));
                assert(rest.skip(pat@.len() as int) =~= bytes@.skip(i + pat@.len()));
            }
            i = i + pat.len();
        } else {
            proof {
                if starts_with(rest, pat@) {
                    assert(rest.subrange(0, pat@.len() as int) =~= bytes@.subrange(i as int, i + pat@.len()));
                }
                assert(rest.skip(1) =~= bytes@.skip(i + 1));
                assert(out@.push(bytes@[i as int]) + strip_from(bytes@.skip(i + 1), pat@)
                    =~= out@ + (seq![rest[0]] + strip_from(rest.skip(1), pat@)));
            }
            out.push(bytes[i]);
            i = i + 1;
        }
    }
    proof {
        assert(bytes@.skip(n as int) =~= Seq::<u8>::empty());
        assert(out@ =~= strip_from(bytes@, pat@));
        lemma_strip_from_len(bytes@, pat@);
    }
    out
}

/// `m` occurs somewhere in `b`.
pub open spec fn contains_seq(b: Seq<u8>, m: Seq<u8>) -> bool {
    exists|i: int| #[trigger] occurs_at(b, m, i)
}

/// Whether `m` occurs somewhere in `b`.
pub fn contains_bytes(b: &[u8], m: &[u8]) -> (r: bool)
    ensures
        r == contains_seq(b@, m@),
{
    if m.len() > b.len() {
        return false;
    }
    if m.len() == 0 {
        proof {
            assert(b@.subrange(0, 0) =~= m@);
            assert(occurs_at(b@, m@, 0));
        }
        return true;
    }
    let n: usize = b.len();
    let last: usize = n - m.len();
    let mut i: usize = 0;
    while i <= last
        invariant
            n == b@.len(),
            m@.len() >= 1,
            last + m@.len() == b@.len(),
            i <= last + 1,
            forall|j: int| 0 <= j < i ==> !#[trigger] occurs_at(b@, m@, j),
        decreases last + 1 - i,
    {
        if matches_at(b, m, i) {
            return true;
        }
        i = i + 1;
    }
    proof {
        assert forall|j: int| !#[trigger] occurs_at(b@, m@, j) by {
            if 0 <= j && j + m@.len() <= b@.len() {
                assert(j < i);
            }
        }
    }
    false
}

/// The number of positions of `b` at which `m` starts.
pub open spec fn occurrences(b: Seq<u8>, m: Seq<u8>) -> nat
    decreases b.len(),
{
    if b.len() == 0 {
        0
    } else {
        (if starts_with(b, m) { 1nat } else { 0nat }) + occurrences(b.skip(1), m)
    }
}

/// Counts the positions of `b` at which `m` starts.
pub fn count_occurrences(b: &[u8], m: &[u8]) -> (r: usize)
    ensures
        r == occurrences(b@, m@),
{
    let n: usize = b.len();
    let mut i: usize = n;
    let mut count: usize = 0;
    proof { assert(b@.skip(n as int) =~= Seq::<u8>::empty()); }
    while i > 0
        invariant
            n == b@.len(),
            i <= n,
            count == occurrences(b@.skip(i as int), m@),
            count <= n - i,
        decreases i,
    {
        i = i - 1;
        let ghost rest = b@.skip(i as int);
        proof {
            assert(rest.skip(1) =~= b@.skip(i + 1));
            if starts_with(rest, m@) {
                assert(rest.subrange(0, m@.len() as int) =~= b@.subrange(i as int, i + m@.len()));
            }
            if occurs_at(b@, m@, i as int) {
                assert(rest.subrange(0, m@.len() as int) =~= b@.subrange(i as int, i + m@.len()));
            }
        }
        if matches_at(b, m, i) {
            count = count + 1;
        }
    }
    proof { assert(b@.skip(0) =~= b@); }
    count
}

/// `bytes` holds one of the markers of Office macro code.
pub open spec fn has_macro_markers(b: Seq<u8>) -> bool {
    b.len() > 0 && (contains_seq(b, vba_marker()) || contains_seq(b, macro_upper_marker())
        || contains_seq(b, macro_lower_marker()) || contains_seq(b, module1_marker())
        || contains_seq(b, this_document_marker()))
}

/// Whether `bytes` holds one of the markers of Office macro code.
pub fn contains_macro_markers(bytes: &[u8]) -> (r: bool)
    ensures
        r == has_macro_markers(bytes@),
{
    if bytes.len() == 0 {
        return false;
    }
    contains_bytes(bytes, vba_marker_bytes().as_slice())
        || contains_bytes(bytes, macro_upper_marker_bytes().as_slice())
        || contains_bytes(bytes, macro_lower_marker_bytes().as_slice())
        || contains_bytes(bytes, module1_marker_bytes().as_slice())
        || contains_bytes(bytes, this_document_marker_bytes().as_slice())
}

/// How many of the three archive signatures (ZIP, GZIP, TAR) occur in `b`.
pub open spec fn archive_signature_kinds(b: Seq<u8>) -> nat {
    (if contains_seq(b, pk_marker()) { 1nat } else { 0nat })
        + (if contains_seq(b, gzip_marker()) { 1nat } else { 0nat })
        + (if contains_seq(b, ustar_marker()) { 1nat } else { 0nat })
}

/// `b` looks like an archive nested in an archive: two different archive
/// signatures occur, or the ZIP signature occurs twice.
pub open spec fn nested_archive(b: Seq<u8>) -> bool {
    b.len() > 0 && (archive_signature_kinds(b) > 1 || occurrences(b, pk_marker()) > 1)
}

/// Whether `bytes` looks like an archive nested in an archive.
pub fn is_nested_archive(bytes: &[u8]) -> (r: bool)
    ensures
        r == nested_archive(bytes@),
{
    if bytes.len() == 0 {
        return false;
    }
    let pk = pk_marker_bytes();
    let mut found: u8 = 0;
    if contains_bytes(bytes, pk.as_slice()) {
        found = found + 1;
    }
    if contains_bytes(bytes, gzip_marker_bytes().as_slice()) {
        found = found + 1;
    }
    if contains_bytes(bytes, ustar_marker_bytes().as_slice()) {
        found = found + 1;
    }
    found > 1 || count_occurrences(bytes, pk.as_slice()) > 1
}

/// `b` mentions a path or program that has no business inside an archive.
pub open spec fn has_suspicious_paths(b: Seq<u8>) -> bool {
    b.len() > 0 && (contains_seq(b, etc_passwd_marker()) || contains_seq(b, etc_shadow_marker())
        || contains_seq(b, root_dir_marker()) || contains_seq(b, parent_slash_marker())
        || contains_seq(b, parent_backslash_marker()) || contains_seq(b, windows_system32_marker())
        || contains_seq(b, cmd_exe_marker()) || contains_seq(b, powershell_marker()))
}

/// Whether `bytes` mentions a suspicious path or program.
pub fn contains_suspicious_paths(bytes: &[u8]) -> (r: bool)
    ensures
        r == has_suspicious_paths(bytes@),
{
    if bytes.len() == 0 {
        return false;
    }
    contains_bytes(bytes, etc_passwd_marker_bytes().as_slice())
        || contains_bytes(bytes, etc_shadow_marker_bytes().as_slice())
        || contains_bytes(bytes, root_dir_marker_bytes().as_slice())
        || contains_bytes(bytes, parent_slash_marker_bytes().as_slice())
        || contains_bytes(bytes, parent_backslash_marker_bytes().as_slice())
        || contains_bytes(bytes, windows_system32_marker_bytes().as_slice())
        || contains_bytes(bytes, cmd_exe_marker_bytes().as_slice())
        || contains_bytes(bytes, powershell_marker_bytes().as_slice())
}

/// `b` with the macro markers VBA, Macro and macro removed, in that order.
pub open spec fn macro_stripped(b: Seq<u8>) -> Seq<u8> {
    if b.len() == 0 {
        b
    } else {
        stripped(stripped(stripped(b, vba_marker()), macro_upper_marker()), macro_lower_marker())
    }
}

/// Removes the Office macro markers from `bytes`.
pub fn strip_macro_markers(bytes: &[u8]) -> (r: Vec<u8>)
    ensures
        r@ == macro_stripped(bytes@),
{
    if bytes.len() == 0 {
        return Vec::new();
    }
    let a = strip_pattern(bytes, vba_marker_bytes().as_slice());
    let b = strip_pattern(a.as_slice(), macro_upper_marker_bytes().as_slice());
    strip_pattern(b.as_slice(), macro_lower_marker_bytes().as_slice())
}

/// `b` with the XML external-reference markers removed, one after another.
pub open spec fn xml_refs_stripped(b: Seq<u8>) -> Seq<u8> {
    if b.len() == 0 {
        b
    } else {
        stripped(stripped(stripped(stripped(stripped(stripped(b, entity_marker()),
            system_marker()), public_marker()), file_url_marker()), http_url_marker()),
            https_url_marker())
    }
}

/// Removes XML entity declarations and external references from `bytes`.
pub fn strip_xml_external_refs(bytes: &[u8]) -> (r: Vec<u8>)
    ensures
        r@ == xml_refs_stripped(bytes@),
{
    if bytes.len() == 0 {
        return Vec::new();
    }
    let a = strip_pattern(bytes, entity_marker_bytes().as_slice());
    let b = strip_pattern(a.as_slice(), system_marker_bytes().as_slice());
    let c = strip_pattern(b.as_slice(), public_marker_bytes().as_slice());
    let d = strip_pattern(c.as_slice(), file_url_marker_bytes().as_slice());
    let e = strip_pattern(d.as_slice(), http_url_marker_bytes().as_slice());
    strip_pattern(e.as_slice(), https_url_marker_bytes().as_slice())
}

/// `b` with the active-content markers of PDF documents removed.
pub open spec fn flattened(b: Seq<u8>) -> Seq<u8> {
    if b.len() == 0 {
        b
    } else {
        stripped(stripped(stripped(b, javascript_marker()), js_marker()), open_action_marker())
    }
}

/// Removes the JavaScript and open-action markers of PDF documents from `bytes`.
pub fn flatten_document_payload(bytes: &[u8]) -> (r: Vec<u8>)
    ensures
        r@ == flattened(bytes@),
{
    if bytes.len() == 0 {
        return Vec::new();
    }
    let a = strip_pattern(bytes, javascript_marker_bytes().as_slice());
    let b = strip_pattern(a.as_slice(), js_marker_bytes().as_slice());
    strip_pattern(b.as_slice(), open_action_marker_bytes().as_slice())
}

/// A big-endian 16-bit length.
pub open spec fn be16(hi: u8, lo: u8) -> nat {
    hi as nat * 256 + lo as nat
}

/// A big-endian 32-bit length.
pub open spec fn be32(a: u8, b: u8, c: u8, d: u8) -> nat {
    a as nat * 16777216 + b as nat * 65536 + c as nat * 256 + d as nat
}

/// The smaller of two indices.
pub open spec fn min_index(a: int, b: int) -> int {
    if a < b { a } else { b }
}

/// The distance from `i` to the end of `b`, zero past it.
pub open spec fn remaining(b: Seq<u8>, i: int) -> int {
    if i < b.len() { b.len() - i } else { 0 }
}

/// A JPEG marker whose segment carries metadata (APP1 to APP15).
pub open spec fn is_metadata_app_marker(marker: u8) -> bool {
    0xe1 <= marker <= 0xef
}

/// A JPEG marker that stands alone, without a length field.
pub open spec fn is_standalone_marker(marker: u8) -> bool {
    marker == 0xd8 || marker == 0xd9 || marker == 0x01
}

/// What the JPEG segment walk keeps of `b` from position `i` on: standalone
/// markers and ordinary segments are copied, APP1..APP15 segments dropped,
/// and anything that is not a marker (or a truncated segment) ends the walk
/// with the rest of the bytes copied as they are.
pub open spec fn jpeg_segments(b: Seq<u8>, i: int) -> Seq<u8>
    decreases remaining(b, i),
{
    let n = b.len() as int;
    if i < 0 || i + 1 >= n {
        Seq::empty()
    } else if b[i] != 0xff {
        b.subrange(i, n)
    } else if is_standalone_marker(b[i + 1]) {
        b.subrange(i, i + 2) + jpeg_segments(b, i + 2)
    } else if i + 4 <= n {
        let end = min_index(i + 2 + be16(b[i + 2], b[i + 3]), n);
        if is_metadata_app_marker(b[i + 1]) {
            jpeg_segments(b, end)
        } else {
            b.subrange(i, end) + jpeg_segments(b, end)
        }
    } else {
        b.subrange(i, n)
    }
}

/// The bytes begin with a JPEG start-of-image marker.
pub open spec fn has_soi(b: Seq<u8>) -> bool {
    b.len() >= 2 && b[0] == 0xff && b[1] == 0xd8
}

/// `b` with its JPEG metadata segments removed.
pub open spec fn jpeg_stripped(b: Seq<u8>) -> Seq<u8> {
    if has_soi(b) {
        b.subrange(0, 2) + jpeg_segments(b, 2)
    } else {
        jpeg_segments(b, 0)
    }
}

/// What the segment walk keeps from position `i` on is never longer than
/// what is left of the bytes there.
proof fn lemma_jpeg_segments_shorter(b: Seq<u8>, i: int)
    ensures
        jpeg_segments(b, i).len() <= remaining(b, i),
    decreases remaining(b, i),
{
    let n = b.len() as int;
    if i < 0 || i + 1 >= n {
    } else if b[i] != 0xff {
    } else if is_standalone_marker(b[i + 1]) {
        lemma_jpeg_segments_shorter(b, i + 2);
    } else if i + 4 <= n {
        let end = min_index(i + 2 + be16(b[i + 2], b[i + 3]), n);
        lemma_jpeg_segments_shorter(b, end);
    }
}

/// `small` can be read off `big` from left to right, skipping bytes.
pub open spec fn is_subsequence(small: Seq<u8>, big: Seq<u8>) -> bool
    decreases big.len(),
{
    if small.len() == 0 {
        true
    } else if big.len() == 0 {
        false
    } else {
        (small[0] == big[0] && is_subsequence(small.drop_first(), big.drop_first()))
            || is_subsequence(small, big.drop_first())
    }
}

proof fn lemma_subsequence_of_itself(s: Seq<u8>)
    ensures
        is_subsequence(s, s),
    decreases s.len(),
{
    if s.len() > 0 {
        lemma_subsequence_of_itself(s.drop_first());
    }
}

proof fn lemma_subsequence_skips_prefix(s: Seq<u8>, p: Seq<u8>, big: Seq<u8>)
    requires
        is_subsequence(s, big),
    ensures
        is_subsequence(s, p + big),
    decreases p.len(),
{
    if s.len() > 0 && p.len() > 0 {
        assert((p + big).drop_first() =~= p.drop_first() + big);
        lemma_subsequence_skips_prefix(s, p.drop_first(), big);
    }
}

proof fn lemma_subsequence_shared_prefix(p: Seq<u8>, a: Seq<u8>, x: Seq<u8>)
    requires
        is_subsequence(a, x),
    ensures
        is_subsequence(p + a, p + x),
    decreases p.len(),
{
    if p.len() > 0 {
        assert((p + a).drop_first() =~= p.drop_first() + a);
        assert((p + x).drop_first() =~= p.drop_first() + x);
        assert((p + a)[0] == (p + x)[0]);
        lemma_subsequence_shared_prefix(p.drop_first(), a, x);
    } else {
        assert(p + a =~= a);
        assert(p + x =~= x);
    }
}

/// What the segment walk keeps from position `i` on can be read off the
/// bytes from `i` on, in order.
proof fn lemma_jpeg_segments_in_order(b: Seq<u8>, i: int)
    requires
        0 <= i <= b.len(),
    ensures
        is_subsequence(jpeg_segments(b, i), b.subrange(i, b.len() as int)),
    decreases remaining(b, i),
{
    let n = b.len() as int;
    if i + 1 >= n {
    } else if b[i] != 0xff {
        lemma_subsequence_of_itself(b.subrange(i, n));
    } else if is_standalone_marker(b[i + 1]) {
        lemma_jpeg_segments_in_order(b, i + 2);
        lemma_subsequence_shared_prefix(b.subrange(i, i + 2), jpeg_segments(b, i + 2), b.subrange(i + 2, n));
        assert(b.subrange(i, i + 2) + b.subrange(i + 2, n) =~= b.subrange(i, n));
    } else if i + 4 <= n {
        let end = min_index(i + 2 + be16(b[i + 2], b[i + 3]), n);
        lemma_jpeg_segments_in_order(b, end);
        assert(b.subrange(i, end) + b.subrange(end, n) =~= b.subrange(i, n));
        if is_metadata_app_marker(b[i + 1]) {
            lemma_subsequence_skips_prefix(jpeg_segments(b, end), b.subrange(i, end), b.subrange(end, n));
        } else {
            lemma_subsequence_shared_prefix(b.subrange(i, end), jpeg_segments(b, end), b.subrange(end, n));
        }
    } else {
        lemma_subsequence_of_itself(b.subrange(i, n));
    }
}

/// Stripping a JPEG only drops bytes: what is left can be read off the
/// image in order, is never longer, and keeps the start-of-image marker in
/// front.
pub proof fn lemma_jpeg_strip_shrinks(b: Seq<u8>)
    ensures
        is_subsequence(jpeg_stripped(b), b),
        jpeg_stripped(b).len() <= b.len(),
        has_soi(b) ==> has_soi(jpeg_stripped(b)) && jpeg_stripped(b).subrange(0, 2) == b.subrange(0, 2),
{
    let n = b.len() as int;
    if has_soi(b) {
        lemma_jpeg_segments_shorter(b, 2);
        assert((b.subrange(0, 2) + jpeg_segments(b, 2)).subrange(0, 2) =~= b.subrange(0, 2));
        lemma_jpeg_segments_in_order(b, 2);
        lemma_subsequence_shared_prefix(b.subrange(0, 2), jpeg_segments(b, 2), b.subrange(2, n));
        assert(b.subrange(0, 2) + b.subrange(2, n) =~= b);
    } else {
        lemma_jpeg_segments_shorter(b, 0);
        lemma_jpeg_segments_in_order(b, 0);
        assert(b.subrange(0, n) =~= b);
    }
}

/// Removes the EXIF (APP1) and other APPn metadata segments from a JPEG image.
pub fn strip_jpeg_exif(bytes: &[u8]) -> (r: Vec<u8>)
    ensures
        r@ == jpeg_stripped(bytes@),
{
    let n: usize = bytes.len();
    let mut out: Vec<u8> = Vec::with_capacity(n);
    let mut index: usize = 0;
    if n >= 2 && bytes[0] == 0xff && bytes[1] == 0xd8 {
        append_range(&mut out, bytes, 0, 2);
        index = 2;
    }
    while n - index > 1
        invariant
            n == bytes@.len(),
            index <= n,
            out@ + jpeg_segments(bytes@, index as int) == jpeg_stripped(bytes@),
        decreases n - index,
    {
        if bytes[index] != 0xff {
            append_range(&mut out, bytes, index, n);
            proof {
                assert(out@ =~= jpeg_stripped(bytes@));
            }
            return out;
        }
        let marker: u8 = bytes[index + 1];
        if marker == 0xd8 || marker == 0xd9 || marker == 0x01 {
            append_range(&mut out, bytes, index, index + 2);
            index = index + 2;
            continue;
        }
        if n - index >= 4 {
            let seg_len: usize = bytes[index + 2] as usize * 256 + bytes[index + 3] as usize;
            let end: usize = if seg_len > n - index - 2 { n } else { index + 2 + seg_len };
            if 0xe1 <= marker && marker <= 0xef {
                index = end;
                continue;
            }
            append_range(&mut out, bytes, index, end);
            index = end;
        } else {
            append_range(&mut out, bytes, index, n);
            proof {
                assert(out@ =~= jpeg_stripped(bytes@));
            }
            return out;
        }
    }
    proof {
        assert(jpeg_segments(bytes@, index as int) == Seq::<u8>::empty());
        assert(out@ =~= jpeg_stripped(bytes@));
    }
    out
}

/// The four chunk types a PNG image keeps: IHDR, IDAT, IEND and PLTE.
pub open spec fn is_kept_chunk(t: Seq<u8>) -> bool {
    t == ihdr_chunk() || t == idat_chunk() || t == iend_chunk() || t == plte_chunk()
}

/// What the PNG chunk walk keeps of `b` from position `i` on: critical chunks
/// are copied, ancillary chunks dropped, and a truncated chunk (or fewer than
/// eight bytes) ends the walk with the rest copied as it is.
pub open spec fn png_chunks(b: Seq<u8>, i: int) -> Seq<u8>
    decreases remaining(b, i),
{
    let n = b.len() as int;
    if i < 0 || i > n {
        Seq::empty()
    } else if i + 8 > n {
        b.subrange(i, n)
    } else {
        let end = i + 12 + be32(b[i], b[i + 1], b[i + 2], b[i + 3]);
        if end > n {
            b.subrange(i, n)
        } else {
            (if is_kept_chunk(b.subrange(i + 4, i + 8)) {
                b.subrange(i, end)
            } else {
                Seq::empty()
            }) + png_chunks(b, end)
        }
    }
}

/// `b` with its ancillary PNG chunks removed.
pub open spec fn png_stripped(b: Seq<u8>) -> Seq<u8> {
    if starts_with(b, png_magic()) {
        b.subrange(0, 8) + png_chunks(b, 8)
    } else {
        png_chunks(b, 0)
    }
}

/// Removes the ancillary chunks (text, EXIF and the like) from a PNG image.
pub fn strip_png_chunks(bytes: &[u8]) -> (r: Vec<u8>)
    ensures
        r@ == png_stripped(bytes@),
{
    let n: usize = bytes.len();
    let mut out: Vec<u8> = Vec::with_capacity(n);
    let mut index: usize = 0;
    let magic = png_magic_bytes();
    if n >= 8 && matches_at(bytes, magic.as_slice(), 0) {
        append_range(&mut out, bytes, 0, 8);
        index = 8;
    }
    let ihdr = ihdr_chunk_bytes();
    let idat = idat_chunk_bytes();
    let iend = iend_chunk_bytes();
    let plte = plte_chunk_bytes();
    while n - index >= 8
        invariant
            n == bytes@.len(),
            index <= n,
            ihdr@ == ihdr_chunk(),
            idat@ == idat_chunk(),
            iend@ == iend_chunk(),
            plte@ == plte_chunk(),
            out@ + png_chunks(bytes@, index as int) == png_stripped(bytes@),
        ensures
            index <= n,
            out@ + png_chunks(bytes@, index as int) == png_stripped(bytes@),
            png_chunks(bytes@, index as int) == bytes@.subrange(index as int, n as int),
        decreases n - index,
    {
        let length: u64 = bytes[index] as u64 * 16777216 + bytes[index + 1] as u64 * 65536
            + bytes[index + 2] as u64 * 256 + bytes[index + 3] as u64;
        if n - index < 12 || length > (n - index - 12) as u64 {
            break;
        }
        let end: usize = index + 12 + length as usize;
        let keep = matches_at(bytes, ihdr.as_slice(), index + 4) || matches_at(bytes, idat.as_slice(), index + 4)
            || matches_at(bytes, iend.as_slice(), index + 4) || matches_at(bytes, plte.as_slice(), index + 4);
        proof {
            let t = bytes@.subrange(index + 4, index + 8);
            assert(keep == is_kept_chunk(t)) by {
                assert(ihdr_chunk().len() == 4);
                assert(idat_chunk().len() == 4);
                assert(iend_chunk().len() == 4);
                assert(plte_chunk().len() == 4);
            }
        }
        if keep {
            append_range(&mut out, bytes, index, end);
        }
        proof {
            if !keep {
                assert(out@ + png_chunks(bytes@, end as int) =~= out@ + (Seq::<u8>::empty() + png_chunks(bytes@, end as int)));
            }
        }
        index = end;
    }
    append_range(&mut out, bytes, index, n);
    proof {
        assert(out@ =~= png_stripped(bytes@));
    }
    out
}

/// What the generic EXIF scan keeps of `b` from position `i` on: every
/// "EXIF" marker is dropped together with its two-byte big-endian length and
/// that many following bytes; all other bytes are kept.
pub open spec fn exif_scan(b: Seq<u8>, i: int) -> Seq<u8>
    decreases remaining(b, i),
{
    let n = b.len() as int;
    if i < 0 || i >= n {
        Seq::empty()
    } else if occurs_at(b, exif_marker(), i) {
        let j = i + 4;
        if j + 2 <= n {
            exif_scan(b, min_index(j + 2 + be16(b[j], b[j + 1]), n))
        } else {
            exif_scan(b, j)
        }
    } else {
        seq![b[i]] + exif_scan(b, i + 1)
    }
}

/// `b` with its image metadata removed: JPEG and PNG images get a structural
/// walk, everything else the generic EXIF scan.
pub open spec fn metadata_stripped(b: Seq<u8>) -> Seq<u8> {
    if b.len() == 0 {
        b
    } else if starts_with(b, jpeg_magic()) {
        jpeg_stripped(b)
    } else if starts_with(b, png_prefix()) {
        png_stripped(b)
    } else {
        exif_scan(b, 0)
    }
}

/// Removes image metadata (EXIF, APPn segments, ancillary PNG chunks) from `bytes`.
pub fn strip_metadata_markers(bytes: &[u8]) -> (r: Vec<u8>)
    ensures
        r@ == metadata_stripped(bytes@),
{
    let n: usize = bytes.len();
    if n == 0 {
        return Vec::new();
    }
    if matches_at(bytes, jpeg_magic_bytes().as_slice(), 0) {
        return strip_jpeg_exif(bytes);
    }
    if matches_at(bytes, png_prefix_bytes().as_slice(), 0) {
        return strip_png_chunks(bytes);
    }
    let marker = exif_marker_bytes();
    let mut out: Vec<u8> = Vec::with_capacity(n);
    let mut index: usize = 0;
    while index < n
        invariant
            n == bytes@.len(),
            index <= n,
            marker@ == exif_marker(),
            out@ + exif_scan(bytes@, index as int) == exif_scan(bytes@, 0),
        decreases n - index,
    {
        if matches_at(bytes, marker.as_slice(), index) {
            index = index + 4;
            if n - index >= 2 {
                let exif_len: usize = bytes[index] as usize * 256 + bytes[index + 1] as usize;
                index = if exif_len > n - index - 2 { n } else { index + 2 + exif_len };
            }
            continue;
        }
        out.push(bytes[index]);
        index = index + 1;
    }
    proof {
        assert(out@ =~= exif_scan(bytes@, 0));
    }
    out
}

proof fn lemma_jpeg_segments_len(b: Seq<u8>, i: int)
    ensures
        jpeg_segments(b, i).len() <= remaining(b, i),
    decreases remaining(b, i),
{
    let n = b.len() as int;
    if i < 0 || i + 1 >= n {
    } else if b[i] != 0xff {
    } else if is_standalone_marker(b[i + 1]) {
        lemma_jpeg_segments_len(b, i + 2);
    } else if i + 4 <= n {
        let end = min_index(i + 2 + be16(b[i + 2], b[i + 3]), n);
        lemma_jpeg_segments_len(b, end);
    }
}

proof fn lemma_png_chunks_len(b: Seq<u8>, i: int)
    ensures
        png_chunks(b, i).len() <= remaining(b, i),
    decreases remaining(b, i),
{
    let n = b.len() as int;
    if i < 0 || i > n {
    } else if i + 8 > n {
    } else {
        let end = i + 12 + be32(b[i], b[i + 1], b[i + 2], b[i + 3]);
        if end <= n {
            lemma_png_chunks_len(b, end);
        }
    }
}

proof fn lemma_exif_scan_len(b: Seq<u8>, i: int)
    ensures
        exif_scan(b, i).len() <= remaining(b, i),
    decreases remaining(b, i),
{
    let n = b.len() as int;
    if i < 0 || i >= n {
    } else if occurs_at(b, exif_marker(), i) {
        let j = i + 4;
        if j + 2 <= n {
            lemma_exif_scan_len(b, min_index(j + 2 + be16(b[j], b[j + 1]), n));
        } else {
            lemma_exif_scan_len(b, j);
        }
    } else {
        lemma_exif_scan_len(b, i + 1);
    }
}

/// Scrubbing only ever removes bytes: JPEG, PNG and generic metadata
/// stripping, and the removal of a byte pattern, never make content longer.
pub proof fn lemma_scrubbing_never_grows(b: Seq<u8>, pat: Seq<u8>)
    ensures
        jpeg_stripped(b).len() <= b.len(),
        png_stripped(b).len() <= b.len(),
        metadata_stripped(b).len() <= b.len(),
        stripped(b, pat).len() <= b.len(),
{
    lemma_jpeg_segments_len(b, 2);
    lemma_jpeg_segments_len(b, 0);
    lemma_png_chunks_len(b, 8);
    lemma_png_chunks_len(b, 0);
    lemma_exif_scan_len(b, 0);
    lemma_strip_from_len(b, pat);
}

/// One PNG chunk as it is laid out: four length bytes (big-endian, the
/// length of the data), four type bytes, the data and four CRC bytes.
pub struct PngChunk {
    pub length: Seq<u8>,
    pub kind: Seq<u8>,
    pub data: Seq<u8>,
    pub crc: Seq<u8>,
}

/// The chunk is laid out as its length field says.
pub open spec fn well_formed_chunk(c: PngChunk) -> bool {
    &&& c.length.len() == 4
    &&& c.kind.len() == 4
    &&& c.crc.len() == 4
    &&& c.length[0] as nat * 16777216 + c.length[1] as nat * 65536 + c.length[2] as nat * 256 + c.length[3] as nat
        == c.data.len()
}

/// The bytes of a chunk.
pub open spec fn chunk_bytes(c: PngChunk) -> Seq<u8> {
    c.length + c.kind + c.data + c.crc
}

/// The bytes of a list of chunks, one after another.
pub open spec fn chunks_bytes(cs: Seq<PngChunk>) -> Seq<u8>
    decreases cs.len(),
{
    if cs.len() == 0 {
        Seq::empty()
    } else {
        chunk_bytes(cs[0]) + chunks_bytes(cs.drop_first())
    }
}

/// A critical chunk a PNG cannot be shown without: header (IHDR), palette
/// (PLTE), image data (IDAT) or end (IEND).
pub open spec fn critical_kind(kind: Seq<u8>) -> bool {
    kind == seq![73u8, 72, 68, 82] || kind == seq![80u8, 76, 84, 69] || kind == seq![73u8, 68, 65, 84]
        || kind == seq![73u8, 69, 78, 68]
}

/// The critical chunks of a list, in their order.
pub open spec fn critical_chunks(cs: Seq<PngChunk>) -> Seq<PngChunk>
    decreases cs.len(),
{
    if cs.len() == 0 {
        Seq::empty()
    } else if critical_kind(cs[0].kind) {
        seq![cs[0]] + critical_chunks(cs.drop_first())
    } else {
        critical_chunks(cs.drop_first())
    }
}

proof fn lemma_png_walk_over_chunks(pre: Seq<u8>, cs: Seq<PngChunk>)
    requires
        forall|j: int| 0 <= j < cs.len() ==> well_formed_chunk(#[trigger] cs[j]),
    ensures
        png_chunks(pre + chunks_bytes(cs), pre.len() as int) == chunks_bytes(critical_chunks(cs)),
    decreases cs.len(),
{
    let b = pre + chunks_bytes(cs);
    let i = pre.len() as int;
    if cs.len() == 0 {
        assert(b =~= pre);
        assert(b.subrange(i, i) =~= Seq::<u8>::empty());
    } else {
        let c = cs[0];
        let rest = cs.drop_first();
        assert(well_formed_chunk(c));
        assert forall|j: int| 0 <= j < rest.len() implies well_formed_chunk(#[trigger] rest[j]) by {
            assert(rest[j] == cs[j + 1]);
        }
        let pre2 = pre + chunk_bytes(c);
        assert(b =~= pre2 + chunks_bytes(rest));
        let cb = chunk_bytes(c);
        assert(cb.len() == 12 + c.data.len());
        assert(b[i] == c.length[0] && b[i + 1] == c.length[1] && b[i + 2] == c.length[2] && b[i + 3] == c.length[3]);
        let end = i + 12 + be32(b[i], b[i + 1], b[i + 2], b[i + 3]);
        assert(end == pre2.len());
        assert(b.subrange(i + 4, i + 8) =~= c.kind);
        assert(b.subrange(i, end) =~= cb);
        lemma_png_walk_over_chunks(pre2, rest);
        assert(is_kept_chunk(c.kind) == critical_kind(c.kind));
        if critical_kind(c.kind) {
            assert(critical_chunks(cs) == seq![c] + critical_chunks(rest));
            assert((seq![c] + critical_chunks(rest))[0] == c);
            assert((seq![c] + critical_chunks(rest)).drop_first() =~= critical_chunks(rest));
        }
    }
}

/// Stripping a PNG made of well-formed chunks keeps its signature and
/// exactly its critical chunks (IHDR, PLTE, IDAT, IEND), unchanged and in
/// their order; every ancillary chunk (text, EXIF, time and the like) is
/// removed.
pub proof fn lemma_png_keeps_critical_chunks(cs: Seq<PngChunk>)
    requires
        forall|j: int| 0 <= j < cs.len() ==> well_formed_chunk(#[trigger] cs[j]),
    ensures
        png_stripped(seq![137u8, 80, 78, 71, 13, 10, 26, 10] + chunks_bytes(cs))
            == seq![137u8, 80, 78, 71, 13, 10, 26, 10] + chunks_bytes(critical_chunks(cs)),
        metadata_stripped(seq![137u8, 80, 78, 71, 13, 10, 26, 10] + chunks_bytes(cs))
            == seq![137u8, 80, 78, 71, 13, 10, 26, 10] + chunks_bytes(critical_chunks(cs)),
{
    let sig = seq![137u8, 80, 78, 71, 13, 10, 26, 10];
    let b = sig + chunks_bytes(cs);
    assert(b.subrange(0, 8) =~= sig);
    assert(b.subrange(0, 4) =~= png_prefix());
    assert(!starts_with(b, jpeg_magic())) by {
        if starts_with(b, jpeg_magic()) {
            assert(b.subrange(0, 3)[0] == b[0]);
        }
    }
    lemma_png_walk_over_chunks(sig, cs);
}

} // verus!
