//! Byte signatures and markers recognised by the airlock scanners.
use vstd::prelude::*;

verus! {

/// The bytes 'EXIF'.
pub open spec fn exif_marker() -> Seq<u8> {
    seq![69u8, 88, 73, 70]
}

/// The bytes 'EXIF', as a vector.
pub fn exif_marker_bytes() -> (r: Vec<u8>)
    ensures
        r@ == exif_marker(),
{
    vec![69u8, 88, 73, 70]
}

/// The bytes 'VBA'.
pub open spec fn vba_marker() -> Seq<u8> {
    seq![86u8, 66, 65]
}

/// The bytes 'VBA', as a vector.
pub fn vba_marker_bytes() -> (r: Vec<u8>)
    ensures
        r@ == vba_marker(),
{
    vec![86u8, 66, 65]
}

/// The bytes 'Macro'.
pub open spec fn macro_upper_marker() -> Seq<u8> {
    seq![77u8, 97, 99, 114, 111]
}

/// The bytes 'Macro', as a vector.
pub fn macro_upper_marker_bytes() -> (r: Vec<u8>)
    ensures
        r@ == macro_upper_marker(),
{
    vec![77u8, 97, 99, 114, 111]
}

/// The bytes 'macro'.
pub open spec fn macro_lower_marker() -> Seq<u8> {
    seq![109u8, 97, 99, 114, 111]
}

/// The bytes 'macro', as a vector.
pub fn macro_lower_marker_bytes() -> (r: Vec<u8>)
    ensures
        r@ == macro_lower_marker(),
{
    vec![109u8, 97, 99, 114, 111]
}

/// The bytes 'Module1'.
pub open spec fn module1_marker() -> Seq<u8> {
    seq![77u8, 111, 100, 117, 108, 101, 49]
}

/// The bytes 'Module1', as a vector.
pub fn module1_marker_bytes() -> (r: Vec<u8>)
    ensures
        r@ == module1_marker(),
{
    vec![77u8, 111, 100, 117, 108, 101, 49]
}

/// The bytes 'ThisDocument'.
pub open spec fn this_document_marker() -> Seq<u8> {
    seq![84u8, 104, 105, 115, 68, 111, 99, 117, 109, 101, 110, 116]
}

/// The bytes 'ThisDocument', as a vector.
pub fn this_document_marker_bytes() -> (r: Vec<u8>)
    ensures
        r@ == this_document_marker(),
{
    vec![84u8, 104, 105, 115, 68, 111, 99, 117, 109, 101, 110, 116]
}

/// The bytes 'PK'.
pub open spec fn pk_marker() -> Seq<u8> {
    seq![80u8, 75]
}

/// The bytes 'PK', as a vector.
pub fn pk_marker_bytes() -> (r: Vec<u8>)
    ensures
        r@ == pk_marker(),
{
    vec![80u8, 75]
}

/// The bytes 'ustar'.
pub open spec fn ustar_marker() -> Seq<u8> {
    seq![117u8, 115, 116, 97, 114]
}

/// The bytes 'ustar', as a vector.
pub fn ustar_marker_bytes() -> (r: Vec<u8>)
    ensures
        r@ == ustar_marker(),
{
    vec![117u8, 115, 116, 97, 114]
}

/// The bytes '/etc/passwd'.
pub open spec fn etc_passwd_marker() -> Seq<u8> {
    seq![47u8, 101, 116, 99, 47, 112, 97, 115, 115, 119, 100]
}

/// The bytes '/etc/passwd', as a vector.
pub fn etc_passwd_marker_bytes() -> (r: Vec<u8>)
    ensures
        r@ == etc_passwd_marker(),
{
    vec![47u8, 101, 116, 99, 47, 112, 97, 115, 115, 119, 100]
}

/// The bytes '/etc/shadow'.
pub open spec fn etc_shadow_marker() -> Seq<u8> {
    seq![47u8, 101, 116, 99, 47, 115, 104, 97, 100, 111, 119]
}

/// The bytes '/etc/shadow', as a vector.
pub fn etc_shadow_marker_bytes() -> (r: Vec<u8>)
    ensures
        r@ == etc_shadow_marker(),
{
    vec![47u8, 101, 116, 99, 47, 115, 104, 97, 100, 111, 119]
}

/// The bytes '/root/'.
pub open spec fn root_dir_marker() -> Seq<u8> {
    seq![47u8, 114, 111, 111, 116, 47]
}

/// The bytes '/root/', as a vector.
pub fn root_dir_marker_bytes() -> (r: Vec<u8>)
    ensures
        r@ == root_dir_marker(),
{
    vec![47u8, 114, 111, 111, 116, 47]
}

/// The bytes '../'.
pub open spec fn parent_slash_marker() -> Seq<u8> {
    seq![46u8, 46, 47]
}

/// The bytes '../', as a vector.
pub fn parent_slash_marker_bytes() -> (r: Vec<u8>)
    ensures
        r@ == parent_slash_marker(),
{
    vec![46u8, 46, 47]
}

/// The bytes '..\'.
pub open spec fn parent_backslash_marker() -> Seq<u8> {
    seq![46u8, 46, 92]
}

/// The bytes '..\', as a vector.
pub fn parent_backslash_marker_bytes() -> (r: Vec<u8>)
    ensures
        r@ == parent_backslash_marker(),
{
    vec![46u8, 46, 92]
}

/// The bytes '\Windows\System32'.
pub open spec fn windows_system32_marker() -> Seq<u8> {
    seq![92u8, 87, 105, 110, 100, 111, 119, 115, 92, 83, 121, 115, 116, 101, 109, 51, 50]
}

/// The bytes '\Windows\System32', as a vector.
pub fn windows_system32_marker_bytes() -> (r: Vec<u8>)
    ensures
        r@ == windows_system32_marker(),
{
    vec![92u8, 87, 105, 110, 100, 111, 119, 115, 92, 83, 121, 115, 116, 101, 109, 51, 50]
}

/// The bytes 'cmd.exe'.
pub open spec fn cmd_exe_marker() -> Seq<u8> {
    seq![99u8, 109, 100, 46, 101, 120, 101]
}

/// The bytes 'cmd.exe', as a vector.
pub fn cmd_exe_marker_bytes() -> (r: Vec<u8>)
    ensures
        r@ == cmd_exe_marker(),
{
    vec![99u8, 109, 100, 46, 101, 120, 101]
}

/// The bytes 'powershell'.
pub open spec fn powershell_marker() -> Seq<u8> {
    seq![112u8, 111, 119, 101, 114, 115, 104, 101, 108, 108]
}

/// The bytes 'powershell', as a vector.
pub fn powershell_marker_bytes() -> (r: Vec<u8>)
    ensures
        r@ == powershell_marker(),
{
    vec![112u8, 111, 119, 101, 114, 115, 104, 101, 108, 108]
}

/// The bytes '<!ENTITY'.
pub open spec fn entity_marker() -> Seq<u8> {
    seq![60u8, 33, 69, 78, 84, 73, 84, 89]
}

/// The bytes '<!ENTITY', as a vector.
pub fn entity_marker_bytes() -> (r: Vec<u8>)
    ensures
        r@ == entity_marker(),
{
    vec![60u8, 33, 69, 78, 84, 73, 84, 89]
}

/// The bytes 'SYSTEM'.
pub open spec fn system_marker() -> Seq<u8> {
    seq![83u8, 89, 83, 84, 69, 77]
}

/// The bytes 'SYSTEM', as a vector.
pub fn system_marker_bytes() -> (r: Vec<u8>)
    ensures
        r@ == system_marker(),
{
    vec![83u8, 89, 83, 84, 69, 77]
}

/// The bytes 'PUBLIC'.
pub open spec fn public_marker() -> Seq<u8> {
    seq![80u8, 85, 66, 76, 73, 67]
}

/// The bytes 'PUBLIC', as a vector.
pub fn public_marker_bytes() -> (r: Vec<u8>)
    ensures
        r@ == public_marker(),
{
    vec![80u8, 85, 66, 76, 73, 67]
}

/// The bytes 'file://'.
pub open spec fn file_url_marker() -> Seq<u8> {
    seq![102u8, 105, 108, 101, 58, 47, 47]
}

/// The bytes 'file://', as a vector.
pub fn file_url_marker_bytes() -> (r: Vec<u8>)
    ensures
        r@ == file_url_marker(),
{
    vec![102u8, 105, 108, 101, 58, 47, 47]
}

/// The bytes 'http://'.
pub open spec fn http_url_marker() -> Seq<u8> {
    seq![104u8, 116, 116, 112, 58, 47, 47]
}

/// The bytes 'http://', as a vector.
pub fn http_url_marker_bytes() -> (r: Vec<u8>)
    ensures
        r@ == http_url_marker(),
{
    vec![104u8, 116, 116, 112, 58, 47, 47]
}

/// The bytes 'https://'.
pub open spec fn https_url_marker() -> Seq<u8> {
    seq![104u8, 116, 116, 112, 115, 58, 47, 47]
}

/// The bytes 'https://', as a vector.
pub fn https_url_marker_bytes() -> (r: Vec<u8>)
    ensures
        r@ == https_url_marker(),
{
    vec![104u8, 116, 116, 112, 115, 58, 47, 47]
}

/// The bytes '/JavaScript'.
pub open spec fn javascript_marker() -> Seq<u8> {
    seq![47u8, 74, 97, 118, 97, 83, 99, 114, 105, 112, 116]
}

/// The bytes '/JavaScript', as a vector.
pub fn javascript_marker_bytes() -> (r: Vec<u8>)
    ensures
        r@ == javascript_marker(),
{
    vec![47u8, 74, 97, 118, 97, 83, 99, 114, 105, 112, 116]
}

/// The bytes '/JS'.
pub open spec fn js_marker() -> Seq<u8> {
    seq![47u8, 74, 83]
}

/// The bytes '/JS', as a vector.
pub fn js_marker_bytes() -> (r: Vec<u8>)
    ensures
        r@ == js_marker(),
{
    vec![47u8, 74, 83]
}

/// The bytes '/OpenAction'.
pub open spec fn open_action_marker() -> Seq<u8> {
    seq![47u8, 79, 112, 101, 110, 65, 99, 116, 105, 111, 110]
}

/// The bytes '/OpenAction', as a vector.
pub fn open_action_marker_bytes() -> (r: Vec<u8>)
    ensures
        r@ == open_action_marker(),
{
    vec![47u8, 79, 112, 101, 110, 65, 99, 116, 105, 111, 110]
}

/// The bytes '%PDF-'.
pub open spec fn pdf_magic() -> Seq<u8> {
    seq![37u8, 80, 68, 70, 45]
}

/// The bytes '%PDF-', as a vector.
pub fn pdf_magic_bytes() -> (r: Vec<u8>)
    ensures
        r@ == pdf_magic(),
{
    vec![37u8, 80, 68, 70, 45]
}

/// The bytes 'IHDR'.
pub open spec fn ihdr_chunk() -> Seq<u8> {
    seq![73u8, 72, 68, 82]
}

/// The bytes 'IHDR', as a vector.
pub fn ihdr_chunk_bytes() -> (r: Vec<u8>)
    ensures
        r@ == ihdr_chunk(),
{
    vec![73u8, 72, 68, 82]
}

/// The bytes 'IDAT'.
pub open spec fn idat_chunk() -> Seq<u8> {
    seq![73u8, 68, 65, 84]
}

/// The bytes 'IDAT', as a vector.
pub fn idat_chunk_bytes() -> (r: Vec<u8>)
    ensures
        r@ == idat_chunk(),
{
    vec![73u8, 68, 65, 84]
}

/// The bytes 'IEND'.
pub open spec fn iend_chunk() -> Seq<u8> {
    seq![73u8, 69, 78, 68]
}

/// The bytes 'IEND', as a vector.
pub fn iend_chunk_bytes() -> (r: Vec<u8>)
    ensures
        r@ == iend_chunk(),
{
    vec![73u8, 69, 78, 68]
}

/// The bytes 'PLTE'.
pub open spec fn plte_chunk() -> Seq<u8> {
    seq![80u8, 76, 84, 69]
}

/// The bytes 'PLTE', as a vector.
pub fn plte_chunk_bytes() -> (r: Vec<u8>)
    ensures
        r@ == plte_chunk(),
{
    vec![80u8, 76, 84, 69]
}

/// The bytes 1f 8b.
pub open spec fn gzip_marker() -> Seq<u8> {
    seq![31u8, 139]
}

/// The bytes 1f 8b, as a vector.
pub fn gzip_marker_bytes() -> (r: Vec<u8>)
    ensures
        r@ == gzip_marker(),
{
    vec![31u8, 139]
}

/// The bytes 89 50 4e 47 0d 0a 1a 0a.
pub open spec fn png_magic() -> Seq<u8> {
    seq![137u8, 80, 78, 71, 13, 10, 26, 10]
}

/// The bytes 89 50 4e 47 0d 0a 1a 0a, as a vector.
pub fn png_magic_bytes() -> (r: Vec<u8>)
    ensures
        r@ == png_magic(),
{
    vec![137u8, 80, 78, 71, 13, 10, 26, 10]
}

/// The bytes 89 50 4e 47.
pub open spec fn png_prefix() -> Seq<u8> {
    seq![137u8, 80, 78, 71]
}

/// The bytes 89 50 4e 47, as a vector.
pub fn png_prefix_bytes() -> (r: Vec<u8>)
    ensures
        r@ == png_prefix(),
{
    vec![137u8, 80, 78, 71]
}

/// The bytes ff d8 ff.
pub open spec fn jpeg_magic() -> Seq<u8> {
    seq![255u8, 216, 255]
}

/// The bytes ff d8 ff, as a vector.
pub fn jpeg_magic_bytes() -> (r: Vec<u8>)
    ensures
        r@ == jpeg_magic(),
{
    vec![255u8, 216, 255]
}

/// The bytes 7f 45 4c 46.
pub open spec fn elf_magic() -> Seq<u8> {
    seq![127u8, 69, 76, 70]
}

/// The bytes 7f 45 4c 46, as a vector.
pub fn elf_magic_bytes() -> (r: Vec<u8>)
    ensures
        r@ == elf_magic(),
{
    vec![127u8, 69, 76, 70]
}

/// The bytes 50 4b 03 04.
pub open spec fn zip_magic() -> Seq<u8> {
    seq![80u8, 75, 3, 4]
}

/// The bytes 50 4b 03 04, as a vector.
pub fn zip_magic_bytes() -> (r: Vec<u8>)
    ensures
        r@ == zip_magic(),
{
    vec![80u8, 75, 3, 4]
}

} // verus!
