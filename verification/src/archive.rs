//! Archival step of the sweeper: an oversized plain-text log is turned into
//! a compressed container holding one Deflate-compressed member, named after
//! the moment the archive was created.

use vstd::prelude::*;
use vstd::string::StringExecFns;
use crate::text::is_digit_char;

verus! {

/// The failure of an archival step. The original file must then be left
/// intact: nothing may be deleted unless the container was fully built.
#[derive(Clone, Copy, Debug, PartialEq, Eq, Structural)]
pub struct CompressionError;

/// The bytes of a compressed container holding one member of the given name
/// and content, Deflate-compressed. For a fixed name and content the
/// container bytes depend on them alone.
pub uninterp spec fn zip_archive_bytes(name: Seq<char>, content: Seq<u8>) -> Seq<u8>;

/// Relies on zip::ZipWriter (new, start_file, write_all, finish) writing one
/// Deflate-compressed member into an in-memory buffer. The produced bytes
/// are a function of the member name and content alone, within any one build
/// of the library: compression is deterministic, the stored timestamp is the
/// format's fixed default, and the container's system marker is a constant
/// of the compile target. On this in-memory path the writer fails only when
/// the member name does not fit the format's 16-bit name-length field (a
/// name of at most 0x3FFF characters is at most 65532 UTF-8 bytes and always
/// fits), or when the raw or the compressed stream exceeds the format's
/// 32-bit size field. Deflate expands incompressible input by at most five
/// bytes per 64 KiB block plus a constant, under 384 KiB at these sizes, so
/// content at least 16 MiB under the field's limit keeps both streams in
/// range and success is owed.
#[verifier::external_body]
fn zip_single_member(name: &str, content: &Vec<u8>) -> (r: Option<Vec<u8>>)
    ensures
        r matches Some(v) ==> v@ == zip_archive_bytes(name@, content@),
        name@.len() <= 0x3FFF && content@.len() <= 0xFEFF_FFFF ==> r is Some,
{
    let mut writer = zip::ZipWriter::new(std::io::Cursor::new(Vec::new()));
    let options: zip::write::SimpleFileOptions = zip::write::FileOptions::default()
        .compression_method(zip::CompressionMethod::Deflated);
    if writer.start_file(name, options).is_err() {
        return None;
    }
    if std::io::Write::write_all(&mut writer, content).is_err() {
        return None;
    }
    match writer.finish() {
        Ok(cursor) => Some(cursor.into_inner()),
        Err(_) => None,
    }
}

/// Builds the compressed container that replaces an oversized plain-text
/// log: one member, named after the original file, holding its whole
/// content. Success is owed whenever the name and the content, with room for
/// the compressor's worst-case expansion, fit the container format's fields,
/// and the result is then exactly the container's bytes; on failure the
/// caller must keep the original file.
pub fn compress_log_content(file_name: &str, content: &Vec<u8>) -> (r: Result<
    Vec<u8>,
    CompressionError,
>)
    ensures
        r matches Ok(v) ==> v@ == zip_archive_bytes(file_name@, content@),
        file_name@.len() <= 0x3FFF && content@.len() <= 0xFEFF_FFFF ==> r is Ok,
        r is Err ==> r == Err::<Vec<u8>, CompressionError>(CompressionError),
{
    match zip_single_member(file_name, content) {
        Some(v) => Ok(v),
        None => Err(CompressionError),
    }
}

/// The shape every rendered timestamp has: `YYYY-MM-DD HH:MM:SS`. The tail
/// is fifteen characters of fixed separators around two-digit zero-padded
/// month, day, hour, minute and second fields; the head is the year, at
/// least four digits, possibly preceded by a sign.
pub open spec fn timestamp_shaped(s: Seq<char>) -> bool {
    let n = s.len() as int;
    &&& n >= 19
    &&& s[n - 15] == '-' && s[n - 12] == '-' && s[n - 9] == ' ' && s[n - 6] == ':' && s[n - 3]
        == ':'
    &&& is_digit_char(s[n - 14]) && is_digit_char(s[n - 13])
    &&& is_digit_char(s[n - 11]) && is_digit_char(s[n - 10])
    &&& is_digit_char(s[n - 8]) && is_digit_char(s[n - 7])
    &&& is_digit_char(s[n - 5]) && is_digit_char(s[n - 4])
    &&& is_digit_char(s[n - 2]) && is_digit_char(s[n - 1])
    &&& forall|i: int|
        0 <= i < n - 15 ==> is_digit_char(s[i]) || (i == 0 && (s[i] == '-' || s[i] == '+'))
}

/// Relies on chrono::Local::now and chrono's format with
/// `%Y-%m-%d %H:%M:%S`: every outcome is the wall clock rendered as
/// `YYYY-MM-DD HH:MM:SS` — the year zero-padded to at least four digits,
/// with a leading sign for years outside 0 through 9999, the other five
/// fields zero-padded to two digits, and the separators fixed. On a system
/// clock set before the Unix epoch chrono aborts instead of returning.
#[verifier::external_body]
pub fn get_time() -> (r: String)
    ensures
        timestamp_shaped(r@),
{
    chrono::Local::now().format("%Y-%m-%d %H:%M:%S").to_string()
}

/// The file name of a new archive: the timestamp of its creation with the
/// archive extension appended.
pub fn archive_file_name(timestamp: &str) -> (r: String)
    ensures
        r@ == timestamp@ + ".zip"@,
{
    let base = timestamp.to_owned();
    base.concat(".zip")
}

} // verus!
