//! The archive codec: named-member write and named-member read over a
//! compressed (zip) container held in memory.
//!
//! The zip crate does the compression work; this module gives its outcomes
//! names that the rest of the library reasons with. A container's bytes alone
//! decide whether they parse as an archive ([`zip_wf`]), whether a member of a
//! given name can be opened ([`zip_has_member`]), and what text reading that
//! member yields ([`zip_member_text`]).

use vstd::prelude::*;

use crate::errors::FlmError;

verus! {

/// Whether `container` parses as a compressed archive: the outcome of
/// `zip::ZipArchive::new` on these bytes, a function of the bytes alone.
pub uninterp spec fn zip_wf(container: Seq<u8>) -> bool;

/// Whether the archive `container` holds a member `name` that can be opened:
/// the outcome of `zip::ZipArchive::by_name`, a function of the bytes and the
/// name alone.
pub uninterp spec fn zip_has_member(container: Seq<u8>, name: Seq<char>) -> bool;

/// The text that reading member `name` of `container` in full yields, or
/// `None` where the member's data cannot be read back as text — because its
/// compressed stream is corrupt or because its bytes are not valid UTF-8:
/// the outcome of `std::io::Read::read_to_string` on the opened member, a
/// function of the bytes and the name alone.
pub uninterp spec fn zip_member_text(container: Seq<u8>, name: Seq<char>) -> Option<Seq<char>>;

/// The container bytes that building an archive of one deflate-compressed
/// member `name` with permission metadata `mode` and content `payload`
/// yields, or `None` where the build is refused — a name too long for its
/// 16-bit length field, or data past the plain zip size limit. With the
/// compression backend and its settings fixed, the build writes no clock,
/// machine or random byte, so its outcome is a function of the three
/// arguments alone.
pub uninterp spec fn zip_build_of(name: Seq<char>, payload: Seq<char>, mode: u32) -> Option<
    Seq<u8>,
>;

/// Builds a fresh container holding one member `name`, deflate-compressed,
/// with Unix permission metadata `mode`, whose content is `payload`'s bytes.
///
/// Relies on `zip::ZipWriter` over an in-memory buffer — `new`, `start_file`
/// (which stores the member under the given name verbatim), `write_all` and
/// `finish` — and on the zip crate reading back a member it wrote: a finished
/// archive is well formed, the member opens under its name, and its data
/// reads back as exactly the text written. Writing to memory cannot fail of
/// itself, and the deflate compressor at its fixed default level always
/// starts, so the only refusals left are a member name too long for its
/// 16-bit length field and data past the plain zip size limit; a char is at
/// most four UTF-8 bytes, so the char-count bounds below keep the name and
/// the data (with compression's worst-case expansion) inside both. The
/// member's timestamp is the format's fixed epoch constant and the metadata
/// system byte is pinned to Unix, so the built bytes are the same on every
/// call and every machine: [`zip_build_of`] of the arguments.
#[verifier::external_body]
pub(crate) fn build_container(name: &str, payload: &str, mode: u32) -> (r: Result<
    Vec<u8>,
    FlmError,
>)
    ensures
        r is Ok <==> zip_build_of(name@, payload@, mode) is Some,
        r matches Ok(c) ==> Some(c@) == zip_build_of(name@, payload@, mode),
        name@.len() <= 0x3FFF && payload@.len() < 0x3FF0_0000 ==> r is Ok,
        r matches Ok(c) ==> zip_wf(c@) && zip_has_member(c@, name@) && zip_member_text(c@, name@)
            == Some(payload@),
        r matches Err(e) ==> (e is MemberStart || e is MemberWrite || e is Finalize),
{
    let mut zip = zip::ZipWriter::new(std::io::Cursor::new(Vec::new()));
    let options = zip::write::SimpleFileOptions::default().compression_method(
        zip::CompressionMethod::Deflated,
    ).unix_permissions(mode).system(zip::System::Unix);
    if let Err(e) = zip.start_file(name, options) {
        return Err(FlmError::MemberStart(format!("{}", e)));
    }
    if let Err(e) = std::io::Write::write_all(&mut zip, payload.as_bytes()) {
        return Err(FlmError::MemberWrite(format!("{}", e)));
    }
    match zip.finish() {
        Ok(cursor) => Ok(cursor.into_inner()),
        Err(e) => Err(FlmError::Finalize(format!("{}", e))),
    }
}

/// Reads member `name` out of the container bytes, as text.
///
/// Relies on `zip::ZipArchive::new` (whose success on given bytes is
/// [`zip_wf`]), `zip::ZipArchive::by_name` (whose success is
/// [`zip_has_member`]) and `std::io::Read::read_to_string` on the opened
/// member (whose outcome is [`zip_member_text`]). The three stages fail one
/// by one, so each error variant marks exactly the first stage that failed.
#[verifier::external_body]
pub(crate) fn read_member(container: &[u8], name: &str) -> (r: Result<String, FlmError>)
    ensures
        r matches Ok(t) ==> zip_wf(container@) && zip_has_member(container@, name@)
            && zip_member_text(container@, name@) == Some(t@),
        r matches Err(e) ==> (match e {
            FlmError::NotContainer(_) => !zip_wf(container@),
            FlmError::MemberMissing(_) => zip_wf(container@) && !zip_has_member(
                container@,
                name@,
            ),
            FlmError::MemberUnreadable(_) => zip_wf(container@) && zip_has_member(
                container@,
                name@,
            ) && zip_member_text(container@, name@) is None,
            _ => false,
        }),
{
    let mut archive = match zip::ZipArchive::new(std::io::Cursor::new(container)) {
        Ok(a) => a,
        Err(e) => return Err(FlmError::NotContainer(format!("{}", e))),
    };
    let mut member = match archive.by_name(name) {
        Ok(m) => m,
        Err(e) => return Err(FlmError::MemberMissing(format!("{}", e))),
    };
    let mut text = String::new();
    match std::io::Read::read_to_string(&mut member, &mut text) {
        Ok(_) => Ok(text),
        Err(e) => Err(FlmError::MemberUnreadable(format!("{}", e))),
    }
}

} // verus!
