//! Saving and loading a document as a single-file container.
//!
//! [`encode_flm`] turns a document's JSON text into the bytes of a fresh
//! container holding it as the `document.json` member. [`decode_flm`] runs
//! the load pipeline over container bytes, in strict order — parse the
//! container, open the member, read its text, check the format tag — and
//! stops at the first failing stage, returning that stage's error.

use vstd::prelude::*;

use crate::codec;
use crate::errors::FlmError;
use crate::tag;

verus! {

/// The fixed name of the payload member inside a container.
pub open spec fn spec_member_name() -> Seq<char> {
    "document.json"@
}

/// The payload member's name.
pub fn member_name() -> (r: &'static str)
    ensures
        r@ == spec_member_name(),
{
    "document.json"
}

/// The Unix permission metadata written for the payload member, the usual
/// read/write-owner, read-group, read-other pattern. Cosmetic only.
pub open spec fn spec_member_mode() -> u32 {
    0o644
}

/// The largest payload length, in chars, for which a save is promised to
/// succeed: a quarter of the plain zip size limit, less a margin, since a
/// char is at most four UTF-8 bytes and compression can expand data a
/// little.
pub open spec fn spec_payload_limit() -> int {
    0x3FF0_0000
}

/// The bytes `c` are a container that a successful save of payload text `d`
/// produced: well formed, with the payload member present and reading back
/// as exactly `d`.
pub open spec fn saved_container(c: Seq<u8>, d: Seq<char>) -> bool {
    &&& codec::zip_wf(c)
    &&& codec::zip_has_member(c, spec_member_name())
    &&& codec::zip_member_text(c, spec_member_name()) == Some(d)
}

/// A load of container bytes `c` succeeds: the bytes parse as a container,
/// the payload member is present and reads back as text, and that text
/// carries the format tag.
pub open spec fn load_ok(c: Seq<u8>) -> bool {
    &&& codec::zip_wf(c)
    &&& codec::zip_has_member(c, spec_member_name())
    &&& match codec::zip_member_text(c, spec_member_name()) {
        Some(d) => tag::tag_ok(d),
        None => false,
    }
}

/// Which load error belongs to container bytes `c`: each variant marks
/// exactly the first stage of the load pipeline that fails on `c`, so the
/// conditions are mutually exclusive and no other variant can come out.
pub open spec fn load_err_class(c: Seq<u8>, e: FlmError) -> bool {
    match e {
        FlmError::NotContainer(_) => !codec::zip_wf(c),
        FlmError::MemberMissing(_) => codec::zip_wf(c) && !codec::zip_has_member(
            c,
            spec_member_name(),
        ),
        FlmError::MemberUnreadable(_) => codec::zip_wf(c) && codec::zip_has_member(
            c,
            spec_member_name(),
        ) && codec::zip_member_text(c, spec_member_name()) is None,
        FlmError::NotJson(_) => codec::zip_wf(c) && codec::zip_has_member(c, spec_member_name())
            && match codec::zip_member_text(c, spec_member_name()) {
            Some(d) => !tag::json_wf(d),
            None => false,
        },
        FlmError::WrongTag => codec::zip_wf(c) && codec::zip_has_member(c, spec_member_name())
            && match codec::zip_member_text(c, spec_member_name()) {
            Some(d) => tag::json_wf(d) && tag::json_str_field(d, tag::spec_format_key())
                != Some(tag::spec_format_value()),
            None => false,
        },
        _ => false,
    }
}

/// Serializes a document payload into the bytes of a new container: one
/// deflate-compressed member named `document.json`, mode `0o644`, holding
/// `document_json`'s bytes. Construction is deterministic — the result is a
/// function of the payload alone — and is promised to succeed for every
/// payload below [`spec_payload_limit`], tagged or not: whether the payload
/// carries the format tag is checked on load only.
pub fn encode_flm(document_json: &str) -> (r: Result<Vec<u8>, FlmError>)
    ensures
        r is Ok <==> codec::zip_build_of(spec_member_name(), document_json@, spec_member_mode())
            is Some,
        r matches Ok(c) ==> Some(c@) == codec::zip_build_of(
            spec_member_name(),
            document_json@,
            spec_member_mode(),
        ),
        document_json@.len() < spec_payload_limit() ==> r is Ok,
        r matches Ok(c) ==> saved_container(c@, document_json@),
        r matches Err(e) ==> (e is MemberStart || e is MemberWrite || e is Finalize),
{
    proof {
        reveal_strlit("document.json");
    }
    codec::build_container(member_name(), document_json, 0o644)
}

/// Runs the load pipeline over container bytes and returns the payload text
/// exactly as stored, once it is known to parse as JSON tagged
/// `format: "flowmark"`. Fails with the error of the first failing stage.
pub fn decode_flm(container: &[u8]) -> (r: Result<String, FlmError>)
    ensures
        r is Ok <==> load_ok(container@),
        r matches Ok(d) ==> codec::zip_member_text(container@, spec_member_name()) == Some(d@),
        r matches Err(e) ==> load_err_class(container@, e),
{
    let text = match codec::read_member(container, member_name()) {
        Ok(t) => t,
        Err(e) => {
            return Err(e);
        },
    };
    match tag::check_format_tag(text.as_str()) {
        Ok(_) => Ok(text),
        Err(e) => Err(e),
    }
}

/// Round trip: a container that a successful save produced from a payload
/// carrying the format tag loads successfully, and yields exactly that
/// payload.
pub proof fn lemma_round_trip(c: Seq<u8>, d: Seq<char>)
    requires
        saved_container(c, d),
        tag::tag_ok(d),
    ensures
        load_ok(c),
        codec::zip_member_text(c, spec_member_name()) == Some(d),
{
}

/// Deterministic construction: two successful saves of the same payload
/// produce byte-identical containers.
pub proof fn lemma_deterministic_build(c1: Seq<u8>, c2: Seq<u8>, d: Seq<char>)
    requires
        Some(c1) == codec::zip_build_of(spec_member_name(), d, spec_member_mode()),
        Some(c2) == codec::zip_build_of(spec_member_name(), d, spec_member_mode()),
    ensures
        c1 == c2,
{
}

/// Tag enforcement: a container whose payload member reads back as a text
/// without the format tag never loads successfully, whatever else it holds.
pub proof fn lemma_tag_enforcement(c: Seq<u8>, d: Seq<char>)
    requires
        codec::zip_member_text(c, spec_member_name()) == Some(d),
        !tag::tag_ok(d),
    ensures
        !load_ok(c),
{
}

/// Member absence is told apart from corruption: on a well-formed container
/// that lacks the payload member, the one load error that classifies is the
/// member-missing one.
pub proof fn lemma_member_absence_distinct(c: Seq<u8>, e: FlmError)
    requires
        codec::zip_wf(c),
        !codec::zip_has_member(c, spec_member_name()),
        load_err_class(c, e),
    ensures
        e is MemberMissing,
{
}

/// Corruption detection: on bytes that do not parse as a container, the one
/// load error that classifies is the not-a-container one, and no load
/// succeeds.
pub proof fn lemma_corruption_distinct(c: Seq<u8>, e: FlmError)
    requires
        !codec::zip_wf(c),
        load_err_class(c, e),
    ensures
        e is NotContainer,
        !load_ok(c),
{
}

} // verus!
