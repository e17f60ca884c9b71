//! Upload requests and responses, and the checks and error mapping of the
//! upload endpoints.
use vstd::prelude::*;
use vstd::string::*;

use base64::Engine;

use crate::api_error::{ApiError, ApiErrorKind};
use crate::text::{
    ascii_lower, ascii_lowercase_spec, contains_spec, lemma_lower_keeps_whitespace,
    lemma_lowercase_twice, lemma_trim_ends, lemma_trim_of_trimmed, owned, str_contains,
    str_to_ascii_lowercase, str_trim, trim_spec,
};

verus! {

/// The largest payload an inline (base64) upload may carry, in bytes.
pub const MAX_INLINE_UPLOAD_BYTES: usize = 8 * 1024 * 1024;

/// The lifetime of an upload session that names none, in seconds.
pub const DEFAULT_UPLOAD_SESSION_TTL_SECONDS: i64 = 15 * 60;

/// The longest lifetime an upload session may ask for, in seconds.
pub const MAX_UPLOAD_SESSION_TTL_SECONDS: i64 = 24 * 60 * 60;

/// An inline upload: the file's bytes travel base64-encoded in the request.
#[derive(Debug, Clone)]
pub struct UploadRequest {
    pub file_name: String,
    pub content_type: String,
    pub bytes_base64: String,
    pub expected_size_bytes: Option<u64>,
    pub expected_sha256: Option<String>,
}

/// A request to open an upload session.
#[derive(Debug, Clone)]
pub struct UploadSessionPrepareRequest {
    pub file_name: String,
    pub content_type: String,
    pub object_kind: String,
    pub expected_size_bytes: u64,
    pub expected_sha256: Option<String>,
    pub ttl_seconds: Option<i64>,
}

/// A request for a presigned direct write into a session.
#[derive(Debug, Clone)]
pub struct UploadSessionDirectWriteRequest {
    pub expires_in_seconds: Option<u64>,
}

/// A presigned direct write: where and how to send the bytes.
#[derive(Debug, Clone)]
pub struct UploadSessionDirectWriteResponse {
    pub session_id: String,
    pub object_key: String,
    pub method: String,
    pub url: String,
    pub headers: Vec<UploadSessionDirectWriteHeader>,
    pub expires_at: i64,
}

/// One header a presigned write must carry.
#[derive(Debug, Clone)]
pub struct UploadSessionDirectWriteHeader {
    pub name: String,
    pub value: String,
}

/// A multipart upload started for a session.
#[derive(Debug, Clone)]
pub struct UploadSessionMultipartUploadResponse {
    pub session_id: String,
    pub object_key: String,
    pub upload_id: String,
}

/// A request for a presigned write of one part.
#[derive(Debug, Clone)]
pub struct UploadSessionMultipartPartWriteRequest {
    pub upload_id: String,
    pub expires_in_seconds: Option<u64>,
}

/// A presigned write of one part.
#[derive(Debug, Clone)]
pub struct UploadSessionMultipartPartWriteResponse {
    pub session_id: String,
    pub object_key: String,
    pub upload_id: String,
    pub part_number: u32,
    pub method: String,
    pub url: String,
    pub headers: Vec<UploadSessionDirectWriteHeader>,
    pub expires_at: i64,
}

/// A request to complete a multipart upload from its uploaded parts.
#[derive(Debug, Clone)]
pub struct UploadSessionMultipartCompleteRequest {
    pub upload_id: String,
    pub parts: Vec<UploadSessionMultipartCompletedPartRequest>,
}

/// One uploaded part: its number and the tag the store gave it.
#[derive(Debug, Clone)]
pub struct UploadSessionMultipartCompletedPartRequest {
    pub part_number: u32,
    pub etag: String,
}

/// A request to abandon a multipart upload.
#[derive(Debug, Clone)]
pub struct UploadSessionMultipartAbortRequest {
    pub upload_id: String,
}

/// What an uploaded object is stored as.
#[derive(Debug, Clone, Copy, PartialEq, Eq, Structural)]
pub enum ObjectUploadKind {
    Object,
    Image,
}

/// The actor id uploads are attributed to for a user: `user:<id>`.
pub fn canonical_user_actor_id(user_id: &str) -> (res: String)
    ensures
        res@ == "user:"@ + user_id@,
{
    let mut s = owned("user:");
    s.append(user_id);
    s
}

/// A content type as stored: trimmed and ASCII lower-cased; a blank one is
/// refused with a 400.
pub fn normalize_upload_content_type(value: &str) -> (res: Result<String, ApiError>)
    ensures
        match res {
            Ok(v) => trim_spec(value@).len() > 0 && v@ == ascii_lowercase_spec(trim_spec(value@)),
            Err(e) => trim_spec(value@).len() == 0 && e.kind == ApiErrorKind::BadRequest
                && e.message@ == "content_type is required"@,
        },
{
    let value = str_trim(value);
    if value.is_empty() {
        return Err(ApiError::bad_request("content_type is required"));
    }
    Ok(str_to_ascii_lowercase(value))
}

/// The object kind a session asks for: `object` or `image` (surrounding
/// whitespace ignored); anything else is refused with a 400.
pub fn parse_upload_kind(value: &str) -> (res: Result<ObjectUploadKind, ApiError>)
    ensures
        match res {
            Ok(k) => (trim_spec(value@) == "object"@ && k == ObjectUploadKind::Object)
                || (trim_spec(value@) == "image"@ && k == ObjectUploadKind::Image),
            Err(e) => trim_spec(value@) != "object"@ && trim_spec(value@) != "image"@
                && e.kind == ApiErrorKind::BadRequest
                && e.message@ == "object_kind must be either object or image"@,
        },
{
    let v = owned(str_trim(value));
    if v == owned("object") {
        Ok(ObjectUploadKind::Object)
    } else if v == owned("image") {
        Ok(ObjectUploadKind::Image)
    } else {
        Err(ApiError::bad_request("object_kind must be either object or image"))
    }
}

/// The lifetime of an upload session: 900 seconds unless given; a lifetime
/// outside `1..=86400` is refused with a 400.
pub fn normalize_session_ttl(value: Option<i64>) -> (res: Result<i64, ApiError>)
    ensures
        ({
            let ttl = match value { Some(t) => t, None => DEFAULT_UPLOAD_SESSION_TTL_SECONDS };
            match res {
                Ok(t) => 1 <= ttl <= MAX_UPLOAD_SESSION_TTL_SECONDS && t == ttl,
                Err(e) => !(1 <= ttl <= MAX_UPLOAD_SESSION_TTL_SECONDS) && e.kind == ApiErrorKind::BadRequest
                    && e.message@ == "ttl_seconds must be between 1 and 86400"@,
            }
        }),
{
    let ttl_seconds = match value {
        Some(t) => t,
        None => DEFAULT_UPLOAD_SESSION_TTL_SECONDS,
    };
    if ttl_seconds < 1 || ttl_seconds > MAX_UPLOAD_SESSION_TTL_SECONDS {
        return Err(ApiError::bad_request("ttl_seconds must be between 1 and 86400"));
    }
    Ok(ttl_seconds)
}

/// The bytes that the standard base64 alphabet, with padding, decodes
/// `text` to; `None` when `text` is not valid standard base64.
pub uninterp spec fn base64_standard_decode(text: Seq<char>) -> Option<Seq<u8>>;

/// The error type of the `base64` crate's decoder.
#[verifier::external_type_specification]
#[verifier::external_body]
pub struct ExBase64DecodeError(base64::DecodeError);

/// Calls `base64::engine::general_purpose::STANDARD.decode` on the UTF-8
/// bytes of `text`. Its result is a function of `text` alone, named
/// `base64_standard_decode`; the contract states only that the call agrees
/// with that name.
#[verifier::external_body]
fn base64_decode_standard(text: &str) -> (res: Result<Vec<u8>, base64::DecodeError>)
    ensures
        match res {
            Ok(bytes) => base64_standard_decode(text@) == Some(bytes@),
            Err(_) => base64_standard_decode(text@) is None,
        },
{
    base64::engine::general_purpose::STANDARD.decode(text)
}

/// The outcome of checking a decoded inline payload: its bytes, a 400 when
/// it was not standard base64 (`None`), or a 413 when it exceeds 8 MiB.
pub open spec fn accepted_upload_spec(decoded: Option<Seq<u8>>) -> Result<Seq<u8>, (ApiErrorKind, Seq<char>)> {
    match decoded {
        None => Err((ApiErrorKind::BadRequest, "bytes_base64 must be valid standard base64"@)),
        Some(bytes) => if bytes.len() > MAX_INLINE_UPLOAD_BYTES {
            Err((ApiErrorKind::PayloadTooLarge, "inline uploads are limited to 8388608 bytes"@))
        } else {
            Ok(bytes)
        },
    }
}

/// The outcome of decoding an inline upload's payload, surrounding
/// whitespace ignored.
pub open spec fn decoded_upload_spec(value: Seq<char>) -> Result<Seq<u8>, (ApiErrorKind, Seq<char>)> {
    accepted_upload_spec(base64_standard_decode(trim_spec(value)))
}

/// Checks a decoded inline payload: `None` (the payload was not standard
/// base64) is refused with a 400, more than 8 MiB with a 413.
pub fn accept_decoded_upload(decoded: Option<Vec<u8>>) -> (res: Result<Vec<u8>, ApiError>)
    ensures
        match (res, accepted_upload_spec(match decoded { Some(b) => Some(b@), None => None })) {
            (Ok(b), Ok(sb)) => b@ == sb,
            (Err(e), Err((k, m))) => e.kind == k && e.message@ == m,
            _ => false,
        },
{
    match decoded {
        None => Err(ApiError::bad_request("bytes_base64 must be valid standard base64")),
        Some(bytes) => {
            if bytes.len() > MAX_INLINE_UPLOAD_BYTES {
                return Err(ApiError::payload_too_large("inline uploads are limited to 8388608 bytes"));
            }
            Ok(bytes)
        },
    }
}

/// Decodes an inline upload's payload, surrounding whitespace ignored.
pub fn decode_upload_bytes(value: &str) -> (res: Result<Vec<u8>, ApiError>)
    ensures
        match (res, decoded_upload_spec(value@)) {
            (Ok(b), Ok(sb)) => b@ == sb,
            (Err(e), Err((k, m))) => e.kind == k && e.message@ == m,
            _ => false,
        },
{
    let decoded = match base64_decode_standard(str_trim(value)) {
        Ok(bytes) => Some(bytes),
        Err(_) => None,
    };
    accept_decoded_upload(decoded)
}

/// The content type an upload is stored under, or why it is refused.
pub open spec fn content_type_spec(value: Seq<char>) -> Result<Seq<char>, Seq<char>> {
    if trim_spec(value).len() == 0 {
        Err("content_type is required"@)
    } else {
        Ok(ascii_lowercase_spec(trim_spec(value)))
    }
}

/// A stored content type is already normal: normalizing it again gives it
/// back unchanged.
pub proof fn law_content_type_normal_form(value: Seq<char>)
    ensures
        content_type_spec(value) matches Ok(ct) ==> content_type_spec(ct) == Ok::<Seq<char>, Seq<char>>(ct),
{
    if let Ok(ct) = content_type_spec(value) {
        let t = trim_spec(value);
        lemma_trim_ends(value);
        lemma_lower_keeps_whitespace(t[0]);
        lemma_lower_keeps_whitespace(t.last());
        assert(ct[0] == ascii_lower(t[0]));
        assert(ct.last() == ascii_lower(t.last()));
        lemma_trim_of_trimmed(ct);
        lemma_lowercase_twice(t);
    }
}

/// The object kind a session asks for, or why it is refused.
pub open spec fn upload_kind_spec(value: Seq<char>) -> Result<ObjectUploadKind, Seq<char>> {
    if trim_spec(value) == "object"@ {
        Ok(ObjectUploadKind::Object)
    } else if trim_spec(value) == "image"@ {
        Ok(ObjectUploadKind::Image)
    } else {
        Err("object_kind must be either object or image"@)
    }
}

/// The lifetime of a session, or why it is refused.
pub open spec fn session_ttl_spec(value: Option<i64>) -> Result<i64, Seq<char>> {
    let ttl = match value {
        Some(t) => t,
        None => DEFAULT_UPLOAD_SESSION_TTL_SECONDS,
    };
    if 1 <= ttl <= MAX_UPLOAD_SESSION_TTL_SECONDS {
        Ok(ttl)
    } else {
        Err("ttl_seconds must be between 1 and 86400"@)
    }
}

/// The checked parts of a session request, checked in the order content
/// type, object kind, lifetime; the first refusal is the answer.
pub open spec fn session_inputs_spec(req: UploadSessionPrepareRequest) -> Result<(Seq<char>, ObjectUploadKind, i64), Seq<char>> {
    match content_type_spec(req.content_type@) {
        Err(m) => Err(m),
        Ok(ct) => match upload_kind_spec(req.object_kind@) {
            Err(m) => Err(m),
            Ok(k) => match session_ttl_spec(req.ttl_seconds) {
                Err(m) => Err(m),
                Ok(t) => Ok((ct, k, t)),
            },
        },
    }
}

/// Checks a request to open an upload session before it reaches the
/// upload service: the stored content type, the object kind and the
/// session's lifetime, each refusal a 400.
pub fn validate_session_request(req: &UploadSessionPrepareRequest) -> (res: Result<(String, ObjectUploadKind, i64), ApiError>)
    ensures
        match (res, session_inputs_spec(*req)) {
            (Ok((ct, k, t)), Ok((sct, sk, st))) => ct@ == sct && k == sk && t == st,
            (Err(e), Err(m)) => e.kind == ApiErrorKind::BadRequest && e.message@ == m,
            _ => false,
        },
{
    let content_type = normalize_upload_content_type(req.content_type.as_str())?;
    let kind = parse_upload_kind(req.object_kind.as_str())?;
    proof {
        reveal_strlit("object");
        reveal_strlit("image");
        assert("object"@[0] != "image"@[0]);
    }
    let ttl = normalize_session_ttl(req.ttl_seconds)?;
    Ok((content_type, kind, ttl))
}

/// Checks an inline upload before it reaches the upload service: the
/// stored content type first, then the decoded payload.
pub fn validate_inline_upload(req: &UploadRequest) -> (res: Result<(String, Vec<u8>), ApiError>)
    ensures
        match content_type_spec(req.content_type@) {
            Err(m) => res is Err && res->Err_0.kind == ApiErrorKind::BadRequest && res->Err_0.message@ == m,
            Ok(ct) => match (res, decoded_upload_spec(req.bytes_base64@)) {
                (Ok((c, b)), Ok(sb)) => c@ == ct && b@ == sb,
                (Err(e), Err((k, m))) => e.kind == k && e.message@ == m,
                _ => false,
            },
        },
{
    let content_type = normalize_upload_content_type(req.content_type.as_str())?;
    let bytes = decode_upload_bytes(req.bytes_base64.as_str())?;
    Ok((content_type, bytes))
}

/// The headers of a presigned write, from `(name, value)` pairs, in order.
pub fn direct_write_headers(headers: Vec<(String, String)>) -> (res: Vec<UploadSessionDirectWriteHeader>)
    ensures
        res.len() == headers.len(),
        forall|i: int| 0 <= i < headers.len() ==> (#[trigger] res[i]).name == headers[i].0 && res[i].value == headers[i].1,
{
    let ghost all = headers@;
    let mut out: Vec<UploadSessionDirectWriteHeader> = Vec::new();
    for header in it: headers.into_iter()
        invariant
            it.seq() == all,
            out.len() == it.index(),
            forall|i: int| 0 <= i < out.len() ==> (#[trigger] out[i]).name == all[i].0 && out[i].value == all[i].1,
    {
        let (name, value) = header;
        out.push(UploadSessionDirectWriteHeader { name, value });
    }
    out
}

/// The message fragments that mark an upload failure as the client's fault.
pub open spec fn upload_bad_request_fragments() -> Seq<Seq<char>> {
    seq![
        "file_name"@, "size mismatch"@, "sha256"@, "expected_size_bytes"@, "ttl_seconds"@,
        "part_number"@, "uploaded parts"@, "contiguous"@, "upload_id"@, "multipart upload"@,
        "s3 multipart uploads"@, "expires_in_seconds"@, "presigned object writes"@,
        "unsupported hosted image content type"@, "expired"@,
    ]
}

/// The message fragments that mark an upload failure as a conflict.
pub open spec fn upload_conflict_fragments() -> Seq<Seq<char>> {
    seq!["does not belong"@, "not cancelable"@]
}

/// Whether `message` contains one of `fragments`.
pub open spec fn mentions_any(message: Seq<char>, fragments: Seq<Seq<char>>) -> bool {
    exists|i: int| 0 <= i < fragments.len() && contains_spec(message, #[trigger] fragments[i])
}

/// The answer class of a failed upload by its message: a 400 for problems
/// with the request, a 409 for a session the caller may not touch, and an
/// internal error otherwise.
pub open spec fn upload_failure_kind(message: Seq<char>) -> ApiErrorKind {
    if mentions_any(message, upload_bad_request_fragments()) {
        ApiErrorKind::BadRequest
    } else if mentions_any(message, upload_conflict_fragments()) {
        ApiErrorKind::Conflict
    } else {
        ApiErrorKind::Internal
    }
}

/// Whether `message` contains one of `fragments`.
fn message_mentions_any(message: &str, fragments: &Vec<&str>) -> (res: bool)
    ensures
        res == exists|i: int| 0 <= i < fragments.len() && contains_spec(message@, #[trigger] fragments@[i]@),
{
    let mut i: usize = 0;
    while i < fragments.len()
        invariant
            i <= fragments.len(),
            forall|j: int| 0 <= j < i ==> !contains_spec(message@, #[trigger] fragments@[j]@),
        decreases fragments.len() - i,
    {
        if str_contains(message, fragments[i]) {
            return true;
        }
        i = i + 1;
    }
    false
}

/// The answer to a failed upload with message `message`; the message is
/// passed on to the client.
pub fn classify_upload_failure(message: &str) -> (res: ApiError)
    ensures
        res.kind == upload_failure_kind(message@),
        res.message@ == message@,
{
    let bad = vec![
        "file_name", "size mismatch", "sha256", "expected_size_bytes", "ttl_seconds", "part_number",
        "uploaded parts", "contiguous", "upload_id", "multipart upload", "s3 multipart uploads",
        "expires_in_seconds", "presigned object writes", "unsupported hosted image content type",
        "expired",
    ];
    let conflict = vec!["does not belong", "not cancelable"];
    proof {
        let bs = bad@.map_values(|s: &str| s@);
        assert(bs =~= upload_bad_request_fragments());
        let cs = conflict@.map_values(|s: &str| s@);
        assert(cs =~= upload_conflict_fragments());
        assert(forall|i: int| 0 <= i < bad.len() ==> #[trigger] bad@[i]@ == upload_bad_request_fragments()[i]);
        assert(forall|i: int| 0 <= i < conflict.len() ==> #[trigger] conflict@[i]@ == upload_conflict_fragments()[i]);
    }
    if message_mentions_any(message, &bad) {
        return ApiError::bad_request(message);
    }
    if message_mentions_any(message, &conflict) {
        return ApiError::conflict(message);
    }
    ApiError::internal(message)
}

/// The `Display` text of an `anyhow::Error`: its outermost message.
pub uninterp spec fn anyhow_display(err: anyhow::Error) -> Seq<char>;

/// Calls `Display` on an `anyhow::Error`. The text is a function of the
/// error alone, named `anyhow_display`.
#[verifier::external_body]
fn error_text(err: &anyhow::Error) -> (res: String)
    ensures
        res@ == anyhow_display(*err),
{
    err.to_string()
}

/// The answer to a failed upload: the error's message, passed on and
/// classified as by `classify_upload_failure`.
pub fn map_upload_error(err: &anyhow::Error) -> (res: ApiError)
    ensures
        res.kind == upload_failure_kind(anyhow_display(*err)),
        res.message@ == anyhow_display(*err),
{
    let message = error_text(err);
    classify_upload_failure(message.as_str())
}

/// A failed upload is a 400 when its message names a problem with the
/// request (a file name, size or checksum, lifetime, part or upload id,
/// multipart or presigned write, unsupported image type, or expiry), else a
/// 409 when it names a session that does not belong to the caller or cannot
/// be cancelled, else an internal error.
pub proof fn law_upload_failure_classes(message: Seq<char>)
    ensures
        (contains_spec(message, "file_name"@)
            || contains_spec(message, "size mismatch"@)
            || contains_spec(message, "sha256"@)
            || contains_spec(message, "expected_size_bytes"@)
            || contains_spec(message, "ttl_seconds"@)
            || contains_spec(message, "part_number"@)
            || contains_spec(message, "uploaded parts"@)
            || contains_spec(message, "contiguous"@)
            || contains_spec(message, "upload_id"@)
            || contains_spec(message, "multipart upload"@)
            || contains_spec(message, "s3 multipart uploads"@)
            || contains_spec(message, "expires_in_seconds"@)
            || contains_spec(message, "presigned object writes"@)
            || contains_spec(message, "unsupported hosted image content type"@)
            || contains_spec(message, "expired"@))
            ==> upload_failure_kind(message) == ApiErrorKind::BadRequest,
        !(contains_spec(message, "file_name"@)
            || contains_spec(message, "size mismatch"@)
            || contains_spec(message, "sha256"@)
            || contains_spec(message, "expected_size_bytes"@)
            || contains_spec(message, "ttl_seconds"@)
            || contains_spec(message, "part_number"@)
            || contains_spec(message, "uploaded parts"@)
            || contains_spec(message, "contiguous"@)
            || contains_spec(message, "upload_id"@)
            || contains_spec(message, "multipart upload"@)
            || contains_spec(message, "s3 multipart uploads"@)
            || contains_spec(message, "expires_in_seconds"@)
            || contains_spec(message, "presigned object writes"@)
            || contains_spec(message, "unsupported hosted image content type"@)
            || contains_spec(message, "expired"@))
            && (contains_spec(message, "does not belong"@) || contains_spec(message, "not cancelable"@))
            ==> upload_failure_kind(message) == ApiErrorKind::Conflict,
        !(contains_spec(message, "file_name"@)
            || contains_spec(message, "size mismatch"@)
            || contains_spec(message, "sha256"@)
            || contains_spec(message, "expected_size_bytes"@)
            || contains_spec(message, "ttl_seconds"@)
            || contains_spec(message, "part_number"@)
            || contains_spec(message, "uploaded parts"@)
            || contains_spec(message, "contiguous"@)
            || contains_spec(message, "upload_id"@)
            || contains_spec(message, "multipart upload"@)
            || contains_spec(message, "s3 multipart uploads"@)
            || contains_spec(message, "expires_in_seconds"@)
            || contains_spec(message, "presigned object writes"@)
            || contains_spec(message, "unsupported hosted image content type"@)
            || contains_spec(message, "expired"@))
            && !(contains_spec(message, "does not belong"@) || contains_spec(message, "not cancelable"@))
            ==> upload_failure_kind(message) == ApiErrorKind::Internal,
{
    assert(upload_bad_request_fragments()[0] == "file_name"@);
    assert(upload_bad_request_fragments()[1] == "size mismatch"@);
    assert(upload_bad_request_fragments()[2] == "sha256"@);
    assert(upload_bad_request_fragments()[3] == "expected_size_bytes"@);
    assert(upload_bad_request_fragments()[4] == "ttl_seconds"@);
    assert(upload_bad_request_fragments()[5] == "part_number"@);
    assert(upload_bad_request_fragments()[6] == "uploaded parts"@);
    assert(upload_bad_request_fragments()[7] == "contiguous"@);
    assert(upload_bad_request_fragments()[8] == "upload_id"@);
    assert(upload_bad_request_fragments()[9] == "multipart upload"@);
    assert(upload_bad_request_fragments()[10] == "s3 multipart uploads"@);
    assert(upload_bad_request_fragments()[11] == "expires_in_seconds"@);
    assert(upload_bad_request_fragments()[12] == "presigned object writes"@);
    assert(upload_bad_request_fragments()[13] == "unsupported hosted image content type"@);
    assert(upload_bad_request_fragments()[14] == "expired"@);
    assert(upload_conflict_fragments()[0] == "does not belong"@);
    assert(upload_conflict_fragments()[1] == "not cancelable"@);
    assert(upload_bad_request_fragments().len() == 15);
    assert(upload_conflict_fragments().len() == 2);
}

/// A decoded inline payload is accepted exactly when it is at most
/// 8 388 608 bytes (8 MiB), unchanged; a larger one is a 413 and a payload
/// that was not base64 a 400.
pub proof fn law_inline_payload_limit(decoded: Option<Seq<u8>>)
    ensures
        decoded is None ==> accepted_upload_spec(decoded) is Err
            && accepted_upload_spec(decoded)->Err_0.0 == ApiErrorKind::BadRequest,
        decoded is Some && decoded->0.len() <= 8388608 ==> accepted_upload_spec(decoded)
            == Ok::<Seq<u8>, (ApiErrorKind, Seq<char>)>(decoded->0),
        decoded is Some && decoded->0.len() > 8388608 ==> accepted_upload_spec(decoded) is Err
            && accepted_upload_spec(decoded)->Err_0.0 == ApiErrorKind::PayloadTooLarge,
{
}

/// A session request passes exactly when its content type is non-blank,
/// its object kind is `object` or `image` (surrounding whitespace aside)
/// and its lifetime, 900 seconds when not given, lies in 1..=86400 seconds;
/// it then opens a session of that kind and lifetime, with the content type
/// trimmed and lower-cased.
pub proof fn law_session_request(req: UploadSessionPrepareRequest)
    ensures
        ({
            let ttl = match req.ttl_seconds { Some(t) => t as int, None => 900 };
            &&& session_inputs_spec(req) is Ok <==> (
                trim_spec(req.content_type@).len() > 0
                && (trim_spec(req.object_kind@) == "object"@ || trim_spec(req.object_kind@) == "image"@)
                && 1 <= ttl <= 86400
            )
            &&& session_inputs_spec(req) is Ok ==> {
                let (ct, kind, t) = session_inputs_spec(req)->Ok_0;
                &&& ct == ascii_lowercase_spec(trim_spec(req.content_type@))
                &&& t == ttl
                &&& (kind == ObjectUploadKind::Object <==> trim_spec(req.object_kind@) == "object"@)
                &&& (kind == ObjectUploadKind::Image <==> trim_spec(req.object_kind@) == "image"@)
            }
        }),
{
    reveal_strlit("object");
    reveal_strlit("image");
    assert("object"@[0] != "image"@[0]);
}

} // verus!
