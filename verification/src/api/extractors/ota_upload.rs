//! The upload body of an OTA image: an `application/octet-stream` request
//! with a non-empty body.

use vstd::prelude::*;
use vstd::string::StringSliceAdditionalSpecFns;

use crate::api::header::{reads_as_text, value_reads_as_text};
use crate::error::{empty_upload_message, unit_or_error, AppError, AppErrorView};

verus! {

/// The only media type accepted for uploads.
pub const APPLICATION_OCTET_STREAM: &'static str = "application/octet-stream";

/// The bytes of an uploaded OTA image.
#[derive(Debug)]
pub struct OtaUpload(pub Vec<u8>);

/// Whitespace, as `str::trim` removes it, among ASCII bytes.
pub open spec fn is_ascii_whitespace(b: u8) -> bool {
    b == 32 || (9 <= b && b <= 13)
}

/// The number of bytes before the first `;` (all of them if there is none).
pub open spec fn first_field_len(s: Seq<u8>) -> nat
    decreases s.len(),
{
    if s.len() == 0 || s[0] == 59 {
        0
    } else {
        1 + first_field_len(s.drop_first())
    }
}

/// `s` without its leading whitespace.
pub open spec fn trim_start(s: Seq<u8>) -> Seq<u8>
    decreases s.len(),
{
    if s.len() > 0 && is_ascii_whitespace(s[0]) {
        trim_start(s.drop_first())
    } else {
        s
    }
}

/// `s` without its trailing whitespace.
pub open spec fn trim_end(s: Seq<u8>) -> Seq<u8>
    decreases s.len(),
{
    if s.len() > 0 && is_ascii_whitespace(s.last()) {
        trim_end(s.drop_last())
    } else {
        s
    }
}

/// The media type of a `Content-Type` value: the part before the first
/// `;`, without surrounding whitespace.
pub open spec fn mime_type(value: Seq<u8>) -> Seq<u8> {
    trim_end(trim_start(value.take(first_field_len(value) as int)))
}

/// The ASCII lower case of a byte.
pub open spec fn ascii_lower(b: u8) -> u8 {
    if 65 <= b && b <= 90 {
        (b + 32) as u8
    } else {
        b
    }
}

/// Equality of byte strings up to ASCII case.
pub open spec fn eq_ignore_ascii_case(a: Seq<u8>, b: Seq<u8>) -> bool {
    &&& a.len() == b.len()
    &&& forall|i: int| 0 <= i < a.len() ==> ascii_lower(#[trigger] a[i]) == ascii_lower(b[i])
}

/// The message of a request whose media type is missing or not accepted.
pub open spec fn expected_content_type_message() -> Seq<char> {
    "expected Content-Type: "@ + APPLICATION_OCTET_STREAM@
}

/// The verdict on a request's `Content-Type` value (`None` when the header
/// is absent): accepted exactly when it reads as text and its media type is
/// `application/octet-stream` in any ASCII case.
pub open spec fn content_type_verdict(value: Option<Seq<u8>>) -> Result<(), AppErrorView> {
    match value {
        None => Err(AppErrorView::UnsupportedMediaType(expected_content_type_message())),
        Some(v) => {
            if !reads_as_text(v) {
                Err(AppErrorView::UnsupportedMediaType("invalid Content-Type header"@))
            } else if eq_ignore_ascii_case(mime_type(v), APPLICATION_OCTET_STREAM.spec_bytes()) {
                Ok(())
            } else {
                Err(AppErrorView::UnsupportedMediaType(expected_content_type_message()))
            }
        },
    }
}

fn expected_content_type() -> (e: AppError)
    ensures
        e@ == AppErrorView::UnsupportedMediaType(expected_content_type_message()),
{
    let mut message = String::from_str("expected Content-Type: ");
    message.append(APPLICATION_OCTET_STREAM);
    AppError::UnsupportedMediaType(message)
}

/// The index of the first `;` in `value`, or its length.
fn first_field_end(value: &[u8]) -> (end: usize)
    ensures
        end == first_field_len(value@),
        end <= value@.len(),
{
    let len = value.len();
    let mut i: usize = 0;
    assert(value@.subrange(0, len as int) =~= value@);
    while i < len && value[i] != 59
        invariant
            i <= len,
            len == value@.len(),
            first_field_len(value@) == i + first_field_len(value@.subrange(i as int, len as int)),
        decreases len - i,
    {
        assert(value@.subrange(i as int, len as int).drop_first() =~= value@.subrange(i + 1, len as int));
        i = i + 1;
    }
    i
}

/// The bounds of `value[..end]` without surrounding whitespace.
fn trim_bounds(value: &[u8], end: usize) -> (bounds: (usize, usize))
    requires
        end <= value@.len(),
    ensures
        bounds.0 <= bounds.1 <= end,
        value@.subrange(bounds.0 as int, bounds.1 as int) == trim_end(trim_start(value@.take(end as int))),
{
    let ghost field = value@.take(end as int);
    let mut lo: usize = 0;
    assert(field.subrange(0, end as int) =~= field);
    while lo < end && (value[lo] == 32 || (9 <= value[lo] && value[lo] <= 13))
        invariant
            lo <= end <= value@.len(),
            field == value@.take(end as int),
            trim_start(field) == trim_start(field.subrange(lo as int, end as int)),
        decreases end - lo,
    {
        assert(field.subrange(lo as int, end as int).drop_first() =~= field.subrange(lo + 1, end as int));
        lo = lo + 1;
    }
    assert(trim_start(field) == field.subrange(lo as int, end as int));
    let mut hi: usize = end;
    while hi > lo && (value[hi - 1] == 32 || (9 <= value[hi - 1] && value[hi - 1] <= 13))
        invariant
            lo <= hi <= end <= value@.len(),
            field == value@.take(end as int),
            trim_end(trim_start(field)) == trim_end(field.subrange(lo as int, hi as int)),
        decreases hi - lo,
    {
        assert(field.subrange(lo as int, hi as int).drop_last() =~= field.subrange(lo as int, hi - 1));
        hi = hi - 1;
    }
    assert(field.subrange(lo as int, hi as int) =~= value@.subrange(lo as int, hi as int));
    (lo, hi)
}

/// Whether `value[lo..hi]` equals `expected` up to ASCII case.
fn range_eq_ignore_ascii_case(value: &[u8], lo: usize, hi: usize, expected: &[u8]) -> (answer: bool)
    requires
        lo <= hi <= value@.len(),
    ensures
        answer == eq_ignore_ascii_case(value@.subrange(lo as int, hi as int), expected@),
{
    if hi - lo != expected.len() {
        return false;
    }
    let ghost part = value@.subrange(lo as int, hi as int);
    let mut i: usize = 0;
    while i < expected.len()
        invariant
            i <= expected@.len(),
            hi - lo == expected@.len(),
            lo <= hi <= value@.len(),
            part == value@.subrange(lo as int, hi as int),
            forall|j: int| 0 <= j < i ==> ascii_lower(#[trigger] part[j]) == ascii_lower(expected@[j]),
        decreases expected@.len() - i,
    {
        let a = value[lo + i];
        let b = expected[i];
        let la = if 65 <= a && a <= 90 { a + 32 } else { a };
        let lb = if 65 <= b && b <= 90 { b + 32 } else { b };
        assert(part[i as int] == a);
        if la != lb {
            return false;
        }
        i = i + 1;
    }
    true
}

/// Checks the `Content-Type` of an upload request (`None` when the header
/// is absent).
pub fn validate_content_type(content_type: Option<&[u8]>) -> (result: Result<(), AppError>)
    ensures
        unit_or_error(result) == content_type_verdict(
            match content_type {
                Some(v) => Some(v@),
                None => None,
            },
        ),
{
    let value = match content_type {
        None => return Err(expected_content_type()),
        Some(v) => v,
    };
    if !value_reads_as_text(value) {
        return Err(AppError::UnsupportedMediaType(String::from_str("invalid Content-Type header")));
    }
    let end = first_field_end(value);
    let (lo, hi) = trim_bounds(value, end);
    let expected = APPLICATION_OCTET_STREAM.as_bytes();
    if range_eq_ignore_ascii_case(value, lo, hi, expected) {
        Ok(())
    } else {
        Err(expected_content_type())
    }
}

impl OtaUpload {
    /// Accepts an upload body: refused with a validation error when empty.
    pub fn from_body(bytes: Vec<u8>) -> (result: Result<OtaUpload, AppError>)
        ensures
            bytes@.len() == 0 ==> (result matches Err(e) && e@ == AppErrorView::Validation(empty_upload_message())),
            bytes@.len() > 0 ==> (result matches Ok(upload) && upload.0@ == bytes@),
    {
        if bytes.len() == 0 {
            return Err(AppError::Validation(String::from_str("uploaded file is empty")));
        }
        Ok(OtaUpload(bytes))
    }
}

/// `value[lo..hi]` stands as the media type of `value`: `end` is where the
/// first field ends (the first `;`, or the end), the range lies in that
/// field, and only whitespace comes before it and between it and `end`.
pub open spec fn media_type_bounds(value: Seq<u8>, lo: int, hi: int, end: int) -> bool {
    &&& 0 <= lo <= hi <= end <= value.len()
    &&& forall|j: int| 0 <= j < end ==> #[trigger] value[j] != 59
    &&& end < value.len() ==> value[end] == 59
    &&& forall|j: int| 0 <= j < lo ==> is_ascii_whitespace(#[trigger] value[j])
    &&& forall|j: int| hi <= j < end ==> is_ascii_whitespace(#[trigger] value[j])
}

/// The first field of `s` ends at the first `;`, or at the end.
pub proof fn lemma_first_field_len(s: Seq<u8>)
    ensures
        first_field_len(s) <= s.len(),
        forall|j: int| 0 <= j < first_field_len(s) ==> #[trigger] s[j] != 59,
        first_field_len(s) < s.len() ==> s[first_field_len(s) as int] == 59,
    decreases s.len(),
{
    if s.len() > 0 && s[0] != 59 {
        lemma_first_field_len(s.drop_first());
        assert forall|j: int| 0 <= j < first_field_len(s) implies #[trigger] s[j] != 59 by {
            if j > 0 {
                assert(s[j] == s.drop_first()[j - 1]);
            }
        }
    }
}

/// Trimming the start of `s` drops a whitespace prefix.
pub proof fn lemma_trim_start(s: Seq<u8>) -> (a: int)
    ensures
        0 <= a <= s.len(),
        trim_start(s) == s.subrange(a, s.len() as int),
        forall|j: int| 0 <= j < a ==> is_ascii_whitespace(#[trigger] s[j]),
        a < s.len() ==> !is_ascii_whitespace(s[a]),
    decreases s.len(),
{
    if s.len() > 0 && is_ascii_whitespace(s[0]) {
        let rest = s.drop_first();
        let b = lemma_trim_start(rest);
        assert(rest.subrange(b, rest.len() as int) =~= s.subrange(b + 1, s.len() as int));
        if b < rest.len() {
            assert(s[b + 1] == rest[b]);
        }
        assert forall|j: int| 0 <= j < b + 1 implies is_ascii_whitespace(#[trigger] s[j]) by {
            if j > 0 {
                assert(s[j] == rest[j - 1]);
            }
        }
        b + 1
    } else {
        assert(s.subrange(0, s.len() as int) =~= s);
        0
    }
}

/// Trimming the end of `s` drops a whitespace suffix.
pub proof fn lemma_trim_end(s: Seq<u8>) -> (b: int)
    ensures
        0 <= b <= s.len(),
        trim_end(s) == s.subrange(0, b),
        forall|j: int| b <= j < s.len() ==> is_ascii_whitespace(#[trigger] s[j]),
        b > 0 ==> !is_ascii_whitespace(s[b - 1]),
    decreases s.len(),
{
    if s.len() > 0 && is_ascii_whitespace(s.last()) {
        let rest = s.drop_last();
        let b = lemma_trim_end(rest);
        assert(rest.subrange(0, b) =~= s.subrange(0, b));
        if b > 0 {
            assert(s[b - 1] == rest[b - 1]);
        }
        assert forall|j: int| b <= j < s.len() implies is_ascii_whitespace(#[trigger] s[j]) by {
            if j < s.len() - 1 {
                assert(s[j] == rest[j]);
            }
        }
        b
    } else {
        assert(s.subrange(0, s.len() as int) =~= s);
        s.len() as int
    }
}

/// The media type of a value is a range of it that stands as its media type.
pub proof fn lemma_mime_type_bounds(value: Seq<u8>) -> (bounds: (int, int, int))
    ensures
        media_type_bounds(value, bounds.0, bounds.1, bounds.2),
        mime_type(value) == value.subrange(bounds.0, bounds.1),
        bounds.0 < bounds.2 ==> !is_ascii_whitespace(value[bounds.0]),
        bounds.0 < bounds.1 ==> !is_ascii_whitespace(value[bounds.1 - 1]),
        bounds.0 == bounds.1 ==> forall|j: int| bounds.0 <= j < bounds.2 ==> is_ascii_whitespace(#[trigger] value[j]),
{
    lemma_first_field_len(value);
    let end = first_field_len(value) as int;
    let field = value.take(end);
    let a = lemma_trim_start(field);
    let started = field.subrange(a, end);
    let b = lemma_trim_end(started);
    assert(started.subrange(0, b) =~= value.subrange(a, a + b));
    assert forall|j: int| 0 <= j < a implies is_ascii_whitespace(#[trigger] value[j]) by {
        assert(value[j] == field[j]);
    }
    assert forall|j: int| a + b <= j < end implies is_ascii_whitespace(#[trigger] value[j]) by {
        assert(value[j] == started[j - a]);
    }
    if a < end {
        assert(value[a] == field[a]);
    }
    if b > 0 {
        assert(value[a + b - 1] == started[b - 1]);
    }
    (a, a + b, end)
}

/// An upload's Content-Type is accepted only when it reads as text and its
/// media type, found as the first field without surrounding whitespace, is
/// `application/octet-stream` up to ASCII case; a missing one is refused.
pub proof fn accepted_content_type_is_octet_stream(value: Option<Seq<u8>>)
    ensures
        value is None ==> content_type_verdict(value) is Err,
        content_type_verdict(value) is Ok ==> ({
            let v = value->0;
            &&& reads_as_text(v)
            &&& exists|lo: int, hi: int, end: int|
                #![trigger media_type_bounds(v, lo, hi, end)]
                media_type_bounds(v, lo, hi, end)
                    && eq_ignore_ascii_case(v.subrange(lo, hi), APPLICATION_OCTET_STREAM.spec_bytes())
        }),
{
    if let Some(v) = value {
        let bounds = lemma_mime_type_bounds(v);
        if content_type_verdict(value) is Ok {
            assert(media_type_bounds(v, bounds.0, bounds.1, bounds.2));
        }
    }
}

/// An upload's Content-Type is accepted whenever it reads as text and its
/// media type is `application/octet-stream` up to ASCII case.
pub proof fn octet_stream_content_type_is_accepted(value: Seq<u8>, lo: int, hi: int, end: int)
    requires
        reads_as_text(value),
        media_type_bounds(value, lo, hi, end),
        eq_ignore_ascii_case(value.subrange(lo, hi), APPLICATION_OCTET_STREAM.spec_bytes()),
    ensures
        content_type_verdict(Some(value)) is Ok,
{
    reveal_strlit("application/octet-stream");
    broadcast use vstd::string::group_string_axioms;
    assert(vstd::string::is_ascii(APPLICATION_OCTET_STREAM));
    let target = APPLICATION_OCTET_STREAM.spec_bytes();
    assert(target.len() == 24);
    assert(target[0] == 97);
    assert(target[23] == 109);
    let part = value.subrange(lo, hi);
    assert(ascii_lower(part[0]) == ascii_lower(target[0]));
    assert(ascii_lower(part[23]) == ascii_lower(target[23]));
    assert(part[0] == value[lo]);
    assert(part[23] == value[hi - 1]);
    assert(!is_ascii_whitespace(value[lo]));
    assert(!is_ascii_whitespace(value[hi - 1]));
    let bounds = lemma_mime_type_bounds(value);
    let (a, h, e) = bounds;
    // Both ends of the first field are its first `;`, or the end.
    if e < end {
        assert(value[e] != 59);
    }
    if end < e {
        assert(value[end] != 59);
    }
    assert(e == end);
    // The media type starts at the first non-whitespace byte of the field.
    if a < lo {
        assert(is_ascii_whitespace(value[a]));
    }
    if lo < a {
        assert(is_ascii_whitespace(value[lo]));
    }
    assert(a == lo);
    // And ends after its last non-whitespace byte.
    if h < hi {
        assert(is_ascii_whitespace(value[hi - 1]));
    }
    if hi < h {
        assert(is_ascii_whitespace(value[h - 1]));
    }
    assert(h == hi);
}

} // verus!
