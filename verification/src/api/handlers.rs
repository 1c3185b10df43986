//! The decisions of the HTTP handlers: what each route answers, given what
//! the OTA service produced.

use vstd::prelude::*;
use vstd::utf8::encode_utf8;

use crate::api::extractors::ota_upload::APPLICATION_OCTET_STREAM;
use crate::api::header::{is_valid_value, value_is_valid};
use crate::domain::ota::{
    PendingUpdate, PendingUpdateView, ServedUpdate, ServedUpdateView,
    UploadUpdateError,
};
use crate::error::{
    in_context, plain_failure, upload_error_as_app_error, AppError, AppErrorView, Failure, FailureView,
    TextReply,
};
use crate::text::{
    decimal, decimal_string, decimal_value, is_decimal_digit, lemma_decimal_shape,
    lemma_decimal_value_of_decimal, push_decimal,
};

verus! {

/// The name of the header that carries an image's SHA-256 fingerprint.
pub const IMAGE_SHA256_HEADER: &'static str = "x-application-image-sha256";

/// The index page up to the pending-image paragraph.
pub const INDEX_HEAD: &'static str = r#"<!doctype html>
<html>
<head>
  <meta charset=\"utf-8\">
  <title>ull-fleet-server</title>
</head>
<body>
  <h1>ull-fleet-server</h1>
  <p>Upload one OTA image. The ESP32 will poll <code>/api/update</code> every 10 seconds. When it downloads the image, the backend deletes it.</p>
  "#;

/// The index page after the pending-image paragraph.
pub const INDEX_TAIL: &'static str = r#"
  <form id=\"upload-form\">
    <input type=\"file\" id=\"ota-file\" required>
    <button type=\"submit\">Upload OTA Image</button>
  </form>
  <p id=\"upload-status\"></p>
  <p>API upload example:</p>
  <pre>curl --data-binary @ota.bin http://127.0.0.1:3000/api/upload</pre>
  <script>
    const form = document.getElementById('upload-form');
    const fileInput = document.getElementById('ota-file');
    const status = document.getElementById('upload-status');

    form.addEventListener('submit', async (event) => {
      event.preventDefault();
      const file = fileInput.files[0];

      if (!file) {
        status.textContent = 'Select a file first.';
        return;
      }

      status.textContent = 'Uploading...';

      const response = await fetch('/api/upload', {
        method: 'POST',
        headers: { 'Content-Type': 'application/octet-stream' },
        body: file,
      });

      status.textContent = await response.text();

      if (response.ok) {
        setTimeout(() => window.location.reload(), 500);
      }
    });
  </script>
</body>
</html>"#;

/// The greeting of the `/hello` route.
pub fn hello() -> (text: &'static str)
    ensures
        text@ == "hello from ull-fleet-server"@,
{
    "hello from ull-fleet-server"
}

/// The paragraph of the index page about the pending image.
pub open spec fn pending_html(pending: Option<PendingUpdateView>) -> Seq<char> {
    match pending {
        Some(p) => "<p>Pending update: <code>"@ + p.filename + "</code> ("@ + decimal(p.size_bytes as nat)
            + " bytes, sha256 <code>"@ + p.sha256_hex + "</code>)</p>"@,
        None => "<p>No pending OTA image.</p>"@,
    }
}

/// The index page: upload form and the state of the pending image.
pub open spec fn index_page(pending: Option<PendingUpdateView>) -> Seq<char> {
    INDEX_HEAD@ + pending_html(pending) + INDEX_TAIL@
}

/// Renders the index page for the pending image, if any.
pub fn index_html(pending: Option<&PendingUpdate>) -> (html: String)
    ensures
        html@ == index_page(
            match pending {
                Some(p) => Some(p@),
                None => None,
            },
        ),
{
    let mut html = String::from_str(INDEX_HEAD);
    match pending {
        Some(p) => {
            html.append("<p>Pending update: <code>");
            html.append(p.filename.as_str());
            html.append("</code> (");
            push_decimal(&mut html, p.size_bytes);
            html.append(" bytes, sha256 <code>");
            html.append(p.sha256_hex.as_str());
            html.append("</code>)</p>");
        },
        None => {
            html.append("<p>No pending OTA image.</p>");
        },
    }
    html.append(INDEX_TAIL);
    proof {
        let pv = match pending {
            Some(p) => Some(p@),
            None => None::<PendingUpdateView>,
        };
        assert(html@ =~= index_page(pv));
    }
    html
}

/// The index route: the page, or the error of loading the pending record.
pub fn index(pending: Result<Option<PendingUpdate>, Failure>) -> (page: Result<String, AppError>)
    ensures
        match pending {
            Ok(Some(p)) => page matches Ok(html) && html@ == index_page(Some(p@)),
            Ok(None) => page matches Ok(html) && html@ == index_page(None),
            Err(m) => page matches Err(e) && e@ == AppErrorView::Internal(m@),
        },
{
    match pending {
        Ok(Some(p)) => Ok(index_html(Some(&p))),
        Ok(None) => Ok(index_html(None)),
        Err(m) => Err(AppError::Internal(m)),
    }
}

/// The message that confirms an upload.
pub open spec fn upload_message(p: PendingUpdateView) -> Seq<char> {
    "stored pending OTA image "@ + p.filename + " ("@ + decimal(p.size_bytes as nat) + " bytes)"@
}

/// The upload route: 201 with a confirmation, or the error of the upload.
pub fn upload_update(uploaded: Result<PendingUpdate, UploadUpdateError>) -> (reply: Result<TextReply, AppError>)
    ensures
        match uploaded {
            Ok(p) => reply matches Ok(r) && r.status == 201 && r.body@ == upload_message(p@),
            Err(err) => reply matches Err(e) && e@ == upload_error_as_app_error(err@),
        },
{
    match uploaded {
        Ok(p) => {
            let mut body = String::from_str("stored pending OTA image ");
            body.append(p.filename.as_str());
            body.append(" (");
            push_decimal(&mut body, p.size_bytes);
            body.append(" bytes)");
            proof {
                assert(body@ =~= upload_message(p@));
            }
            Ok(TextReply { status: 201, body })
        },
        Err(err) => Err(AppError::from_upload_error(err)),
    }
}

/// A reply that carries an OTA image.
#[derive(Debug)]
pub struct ImageReply {
    pub status: u16,
    /// The `content-type` header.
    pub content_type: String,
    /// The `content-length` header.
    pub content_length: String,
    /// The `x-application-image-sha256` header.
    pub image_sha256: String,
    pub body: Vec<u8>,
}

/// The reply of the download route.
#[derive(Debug)]
pub enum UpdateReply {
    /// 204: no image is pending.
    NoContent,
    /// 200: the pending image.
    Image(ImageReply),
}

/// The failure of a fingerprint that cannot stand in a header: it says
/// "failed to build x-application-image-sha256 header", caused by the
/// header value's parse error.
pub open spec fn sha256_header_failure() -> FailureView {
    in_context(
        "failed to build x-application-image-sha256 header"@,
        plain_failure("failed to parse header value"@),
    )
}

/// What the reply serving `served` holds, given its result.
pub open spec fn serves(served: ServedUpdateView, result: Result<ImageReply, AppError>) -> bool {
    if is_valid_value(encode_utf8(served.pending.sha256_hex)) {
        &&& result matches Ok(reply)
        &&& reply.status == 200
        &&& reply.content_type@ == APPLICATION_OCTET_STREAM@
        &&& reply.content_length@ == decimal(served.bytes.len())
        &&& reply.image_sha256@ == served.pending.sha256_hex
        &&& reply.body@ == served.bytes
    } else {
        result matches Err(e) && e@ == AppErrorView::Internal(sha256_header_failure())
    }
}

/// The reply that serves an image: its bytes, its media type, its length and
/// its fingerprint. Fails when the recorded fingerprint cannot stand in a header.
pub fn download_response(served: ServedUpdate) -> (result: Result<ImageReply, AppError>)
    ensures
        serves(served@, result),
{
    let ServedUpdate { pending, bytes } = served;
    if !value_is_valid(pending.sha256_hex.as_str().as_bytes()) {
        return Err(AppError::Internal(
            Failure::plain("failed to parse header value").context("failed to build x-application-image-sha256 header"),
        ));
    }
    let content_length = decimal_string(bytes.len() as u64);
    Ok(ImageReply {
        status: 200,
        content_type: String::from_str(APPLICATION_OCTET_STREAM),
        content_length,
        image_sha256: pending.sha256_hex,
        body: bytes,
    })
}

/// The download route: 204 when nothing is pending, the image when one was
/// taken, or the error of taking it.
pub fn download_update(taken: Result<Option<ServedUpdate>, Failure>) -> (reply: Result<UpdateReply, AppError>)
    ensures
        match taken {
            Ok(None) => reply matches Ok(UpdateReply::NoContent),
            Ok(Some(served)) => match reply {
                Ok(UpdateReply::Image(image)) => serves(served@, Ok(image)),
                Ok(UpdateReply::NoContent) => false,
                Err(e) => serves(served@, Err(e)),
            },
            Err(m) => reply matches Err(e) && e@ == AppErrorView::Internal(m@),
        },
{
    match taken {
        Ok(None) => Ok(UpdateReply::NoContent),
        Ok(Some(served)) => match download_response(served) {
            Ok(image) => Ok(UpdateReply::Image(image)),
            Err(e) => Err(e),
        },
        Err(m) => Err(AppError::Internal(m)),
    }
}

/// The download reply of a served image holds the image's bytes, says they
/// are `application/octet-stream`, and its Content-Length is a string of
/// decimal digits that reads back as the full number of bytes, however many.
pub proof fn download_reply_reports_full_length(served: ServedUpdateView, reply: ImageReply)
    requires
        serves(served, Ok(reply)),
    ensures
        reply.status == 200,
        reply.body@ == served.bytes,
        reply.content_type@ == APPLICATION_OCTET_STREAM@,
        reply.image_sha256@ == served.pending.sha256_hex,
        decimal_value(reply.content_length@) == served.bytes.len(),
        reply.content_length@.len() >= 1,
        forall|i: int| 0 <= i < reply.content_length@.len() ==> is_decimal_digit(#[trigger] reply.content_length@[i]),
{
    lemma_decimal_value_of_decimal(served.bytes.len());
    lemma_decimal_shape(served.bytes.len());
}

/// Serving an image fails only when its recorded fingerprint cannot stand in
/// a header; otherwise the reply is owed.
pub proof fn download_reply_owed_for_valid_fingerprint(served: ServedUpdateView, result: Result<ImageReply, AppError>)
    requires
        serves(served, result),
    ensures
        result is Ok <==> is_valid_value(encode_utf8(served.pending.sha256_hex)),
        result matches Err(e) ==> e@ == AppErrorView::Internal(sha256_header_failure()),
{
}

/// The upload confirmation names the stored file and gives the record's full
/// size: the number between " (" and " bytes)" reads back as `size_bytes`,
/// for every size.
pub proof fn upload_confirmation_reports_full_size(p: PendingUpdateView)
    ensures
        exists|digits: Seq<char>|
            #![trigger decimal_value(digits)]
            upload_message(p) == "stored pending OTA image "@ + p.filename + " ("@ + digits + " bytes)"@
                && decimal_value(digits) == p.size_bytes,
{
    let digits = decimal(p.size_bytes as nat);
    lemma_decimal_value_of_decimal(p.size_bytes as nat);
    assert(upload_message(p) == "stored pending OTA image "@ + p.filename + " ("@ + digits + " bytes)"@
        && decimal_value(digits) == p.size_bytes);
}

/// The index page for a pending image shows its name, its full size (the
/// number before " bytes" reads back as `size_bytes`, for every size) and its
/// fingerprint; with nothing pending it says so.
pub proof fn index_page_reports_pending_image(pending: Option<PendingUpdateView>)
    ensures
        pending matches Some(p) ==> exists|digits: Seq<char>|
            #![trigger decimal_value(digits)]
            index_page(pending) == INDEX_HEAD@ + "<p>Pending update: <code>"@ + p.filename + "</code> ("@ + digits
                + " bytes, sha256 <code>"@ + p.sha256_hex + "</code>)</p>"@ + INDEX_TAIL@
                && decimal_value(digits) == p.size_bytes,
        pending is None ==> index_page(pending) == INDEX_HEAD@ + "<p>No pending OTA image.</p>"@ + INDEX_TAIL@,
{
    if let Some(p) = pending {
        let digits = decimal(p.size_bytes as nat);
        lemma_decimal_value_of_decimal(p.size_bytes as nat);
        assert(index_page(pending) =~= INDEX_HEAD@ + "<p>Pending update: <code>"@ + p.filename + "</code> ("@ + digits
            + " bytes, sha256 <code>"@ + p.sha256_hex + "</code>)</p>"@ + INDEX_TAIL@);
        assert(decimal_value(digits) == p.size_bytes);
    }
}

} // verus!
