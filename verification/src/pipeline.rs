//! The request/response pipeline around the verified stages: building the
//! upload request from a normalized image, and judging the upstream reply.
use vstd::prelude::*;

verus! {

use crate::errors::OcrError;
use crate::extract::extraction_spec;
use crate::extract::res_text_view;
use crate::image_data::PixelImage;
use crate::image_data::png_bytes_of;
use crate::multipart::filename_spec;
use crate::multipart::multipart_bytes;
use crate::multipart::url_spec;

/// Everything the transport needs for the one HTTP POST of an invocation.
pub struct UploadRequest {
    pub url: String,
    pub filename: String,
    pub body: Vec<u8>,
}

/// Relies on `std::time::SystemTime::now`: the milliseconds elapsed since
/// the Unix epoch, or zero when the clock reads earlier than the epoch.
/// Nothing is claimed of the value: it is whatever the clock reports.
#[verifier::external_body]
pub fn get_timestamp_ms() -> u128 {
    std::time::SystemTime::now()
        .duration_since(std::time::SystemTime::UNIX_EPOCH)
        .map(|d| d.as_millis())
        .unwrap_or_default()
}

/// Builds the upload request for a normalized image and a submission
/// timestamp: the URL carries the timestamp, the body is the multipart
/// form around the PNG encoding of the image, and the file part is named
/// by the timestamp. Only the PNG encoder can refuse, and it does so only
/// for an image without pixels: any image with at least one pixel uploads.
pub fn prepare_upload(img: &PixelImage, ts: u128) -> (r: Result<UploadRequest, OcrError>)
    requires
        img.wf(),
    ensures
        match r {
            Ok(req) => {
                &&& req.url@ == url_spec(ts as nat)
                &&& req.filename@ == filename_spec(ts as nat)
                &&& req.body@ == multipart_bytes(
                    filename_spec(ts as nat),
                    png_bytes_of(img.width as nat, img.height as nat, img.bytes@),
                )
            },
            Err(e) => e == OcrError::Encode && (img.width == 0 || img.height == 0),
        },
        img.width >= 1 && img.height >= 1 ==> r is Ok,
{
    let encoded = match crate::image_data::encode_image(img) {
        Ok(b) => b,
        Err(e) => return Err(e),
    };
    let filename = crate::multipart::upload_filename(ts);
    let url = crate::multipart::upload_url(ts);
    let body = crate::multipart::create_multipart_form(filename.as_str(), encoded.as_slice());
    Ok(UploadRequest { url, filename, body })
}

/// Judges the upstream reply: any status other than 200 fails with that
/// status and the body is not looked at; on 200 the body text goes through
/// the extraction, whose outcome is a function of that text alone.
pub fn process_response(status: u16, body: &str) -> (r: Result<String, OcrError>)
    ensures
        status != 200 ==> r == Err::<String, OcrError>(OcrError::UpstreamStatus(status)),
        status == 200 ==> res_text_view(r) == extraction_spec(body@),
{
    if status != 200 {
        return Err(OcrError::UpstreamStatus(status));
    }
    crate::extract::extract_payload_text(body)
}

} // verus!
