use vstd::prelude::*;

verus! {

use vstd::string::StringExecFns;

/// Every failure the pipeline can surface. Each invocation either yields the
/// recognized text or exactly one of these; there is no recovery path.
#[derive(Clone, Copy, Debug, PartialEq, Eq, Structural)]
pub enum OcrError {
    /// The image file could not be read or decoded.
    ImageDecode,
    /// The clipboard holds no image data.
    ClipboardEmpty,
    /// The platform clipboard could not be opened for reading.
    ClipboardRead,
    /// The result text could not be written to the clipboard.
    ClipboardWrite,
    /// A pixel buffer did not match its declared dimensions.
    BufferSize,
    /// The PNG encoder rejected the pixel buffer.
    Encode,
    /// The request could not be sent or answered.
    Transport,
    /// The service answered with a status other than 200.
    UpstreamStatus(u16),
    /// The response text holds no recognizable payload.
    PayloadNotFound,
    /// The payload was found but is not well-formed relaxed JSON.
    PayloadParse,
    /// The parsed payload does not have the expected nested-array shape.
    PayloadShape,
}

impl OcrError {
    /// The text that each failure surfaces: what operation was being
    /// attempted, with the status code spelled out for an upstream error.
    pub open spec fn message_spec(&self) -> Seq<char> {
        match self {
            OcrError::ImageDecode => "Could not open image"@,
            OcrError::ClipboardEmpty => "clipboard has no image"@,
            OcrError::ClipboardRead => "Could not open clipboard"@,
            OcrError::ClipboardWrite => "Could not set clipboard contents"@,
            OcrError::BufferSize => "image buffer does not match its dimensions"@,
            OcrError::Encode => "Could not encode image as PNG"@,
            OcrError::Transport => "Could not reach the OCR service"@,
            OcrError::UpstreamStatus(status) => "Google responded with "@ + crate::text::dec_digits(
                *status as nat,
            ),
            OcrError::PayloadNotFound => "Could not find object data"@,
            OcrError::PayloadParse => "Could not parse object data"@,
            OcrError::PayloadShape => "Could not find OCR data"@,
        }
    }

    /// The human-readable account of the operation that failed, surfaced to
    /// the invoking user.
    pub fn message(&self) -> (r: String)
        ensures
            r@ == self.message_spec(),
    {
        match self {
            OcrError::ImageDecode => String::from_str("Could not open image"),
            OcrError::ClipboardEmpty => String::from_str("clipboard has no image"),
            OcrError::ClipboardRead => String::from_str("Could not open clipboard"),
            OcrError::ClipboardWrite => String::from_str("Could not set clipboard contents"),
            OcrError::BufferSize => String::from_str("image buffer does not match its dimensions"),
            OcrError::Encode => String::from_str("Could not encode image as PNG"),
            OcrError::Transport => String::from_str("Could not reach the OCR service"),
            OcrError::UpstreamStatus(status) => {
                let mut m = String::from_str("Google responded with ");
                let digits = crate::text::decimal_string(*status as u128);
                m.append(digits.as_str());
                m
            },
            OcrError::PayloadNotFound => String::from_str("Could not find object data"),
            OcrError::PayloadParse => String::from_str("Could not parse object data"),
            OcrError::PayloadShape => String::from_str("Could not find OCR data"),
        }
    }
}

} // verus!
