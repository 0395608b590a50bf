//! Byte-exact construction of the multipart/form-data request body carrying
//! the encoded image, and of the URL and filename derived from the submission
//! timestamp.
use vstd::prelude::*;

verus! {

use vstd::string::StringExecFns;
use vstd::string::StringSliceAdditionalSpecFns;
use vstd::utf8::encode_utf8;
use crate::text::dec_digits;

/// The fixed boundary token separating the parts of the request body. It is
/// shared with the `Content-Type` header and never regenerated per request.
pub const BOUNDARY: &'static str = "ZPJQvnUMIqajI5LbS8cc5w";

pub const PART_OPEN: &'static str = "--";

pub const CRLF: &'static str = "\r\n";

pub const CONTENT_TYPE_LINE: &'static str = "Content-Type: image/png\r\n";

pub const DISPOSITION_OPEN: &'static str = "Content-Disposition: form-data; name=\"encoded_image\"; ";

pub const FILENAME_OPEN: &'static str = "filename=\"";

pub const FILENAME_CLOSE: &'static str = "\"\r\n\r\n";

pub const TAIL_CLOSE: &'static str = "--\r\n";

pub const URL_PREFIX: &'static str = "https://lens.google.com/v3/upload?stcs=";

pub const FILENAME_SUFFIX: &'static str = ".png";

/// The opening delimiter line of the body: `--<BOUNDARY>\r\n`.
pub open spec fn boundary_open() -> Seq<u8> {
    encode_utf8(PART_OPEN@) + encode_utf8(BOUNDARY@) + encode_utf8(CRLF@)
}

/// The closing delimiter of the body: `--<BOUNDARY>--\r\n`.
pub open spec fn boundary_close() -> Seq<u8> {
    encode_utf8(PART_OPEN@) + encode_utf8(BOUNDARY@) + encode_utf8(TAIL_CLOSE@)
}

/// Everything of the body that precedes the raw image bytes.
pub open spec fn multipart_head(filename: Seq<char>) -> Seq<u8> {
    boundary_open() + encode_utf8(CONTENT_TYPE_LINE@) + encode_utf8(DISPOSITION_OPEN@)
        + encode_utf8(FILENAME_OPEN@) + encode_utf8(filename) + encode_utf8(FILENAME_CLOSE@)
}

/// Everything of the body that follows the raw image bytes.
pub open spec fn multipart_tail() -> Seq<u8> {
    encode_utf8(CRLF@) + boundary_close()
}

/// The whole multipart body for a file part named by `filename` holding
/// `img`: a function of those two arguments alone.
pub open spec fn multipart_bytes(filename: Seq<char>, img: Seq<u8>) -> Seq<u8> {
    multipart_head(filename) + img + multipart_tail()
}

fn push_bytes(buffer: &mut Vec<u8>, bytes: &[u8])
    ensures
        final(buffer)@ == old(buffer)@ + bytes@,
{
    let n = bytes.len();
    for i in 0..n
        invariant
            n == bytes@.len(),
            buffer@ =~= old(buffer)@ + bytes@.take(i as int),
    {
        buffer.push(bytes[i]);
    }
    proof {
        assert(buffer@ =~= old(buffer)@ + bytes@);
    }
}

/// Assembles the multipart body around the encoded image bytes. Pure byte
/// assembly: no I/O, and it cannot fail.
pub fn create_multipart_form(filename: &str, img: &[u8]) -> (r: Vec<u8>)
    ensures
        r@ == multipart_bytes(filename@, img@),
{
    let mut buffer: Vec<u8> = Vec::new();
    push_bytes(&mut buffer, PART_OPEN.as_bytes());
    push_bytes(&mut buffer, BOUNDARY.as_bytes());
    push_bytes(&mut buffer, CRLF.as_bytes());
    push_bytes(&mut buffer, CONTENT_TYPE_LINE.as_bytes());
    push_bytes(&mut buffer, DISPOSITION_OPEN.as_bytes());
    push_bytes(&mut buffer, FILENAME_OPEN.as_bytes());
    push_bytes(&mut buffer, filename.as_bytes());
    push_bytes(&mut buffer, FILENAME_CLOSE.as_bytes());
    push_bytes(&mut buffer, img);
    push_bytes(&mut buffer, CRLF.as_bytes());
    push_bytes(&mut buffer, PART_OPEN.as_bytes());
    push_bytes(&mut buffer, BOUNDARY.as_bytes());
    push_bytes(&mut buffer, TAIL_CLOSE.as_bytes());
    proof {
        assert(buffer@ =~= multipart_bytes(filename@, img@));
    }
    buffer
}

/// The multipart body is deterministic: the same filename and the same image
/// bytes give the byte-identical body.
pub proof fn lemma_multipart_deterministic(
    f1: Seq<char>,
    b1: Seq<u8>,
    f2: Seq<char>,
    b2: Seq<u8>,
)
    requires
        f1 == f2,
        b1 == b2,
    ensures
        multipart_bytes(f1, b1) == multipart_bytes(f2, b2),
{
}

/// The multipart body always starts with the opening delimiter line
/// `--<BOUNDARY>\r\n` and always ends with the closing delimiter
/// `--<BOUNDARY>--\r\n`.
pub proof fn lemma_multipart_framing(filename: Seq<char>, img: Seq<u8>)
    ensures
        multipart_bytes(filename, img).len() >= boundary_open().len() + boundary_close().len(),
        multipart_bytes(filename, img).take(boundary_open().len() as int) == boundary_open(),
        multipart_bytes(filename, img).skip(
            multipart_bytes(filename, img).len() - boundary_close().len(),
        ) == boundary_close(),
{
    let whole = multipart_bytes(filename, img);
    assert(whole.take(boundary_open().len() as int) =~= boundary_open());
    assert(whole.skip(whole.len() - boundary_close().len()) =~= boundary_close());
}

/// The query-string value and the filename stem: the submission timestamp in
/// decimal.
pub open spec fn url_spec(ts: nat) -> Seq<char> {
    URL_PREFIX@ + dec_digits(ts)
}

/// The name of the uploaded file part: the timestamp with a `.png` suffix.
pub open spec fn filename_spec(ts: nat) -> Seq<char> {
    dec_digits(ts) + FILENAME_SUFFIX@
}

/// Builds the upload URL for the given submission timestamp.
pub fn upload_url(ts: u128) -> (r: String)
    ensures
        r@ == url_spec(ts as nat),
{
    let mut s = String::from_str(URL_PREFIX);
    let digits = crate::text::decimal_string(ts);
    s.append(digits.as_str());
    s
}

/// Builds the file part's filename for the given submission timestamp.
pub fn upload_filename(ts: u128) -> (r: String)
    ensures
        r@ == filename_spec(ts as nat),
{
    let mut s = crate::text::decimal_string(ts);
    s.append(FILENAME_SUFFIX);
    s
}

} // verus!
