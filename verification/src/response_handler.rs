//! From the outcome of a request to the HTTP reply that answers it.

use crate::error::ErrorResponse;
use crate::server_timing::listed;
use crate::service::{ImageData, InternalResponse};
use crate::text::{decimal_digits, decimal_text};
use vstd::prelude::*;

verus! {

/// An HTTP reply in plain values.
#[derive(Debug)]
pub struct HttpReply {
    pub status: u16,
    /// The headers, each a name and a value, in the order in which they
    /// were set.
    pub headers: Vec<(String, String)>,
    pub body: Vec<u8>,
}

pub const STATUS_OK: u16 = 200;

/// The number of bytes of an image that go into one frame of the body.
pub const BODY_FRAME_BYTES: usize = 8192;

/// A list of headers, each taken as the text of its name and of its value.
pub open spec fn header_texts(headers: Seq<(String, String)>) -> Seq<(Seq<char>, Seq<char>)> {
    headers.map_values(|header: (String, String)| (header.0@, header.1@))
}

/// The headers that go with an image: its media type, the timings of the
/// request, leave to cache it for a year, and its length in bytes.
pub open spec fn image_headers(
    format_extension: Seq<char>,
    server_timing: Seq<char>,
    content_length: u64,
) -> Seq<(Seq<char>, Seq<char>)> {
    seq![
        ("content-type"@, "image"@ + format_extension),
        ("server-timing"@, server_timing),
        ("cache-control"@, "max-age=31536000"@),
        ("content-length"@, decimal_digits(content_length as nat)),
    ]
}

/// The value of the `traceresponse` header for a span: version `00`, then the
/// trace, the span and the flags, with hyphens between them.
pub open spec fn trace_response_text(
    trace_id: Seq<char>,
    span_id: Seq<char>,
    trace_flags: Seq<char>,
) -> Seq<char> {
    "00-"@ + trace_id + "-"@ + span_id + "-"@ + trace_flags
}

/// The value of the `traceresponse` header for the span with these ids.
pub fn trace_response(trace_id: &str, span_id: &str, trace_flags: &str) -> (value: String)
    ensures
        value@ == trace_response_text(trace_id@, span_id@, trace_flags@),
{
    let mut value = "00-".to_owned();
    value.append(trace_id);
    value.append("-");
    value.append(span_id);
    value.append("-");
    value.append(trace_flags);
    value
}

fn header(name: &str, value: String) -> (header: (String, String))
    ensures
        header.0@ == name@,
        header.1@ == value@,
{
    (name.to_owned(), value)
}

/// The reply to a request: the image with its headers, or the reply that
/// stands for the error.
pub fn transform(response: InternalResponse) -> (reply: HttpReply)
    requires
        response is Ok ==> response->Ok_0.server_timing@.len() > 0,
    ensures
        match response {
            Ok(data) => {
                &&& reply.status == STATUS_OK
                &&& header_texts(reply.headers@) == image_headers(
                    data.format_extension@,
                    listed(data.server_timing@),
                    data.content_length,
                )
                &&& reply.body == data.body
            },
            Err(error) => {
                &&& reply.status == error.status_code()
                &&& reply.headers@.len() == 0
                &&& reply.body@ == vstd::utf8::encode_utf8(error.reply_text())
            },
        },
{
    match response {
        Ok(ImageData { body, server_timing, format_extension, content_length }) => {
            let mut media_type = "image".to_owned();
            media_type.append(format_extension.as_str());
            let mut headers: Vec<(String, String)> = Vec::new();
            headers.push(header("content-type", media_type));
            headers.push(header("server-timing", server_timing.to_string()));
            headers.push(header("cache-control", "max-age=31536000".to_owned()));
            headers.push(header("content-length", decimal_text(content_length as u128)));
            assert(header_texts(headers@) =~= image_headers(
                format_extension@,
                listed(server_timing@),
                content_length,
            ));
            HttpReply { status: STATUS_OK, headers, body }
        },
        Err(e) => e.handle(),
    }
}

} // verus!
