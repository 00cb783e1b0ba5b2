//! One request from the bytes that were retrieved to the image that is sent:
//! decode, resize where a size is asked for, encode, and time each stage.

use crate::dimension::{decode, decoded, Dimension};
use crate::error::ErrorResponse;
use crate::format::{format_from_path, resolved_format, ExtensionProvider};
use crate::image_service::{decode_image, encode_image, try_resize_image};
use crate::server_timing::timing::{whole_millis, Timing};
use crate::server_timing::ServerTiming;
use crate::text::decimal_digits;
use std::time::{Duration, Instant};
use vstd::prelude::*;

verus! {

/// A reading of the monotonic clock.
#[verifier::external_type_specification]
#[verifier::external_body]
pub struct ExInstant(Instant);

/// `Instant::now` reads the monotonic clock: nothing is known of the reading.
pub assume_specification[ Instant::now ]() -> (now: Instant);

/// `Instant::elapsed` reads the clock again: nothing is known of the time
/// that has passed.
pub assume_specification[ Instant::elapsed ](start: &Instant) -> (elapsed: Duration);

/// An image that is ready to be sent, with what the reply says about it.
#[derive(Debug)]
pub struct ImageData {
    pub body: Vec<u8>,
    pub server_timing: ServerTiming,
    /// The suffix of the media type, such as `/png`.
    pub format_extension: String,
    pub content_length: u64,
}

pub type InternalResponse = Result<ImageData, ErrorResponse>;

/// The size that a request asks for: the one that its query spells, and
/// none where there is no query or the query spells none.
pub open spec fn requested(opt_query: Option<Seq<char>>) -> Option<Dimension> {
    match opt_query {
        Some(query) => match decoded(query) {
            Ok(dimension) => Some(dimension),
            Err(_) => None,
        },
        None => None,
    }
}

pub open spec fn query_view(opt_query: Option<&str>) -> Option<Seq<char>> {
    match opt_query {
        Some(query) => Some(query@),
        None => None,
    }
}

/// The size that a request asks for, if it asks for one.
pub fn requested_dimension(opt_query: Option<&str>) -> (dimension: Option<Dimension>)
    ensures
        dimension == requested(query_view(opt_query)),
{
    match opt_query {
        Some(query) => match decode(query) {
            Ok(dimension) => Some(dimension),
            Err(_) => None,
        },
        None => None,
    }
}

/// Whether `timing` reports `duration` under `name`, without a description.
pub open spec fn reports(timing: Timing, name: Seq<char>, duration: Duration) -> bool {
    &&& timing.name@ == name
    &&& timing.duration@ == decimal_digits(whole_millis(duration) as nat)
    &&& timing.description is None
}

/// The timings of the three stages of a request, in their order: `dec` for
/// fetching and decoding, `res` for resizing, `enc` for encoding.
pub fn stage_timings(decoding: Duration, resizing: Duration, encoding: Duration) -> (server_timing:
    ServerTiming)
    ensures
        server_timing@.len() == 3,
        reports(server_timing@[0], "dec"@, decoding),
        reports(server_timing@[1], "res"@, resizing),
        reports(server_timing@[2], "enc"@, encoding),
{
    let mut timings: Vec<Timing> = Vec::new();
    timings.push(Timing::new("dec", decoding, None));
    timings.push(Timing::new("res", resizing, None));
    timings.push(Timing::new("enc", encoding, None));
    ServerTiming::new(timings)
}

/// Turns the bytes that were retrieved for `path` into the image to send.
/// `decoding_timer` was started when the request came in, so that the first
/// stage counts the retrieval too.
///
/// Whether the bytes decode and the image encodes is the codec library's to
/// say, and how long the stages take is the clock's. Whatever they say: a
/// failure is a decode error or a write error; an image that is sent is
/// announced in the format that the path names, with the number of its bytes
/// and the timings of the three stages.
pub fn process_resize(
    path: &str,
    opt_query: Option<&str>,
    image_bytes: Vec<u8>,
    decoding_timer: Instant,
) -> (response: InternalResponse)
    ensures
        match response {
            Ok(data) => {
                &&& data.format_extension@ == resolved_format(path@).format_extension()
                &&& data.content_length == data.body@.len()
                &&& data.server_timing@.len() == 3
                &&& data.server_timing@[0].name@ == "dec"@
                &&& data.server_timing@[1].name@ == "res"@
                &&& data.server_timing@[2].name@ == "enc"@
            },
            Err(error) => error == (ErrorResponse::ImageDecodeError {}) || error == (
                ErrorResponse::ImageWriteError {}
            ),
        },
{
    let opt_dimension = requested_dimension(opt_query);
    let format = format_from_path(path);
    let image = match decode_image(image_bytes, format) {
        Ok(image) => image,
        Err(error) => {
            return Err(error);
        },
    };
    let decoding = decoding_timer.elapsed();

    let resizing_timer = Instant::now();
    let new_image = match opt_dimension {
        Some(dimension) => match try_resize_image(dimension, image) {
            Some(resized) => resized,
            None => {
                return Err(ErrorResponse::ImageWriteError {});
            },
        },
        None => image,
    };
    let resizing = resizing_timer.elapsed();

    let encoding_timer = Instant::now();
    let (body, content_length) = match encode_image(new_image, format) {
        Ok(encoded) => encoded,
        Err(error) => {
            return Err(error);
        },
    };
    let encoding = encoding_timer.elapsed();

    Ok(
        ImageData {
            body,
            server_timing: stage_timings(decoding, resizing, encoding),
            format_extension: format.get_format_extension(),
            content_length,
        },
    )
}

} // verus!
