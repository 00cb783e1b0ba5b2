//! The errors of the service and the HTTP replies that stand for them.

use crate::response_handler::HttpReply;
use vstd::prelude::*;
use vstd::string::StrSliceExecFns;
use vstd::utf8::encode_utf8;

verus! {

/// Why a request for an image could not be served.
#[derive(Debug, Clone, Copy, PartialEq, Eq, Structural)]
pub enum ErrorResponse {
    /// The origin confirmed that the image does not exist.
    ImageNotFoundError {},
    /// The bytes that were found are not an image of the expected format.
    ImageDecodeError {},
    /// The image could not be encoded or written.
    ImageWriteError {},
    /// A cache tier holds nothing for the key; the next tier is asked.
    ImageNotFoundInCacheError {},
    /// The origin could not be reached.
    UpstreamUnavailableError {},
}

pub const STATUS_NOT_FOUND: u16 = 404;

pub const STATUS_INTERNAL_SERVER_ERROR: u16 = 500;

impl ErrorResponse {
    /// The HTTP status under which the error is reported.
    pub open spec fn status_code(self) -> u16 {
        match self {
            ErrorResponse::ImageNotFoundError {} => STATUS_NOT_FOUND,
            ErrorResponse::ImageNotFoundInCacheError {} => STATUS_NOT_FOUND,
            ErrorResponse::ImageDecodeError {} => STATUS_INTERNAL_SERVER_ERROR,
            ErrorResponse::ImageWriteError {} => STATUS_INTERNAL_SERVER_ERROR,
            ErrorResponse::UpstreamUnavailableError {} => STATUS_INTERNAL_SERVER_ERROR,
        }
    }

    /// The body text of the HTTP reply. A miss in a cache tier reads like a
    /// missing image: the caller is not told which tier missed.
    pub open spec fn reply_text(self) -> Seq<char> {
        match self {
            ErrorResponse::ImageNotFoundError {} => "Image not found."@,
            ErrorResponse::ImageNotFoundInCacheError {} => "Image not found."@,
            ErrorResponse::ImageDecodeError {} => "Image could not be decoded."@,
            ErrorResponse::ImageWriteError {} => "Image could not be written."@,
            ErrorResponse::UpstreamUnavailableError {} => "Image could not be fetched."@,
        }
    }

    /// The text that describes the error in logs.
    pub open spec fn description(self) -> Seq<char> {
        match self {
            ErrorResponse::ImageNotFoundInCacheError {} => "Image not found in cache."@,
            _ => self.reply_text(),
        }
    }

    /// True for the errors that end a request; a miss in a cache tier does not.
    pub open spec fn is_terminal(self) -> bool {
        !(self is ImageNotFoundInCacheError)
    }

    /// The HTTP reply for this error: its status, no headers, and its text
    /// as the body.
    pub fn handle(&self) -> (reply: HttpReply)
        ensures
            reply.status == self.status_code(),
            reply.headers@.len() == 0,
            reply.body@ == encode_utf8(self.reply_text()),
    {
        match self {
            ErrorResponse::ImageNotFoundError {} => error_response(
                STATUS_NOT_FOUND,
                "Image not found.",
            ),
            ErrorResponse::ImageNotFoundInCacheError {} => error_response(
                STATUS_NOT_FOUND,
                "Image not found.",
            ),
            ErrorResponse::ImageDecodeError {} => error_response(
                STATUS_INTERNAL_SERVER_ERROR,
                "Image could not be decoded.",
            ),
            ErrorResponse::ImageWriteError {} => error_response(
                STATUS_INTERNAL_SERVER_ERROR,
                "Image could not be written.",
            ),
            ErrorResponse::UpstreamUnavailableError {} => error_response(
                STATUS_INTERNAL_SERVER_ERROR,
                "Image could not be fetched.",
            ),
        }
    }

    /// The description of the error, as it is written to logs.
    pub fn to_string(&self) -> (text: String)
        ensures
            text@ == self.description(),
    {
        match self {
            ErrorResponse::ImageNotFoundError {} => "Image not found.".to_owned(),
            ErrorResponse::ImageNotFoundInCacheError {} => "Image not found in cache.".to_owned(),
            ErrorResponse::ImageDecodeError {} => "Image could not be decoded.".to_owned(),
            ErrorResponse::ImageWriteError {} => "Image could not be written.".to_owned(),
            ErrorResponse::UpstreamUnavailableError {} => "Image could not be fetched.".to_owned(),
        }
    }
}

fn error_response(status_code: u16, message: &str) -> (reply: HttpReply)
    ensures
        reply.status == status_code,
        reply.headers@.len() == 0,
        reply.body@ == encode_utf8(message@),
{
    HttpReply { status: status_code, headers: Vec::new(), body: message.as_bytes_vec() }
}

} // verus!
