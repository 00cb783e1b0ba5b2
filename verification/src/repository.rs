//! The tiers behind the memory cache: what they have in common, and where
//! each keeps the image of a key.

use crate::error::ErrorResponse;
use vstd::prelude::*;

verus! {

/// A source of image bytes by key: the durable mirror, the origin.
pub trait ImageRepository {
    fn read_image(&self, path: &str) -> Result<Vec<u8>, ErrorResponse>;
}

/// The directory under which the durable mirror keeps its files.
pub const ROOT_PATH: &'static str = "/mnt/shared-cache";

/// The address under which the origin keeps its objects.
pub const BUCKET_URL: &'static str = "https://storage.googleapis.com/image-resizer_europe-west1";

/// The file in which the durable mirror keeps the image of `path`: the key
/// as it is, under the mirror's root.
pub fn full_path(path: &str) -> (file: String)
    ensures
        file@ == ROOT_PATH@ + path@,
{
    let mut file = ROOT_PATH.to_owned();
    file.append(path);
    file
}

/// The address from which the origin serves the image of `path`.
pub fn bucket_url(path: &str) -> (url: String)
    ensures
        url@ == BUCKET_URL@ + path@,
{
    let mut url = BUCKET_URL.to_owned();
    url.append(path);
    url
}

pub const HTTP_NOT_FOUND: u16 = 404;

/// What an answer of the origin means: a status of success carries the
/// image; the status `404` says that the image does not exist; with any
/// other status the origin has not answered the question.
pub open spec fn fetched(status: u16, body: Seq<u8>) -> Result<Seq<u8>, ErrorResponse> {
    if 200 <= status <= 299 {
        Ok(body)
    } else if status == HTTP_NOT_FOUND {
        Err(ErrorResponse::ImageNotFoundError {})
    } else {
        Err(ErrorResponse::UpstreamUnavailableError {})
    }
}

/// Reads the answer of the origin.
pub fn bucket_response(status: u16, body: Vec<u8>) -> (image: Result<Vec<u8>, ErrorResponse>)
    ensures
        match fetched(status, body@) {
            Ok(bytes) => image is Ok && image->Ok_0 == body,
            Err(error) => image == Err::<Vec<u8>, ErrorResponse>(error),
        },
{
    if 200 <= status && status <= 299 {
        Ok(body)
    } else if status == HTTP_NOT_FOUND {
        Err(ErrorResponse::ImageNotFoundError {})
    } else {
        Err(ErrorResponse::UpstreamUnavailableError {})
    }
}

} // verus!
