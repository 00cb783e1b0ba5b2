//! The size that a request asks for, read from its query string.

use crate::error::ErrorResponse;
use crate::text::{chars_of, parse_u32, parsed_u32, same_text, split, split_chars, texts};
use vstd::prelude::*;

verus! {

/// The one side of the image that the request fixes; the other follows from
/// the proportions of the source.
#[derive(Debug, Clone, Copy, PartialEq, Eq, Structural)]
pub enum Dimension {
    Height(u32),
    Width(u32),
}

/// How `product` divides by `base`, rounded down. Dividing by nothing has no
/// bound: the largest side stands for it, and nothing out of nothing is nothing.
pub open spec fn ratio(product: u32, base: u32) -> u32 {
    if base > 0 {
        product / base
    } else if product > 0 {
        u32::MAX
    } else {
        0
    }
}

impl Dimension {
    /// Whether the size of the resized image can be worked out for a source
    /// of the given size: the wanted side times the other side of the source
    /// must fit in 32 bits.
    pub open spec fn fits(self, src_width: u32, src_height: u32) -> bool {
        match self {
            Dimension::Width(new_width) => new_width * src_height <= u32::MAX,
            Dimension::Height(new_height) => new_height * src_width <= u32::MAX,
        }
    }

    /// The width and height of the resized image: the wanted side as it is
    /// asked for, the other in the proportions of the source, rounded down.
    pub open spec fn target(self, src_width: u32, src_height: u32) -> (u32, u32) {
        match self {
            Dimension::Width(new_width) => (
                new_width,
                ratio((new_width * src_height) as u32, src_width),
            ),
            Dimension::Height(new_height) => (
                ratio((new_height * src_width) as u32, src_height),
                new_height,
            ),
        }
    }

    /// The width and height to which a source of the given size is resized,
    /// or `None` where the size cannot be worked out.
    pub fn target_size(&self, src_width: u32, src_height: u32) -> (size: Option<(u32, u32)>)
        ensures
            size == if self.fits(src_width, src_height) {
                Some(self.target(src_width, src_height))
            } else {
                None::<(u32, u32)>
            },
    {
        match *self {
            Dimension::Width(new_width) => match new_width.checked_mul(src_height) {
                Some(product) => Some((new_width, divide(product, src_width))),
                None => None,
            },
            Dimension::Height(new_height) => match new_height.checked_mul(src_width) {
                Some(product) => Some((divide(product, src_height), new_height)),
                None => None,
            },
        }
    }
}

fn divide(product: u32, base: u32) -> (quotient: u32)
    ensures
        quotient == ratio(product, base),
{
    if base > 0 {
        product / base
    } else if product > 0 {
        u32::MAX
    } else {
        0
    }
}

/// A piece of a query is a parameter if it holds exactly one equals sign:
/// the name stands before it and the value after it.
pub open spec fn pair_of(piece: Seq<char>) -> Option<(Seq<char>, Seq<char>)> {
    let parts = split(piece, '=');
    if parts.len() == 2 {
        Some((parts[0], parts[1]))
    } else {
        None
    }
}

/// The value of the parameter `name` among `pieces`. Where several pieces
/// carry the name, the last one counts.
pub open spec fn parameter(pieces: Seq<Seq<char>>, name: Seq<char>) -> Option<Seq<char>>
    decreases pieces.len(),
{
    if pieces.len() == 0 {
        None
    } else {
        match pair_of(pieces.last()) {
            Some((key, value)) if key == name => Some(value),
            _ => parameter(pieces.drop_last(), name),
        }
    }
}

/// The size that the text of a wanted side spells.
pub open spec fn sized(value: Seq<char>, width: bool) -> Result<Dimension, ErrorResponse> {
    match parsed_u32(value) {
        Some(side) => Ok(
            if width {
                Dimension::Width(side)
            } else {
                Dimension::Height(side)
            },
        ),
        None => Err(ErrorResponse::ImageWriteError {}),
    }
}

/// What a query asks for. Its pieces stand between ampersands. The
/// parameter `width` decides where it is present, even where its value is no
/// number; `height` is read only where there is no `width`. A query with
/// neither is an error.
pub open spec fn decoded(query: Seq<char>) -> Result<Dimension, ErrorResponse> {
    let pieces = split(query, '&');
    match parameter(pieces, "width"@) {
        Some(value) => sized(value, true),
        None => match parameter(pieces, "height"@) {
            Some(value) => sized(value, false),
            None => Err(ErrorResponse::ImageWriteError {}),
        },
    }
}

/// Reads the wanted size from a query string such as `width=300`.
pub fn decode(query: &str) -> (dimension: Result<Dimension, ErrorResponse>)
    ensures
        dimension == decoded(query@),
{
    let chars = chars_of(query);
    let pieces = split_chars(&chars, '&');
    let mut opt_width: Option<Vec<char>> = None;
    let mut opt_height: Option<Vec<char>> = None;
    let mut i: usize = 0;
    while i < pieces.len()
        invariant
            i <= pieces.len(),
            value_view(opt_width) == parameter(texts(pieces@).take(i as int), "width"@),
            value_view(opt_height) == parameter(texts(pieces@).take(i as int), "height"@),
        decreases pieces.len() - i,
    {
        let ghost seen = texts(pieces@).take(i as int);
        let ghost more = texts(pieces@).take(i + 1);
        proof {
            assert(more.drop_last() =~= seen);
            assert(more.last() == pieces@[i as int]@);
            reveal_strlit("width");
            reveal_strlit("height");
            assert("width"@.len() != "height"@.len());
        }
        let mut some = split_chars(&pieces[i], '=');
        if some.len() == 2 {
            assert(texts(some@)[0] == some@[0]@);
            assert(texts(some@)[1] == some@[1]@);
            let value = some.pop().unwrap();
            let name = some.pop().unwrap();
            if same_text(&name, "width") {
                opt_width = Some(value);
            } else if same_text(&name, "height") {
                opt_height = Some(value);
            }
        }
        i += 1;
    }
    proof {
        assert(texts(pieces@).take(pieces.len() as int) =~= texts(pieces@));
    }
    match opt_width {
        Some(w) => match parse_u32(&w) {
            Some(a) => Ok(Dimension::Width(a)),
            None => Err(ErrorResponse::ImageWriteError {}),
        },
        None => match opt_height {
            Some(h) => match parse_u32(&h) {
                Some(a) => Ok(Dimension::Height(a)),
                None => Err(ErrorResponse::ImageWriteError {}),
            },
            None => Err(ErrorResponse::ImageWriteError {}),
        },
    }
}

pub open spec fn value_view(value: Option<Vec<char>>) -> Option<Seq<char>> {
    match value {
        Some(chars) => Some(chars@),
        None => None,
    }
}

} // verus!
