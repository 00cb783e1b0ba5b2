//! Image container formats: how a resource key names one, and the extension
//! under which a format is announced.

use vstd::prelude::*;

verus! {

/// The codec library's enumeration of image formats, with its variants.
#[verifier::external_type_specification]
pub struct ExImageFormat(image::ImageFormat);

/// The format that `image::ImageFormat::from_path` reads off the extension of
/// a path; `None` where the path has no extension or the codec library does
/// not know it.
pub uninterp spec fn format_by_extension(path: Seq<char>) -> Option<image::ImageFormat>;

/// Calls `image::ImageFormat::from_path`, which decides by the text of the
/// path alone, read by the path rules of the platform. `Some` holds the
/// format it returned, `None` stands for its error.
#[verifier::external_body]
fn path_format(path: &str) -> (format: Option<image::ImageFormat>)
    ensures
        format == format_by_extension(path@),
{
    image::ImageFormat::from_path(path).ok()
}

/// The extensions that the codec library lists for a format, the preferred
/// one first.
#[allow(deprecated)]
pub open spec fn known_extensions(format: image::ImageFormat) -> Seq<Seq<char>> {
    match format {
        image::ImageFormat::Png => seq!["png"@],
        image::ImageFormat::Jpeg => seq!["jpg"@, "jpeg"@],
        image::ImageFormat::Gif => seq!["gif"@],
        image::ImageFormat::WebP => seq!["webp"@],
        image::ImageFormat::Pnm => seq!["pbm"@, "pam"@, "ppm"@, "pgm"@, "pnm"@],
        image::ImageFormat::Tiff => seq!["tiff"@, "tif"@],
        image::ImageFormat::Tga => seq!["tga"@],
        image::ImageFormat::Dds => seq!["dds"@],
        image::ImageFormat::Bmp => seq!["bmp"@],
        image::ImageFormat::Ico => seq!["ico"@],
        image::ImageFormat::Hdr => seq!["hdr"@],
        image::ImageFormat::OpenExr => seq!["exr"@],
        image::ImageFormat::Farbfeld => seq!["ff"@],
        image::ImageFormat::Avif => seq!["avif"@],
        image::ImageFormat::Qoi => seq!["qoi"@],
        image::ImageFormat::Pcx => seq!["pcx"@],
        // the arms above name every format that the codec library has
        _ => Seq::empty(),
    }
}

/// `image::ImageFormat::extensions_str` returns a fixed list for each format:
/// the one that `known_extensions` writes out.
pub assume_specification[ image::ImageFormat::extensions_str ](
    format: image::ImageFormat,
) -> (extensions: &'static [&'static str])
    ensures
        extensions@.len() == known_extensions(format).len(),
        forall|i: int|
            0 <= i < extensions@.len() ==> (#[trigger] extensions@[i])@ == known_extensions(
                format,
            )[i],
;

/// The format to assume for a key whose extension named `named`: that format,
/// and JPEG where the extension named none.
pub open spec fn default_to_jpeg(named: Option<image::ImageFormat>) -> image::ImageFormat {
    match named {
        Some(format) => format,
        None => image::ImageFormat::Jpeg,
    }
}

/// The format of the image behind a key: the one its extension names, and
/// JPEG where the extension is missing or unknown.
pub open spec fn resolved_format(path: Seq<char>) -> image::ImageFormat {
    default_to_jpeg(format_by_extension(path))
}

/// The format to assume when the extension of a key named `named`.
pub fn format_or_default(named: Option<image::ImageFormat>) -> (format: image::ImageFormat)
    ensures
        format == default_to_jpeg(named),
{
    match named {
        Some(format) => format,
        None => image::ImageFormat::Jpeg,
    }
}

/// The format of the image behind `path`, read off its extension; JPEG where
/// the extension is missing or unknown.
pub fn format_from_path(path: &str) -> (format: image::ImageFormat)
    ensures
        format == resolved_format(path@),
{
    format_or_default(path_format(path))
}

/// The suffix that announces a format after the media type `image`: a slash
/// and the first of the format's extensions, or nothing where it has none.
pub open spec fn slash_extension(extensions: Seq<Seq<char>>) -> Seq<char> {
    if extensions.len() > 0 {
        seq!['/'] + extensions[0]
    } else {
        Seq::empty()
    }
}

pub trait ExtensionProvider {
    /// The suffix that `get_format_extension` returns.
    spec fn format_extension(&self) -> Seq<char>;

    fn get_format_extension(&self) -> (extension: String)
        ensures
            extension@ == self.format_extension(),
    ;
}

impl ExtensionProvider for image::ImageFormat {
    open spec fn format_extension(&self) -> Seq<char> {
        slash_extension(known_extensions(*self))
    }

    fn get_format_extension(&self) -> (extension: String) {
        let extensions = self.extensions_str();
        if extensions.len() > 0 {
            proof {
                reveal_strlit("/");
            }
            let mut extension = String::from_str("/");
            extension.append(extensions[0]);
            assert(extension@ =~= seq!['/'] + known_extensions(*self)[0]);
            extension
        } else {
            String::new()
        }
    }
}

} // verus!
