//! Checks on uploaded avatar images.

use vstd::prelude::*;
use vstd::string::StringExecFns;
use crate::form_validation::{image_file_name, matches_pattern, IMAGE_NAME_PATTERN};

verus! {

/// Largest accepted upload, in bytes.
pub const MAX_IMAGE_BYTES: usize = 5000000;

/// The image formats that an avatar may have, and everything else.
#[derive(Debug, Clone, Copy, PartialEq, Eq, Structural)]
pub enum ImageKind {
    Png,
    Jpeg,
    Gif,
    Other,
}

pub open spec fn starts_with_bytes(b: Seq<u8>, magic: Seq<u8>) -> bool {
    magic.len() <= b.len() && b.subrange(0, magic.len() as int) == magic
}

pub open spec fn png_signature() -> Seq<u8> {
    seq![0x89u8, 0x50u8, 0x4eu8, 0x47u8, 0x0du8, 0x0au8, 0x1au8, 0x0au8]
}

pub open spec fn jpeg_signature() -> Seq<u8> {
    seq![0xffu8, 0xd8u8, 0xffu8]
}

/// `GIF87a` or `GIF89a`.
pub open spec fn gif_signature(version: u8) -> Seq<u8> {
    seq![0x47u8, 0x49u8, 0x46u8, 0x38u8, version, 0x61u8]
}

/// The format that the leading bytes of an image announce.
pub open spec fn image_kind(b: Seq<u8>) -> ImageKind {
    if starts_with_bytes(b, png_signature()) {
        ImageKind::Png
    } else if starts_with_bytes(b, jpeg_signature()) {
        ImageKind::Jpeg
    } else if starts_with_bytes(b, gif_signature(0x39u8)) || starts_with_bytes(
        b,
        gif_signature(0x37u8),
    ) {
        ImageKind::Gif
    } else {
        ImageKind::Other
    }
}

/// Relies on `image::guess_format`: it compares the leading bytes with a table of
/// signatures whose first entries are PNG's, JPEG's and GIF's (87a and 89a), so
/// those three are told apart by their signatures alone; every other outcome,
/// an error included, is `Other`.
#[verifier::external_body]
fn guess_image_kind(bytes: &[u8]) -> (r: ImageKind)
    ensures
        r == image_kind(bytes@),
{
    match image::guess_format(bytes) {
        Ok(image::ImageFormat::Png) => ImageKind::Png,
        Ok(image::ImageFormat::Jpeg) => ImageKind::Jpeg,
        Ok(image::ImageFormat::Gif) => ImageKind::Gif,
        _ => ImageKind::Other,
    }
}

/// The first rule that an upload's size and declared name break, if any.
pub open spec fn upload_error(size: usize, file_name: Seq<char>) -> Option<Seq<char>> {
    if size > MAX_IMAGE_BYTES {
        Some("File size must be less than 5MB"@)
    } else if !image_file_name(file_name) {
        Some("Illegal file name"@)
    } else {
        None
    }
}

/// Checks an upload's size and declared file name, before its bytes are read.
pub fn check_image_upload(size: usize, file_name: &str) -> (r: Result<(), &'static str>)
    ensures
        (match r {
            Ok(_) => None,
            Err(m) => Some(m@),
        }) == upload_error(size, file_name@),
{
    if size > MAX_IMAGE_BYTES {
        Err("File size must be less than 5MB")
    } else if !matches_pattern(IMAGE_NAME_PATTERN, file_name) {
        Err("Illegal file name")
    } else {
        Ok(())
    }
}

/// The extension under which an image of kind `k` is stored.
pub open spec fn kind_extension(k: ImageKind) -> Option<Seq<char>> {
    match k {
        ImageKind::Png => Some("png"@),
        ImageKind::Jpeg => Some("jpeg"@),
        ImageKind::Gif => Some("gif"@),
        ImageKind::Other => None,
    }
}

/// The stored file name of `user_id`'s avatar with content `bytes`: the user id
/// with the extension of the detected format; only PNG, JPEG and GIF are taken.
pub fn avatar_file_name(user_id: &str, bytes: &[u8]) -> (r: Result<String, &'static str>)
    ensures
        kind_extension(image_kind(bytes@)) matches Some(ext) ==> (r matches Ok(name) && name@
            == user_id@ + "."@ + ext),
        kind_extension(image_kind(bytes@)) is None ==> (r matches Err(m) && m@
            == "Image must be a png, jpg or gif"@),
{
    let ext = match guess_image_kind(bytes) {
        ImageKind::Png => "png",
        ImageKind::Jpeg => "jpeg",
        ImageKind::Gif => "gif",
        ImageKind::Other => {
            return Err("Image must be a png, jpg or gif");
        },
    };
    let mut name = user_id.to_owned();
    name.append(".");
    name.append(ext);
    Ok(name)
}

} // verus!
