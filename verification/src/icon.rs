//! Icons as pixels: what is read out of an icon file before it is handed to
//! the tray.

use crate::error::{Error, ErrorView};
use vstd::prelude::*;

verus! {

/// `image::ImageError`, the reason why the `image` crate read no picture. It
/// is carried through as it is; nothing is known of what a value holds.
#[verifier::external_type_specification]
#[verifier::external_body]
pub struct ExImageError(image::ImageError);

/// The picture that the `image` crate reads out of the bytes of an icon
/// file: its pixels, four bytes each, and its width and height; `None` where
/// it reads none.
pub uninterp spec fn ico_picture(bytes: Seq<u8>) -> Option<(Seq<u8>, u32, u32)>;

/// `image::load_from_memory_with_format` for the icon file format, with the
/// picture handed back as `DynamicImage::to_rgba8` and `into_raw` give its
/// pixels and `width` and `height` its size. Nothing is claimed of which
/// bytes are an icon or of how many pixels come back: the contract only
/// names the outcome, which depends on the bytes alone.
#[verifier::external_body]
fn read_ico(bytes: &[u8]) -> (read: Result<(Vec<u8>, u32, u32), image::ImageError>)
    ensures
        read matches Ok((rgba, width, height)) ==> ico_picture(bytes@) == Some(
            (rgba@, width, height),
        ),
        read is Err ==> ico_picture(bytes@) is None,
{
    match image::load_from_memory_with_format(bytes, image::ImageFormat::Ico) {
        Ok(img) => Ok((img.to_rgba8().into_raw(), img.width(), img.height())),
        Err(error) => Err(error),
    }
}

/// Whether the bytes are the pixels of a picture of the given size: four
/// bytes for each pixel.
pub open spec fn fills(rgba: Seq<u8>, width: u32, height: u32) -> bool {
    rgba.len() == 4 * width * height
}

/// An icon as pixels: red, green, blue and alpha of each pixel, row by row.
/// The pixels always fill the size.
#[derive(Debug, PartialEq)]
pub struct IconImage {
    rgba: Vec<u8>,
    width: u32,
    height: u32,
}

impl IconImage {
    #[verifier::type_invariant]
    spec fn filled(self) -> bool {
        fills(self.rgba@, self.width, self.height)
    }

    pub closed spec fn pixels(self) -> Seq<u8> {
        self.rgba@
    }

    pub closed spec fn width(self) -> u32 {
        self.width
    }

    pub closed spec fn height(self) -> u32 {
        self.height
    }

    /// The icon of the pixels, unless they do not fill the size.
    pub fn new(rgba: Vec<u8>, width: u32, height: u32) -> (icon: Option<IconImage>)
        ensures
            !fills(rgba@, width, height) ==> icon is None,
            fills(rgba@, width, height) ==> icon is Some && icon->0.pixels() == rgba@
                && icon->0.width() == width && icon->0.height() == height,
    {
        assert(width * height <= 0xFFFF_FFFF * 0xFFFF_FFFF) by (nonlinear_arith)
            requires
                width <= 0xFFFF_FFFF,
                height <= 0xFFFF_FFFF,
        ;
        assert(4 * width * height == 4 * (width * height)) by (nonlinear_arith);
        let pixels: u64 = (width as u64) * (height as u64);
        let wanted: u128 = 4u128 * (pixels as u128);
        if rgba.len() as u128 == wanted {
            Some(IconImage { rgba, width, height })
        } else {
            None
        }
    }

    /// The pixels, the width and the height, in this order.
    pub fn into_parts(self) -> (parts: (Vec<u8>, u32, u32))
        ensures
            parts.0@ == self.pixels(),
            parts.1 == self.width(),
            parts.2 == self.height(),
            fills(parts.0@, parts.1, parts.2),
    {
        proof {
            use_type_invariant(&self);
        }
        (self.rgba, self.width, self.height)
    }
}

/// The failure for an asset that the program does not hold.
pub open spec fn not_found(path: Seq<char>) -> ErrorView {
    ErrorView::Other("Icon file "@ + path + " not found."@)
}

/// The failure for a picture whose pixels do not fill its size.
pub open spec fn ill_sized() -> ErrorView {
    ErrorView::Other("Icon pixels do not match the icon's size."@)
}

/// The icon for what was read out of an icon file: the picture, where one
/// was read and its pixels fill its size, and else the failure.
pub fn icon_from_read(read: Result<(Vec<u8>, u32, u32), image::ImageError>) -> (icon: Result<
    IconImage,
    Error,
>)
    ensures
        read matches Ok((rgba, width, height)) ==> (if fills(rgba@, width, height) {
            icon is Ok && icon->Ok_0.pixels() == rgba@ && icon->Ok_0.width() == width
                && icon->Ok_0.height() == height
        } else {
            icon is Err && icon->Err_0@ == ill_sized()
        }),
        read matches Err(error) ==> (icon matches Err(Error::Other(detail))
            && vstd::string::to_string_from_display_ensures(&error, detail)),
{
    match read {
        Ok((rgba, width, height)) => match IconImage::new(rgba, width, height) {
            Some(icon) => Ok(icon),
            None => Err(Error::other("Icon pixels do not match the icon's size.")),
        },
        Err(error) => Err(Error::Other(error.to_string())),
    }
}

/// The icon of an asset, from the asset's path and its bytes where the
/// program holds it.
pub fn get_icon(path: &str, file: Option<&[u8]>) -> (icon: Result<IconImage, Error>)
    ensures
        file is None ==> icon is Err && icon->Err_0@ == not_found(path@),
        file matches Some(bytes) ==> match ico_picture(bytes@) {
            Some((rgba, width, height)) => if fills(rgba, width, height) {
                icon is Ok && icon->Ok_0.pixels() == rgba && icon->Ok_0.width() == width
                    && icon->Ok_0.height() == height
            } else {
                icon is Err && icon->Err_0@ == ill_sized()
            },
            None => icon is Err && icon->Err_0@ is Other,
        },
{
    match file {
        Some(bytes) => icon_from_read(read_ico(bytes)),
        None => {
            let mut detail = String::from_str("Icon file ");
            detail.append(path);
            detail.append(" not found.");
            Err(Error::Other(detail))
        },
    }
}

} // verus!
