//! Custom cursors and the images they are made of.

use crate::time::Duration;
use vstd::prelude::*;

verus! {

/// The largest width and height of a cursor image, in pixels.
pub const MAX_CURSOR_SIZE: u16 = 2048;

/// Bytes in one pixel of a cursor image.
pub const PIXEL_SIZE: usize = 4;

/// Why bytes are no cursor image.
#[derive(Debug, Copy, Clone, PartialEq, Eq, Structural)]
#[allow(inconsistent_fields)]
pub enum BadImage {
    /// The image is wider or higher than a cursor may be.
    TooLarge { width: u16, height: u16 },
    /// The bytes do not make whole pixels.
    ByteCountNotDivisibleBy4 { byte_count: usize },
    /// The bytes do not make as many pixels as the dimensions ask for.
    DimensionsVsPixelCount { width: u16, height: u16, width_x_height: u64, pixel_count: u64 },
    /// The hotspot lies outside the image.
    HotspotOutOfBounds { width: u16, height: u16, hotspot_x: u16, hotspot_y: u16 },
}

/// A cursor image: four bytes a pixel, row by row, and the pixel that points.
#[derive(Debug, Clone, PartialEq, Eq)]
pub struct CursorImage {
    pub rgba: Vec<u8>,
    pub width: u16,
    pub height: u16,
    pub hotspot_x: u16,
    pub hotspot_y: u16,
}

/// What is wrong with `byte_count` bytes as an image of the given dimensions and
/// hotspot, if anything is. The first fault in this order is reported: the size, the
/// byte count, the pixel count, the hotspot.
pub open spec fn image_fault(
    byte_count: usize,
    width: u16,
    height: u16,
    hotspot_x: u16,
    hotspot_y: u16,
) -> Option<BadImage> {
    if width > MAX_CURSOR_SIZE || height > MAX_CURSOR_SIZE {
        Some(BadImage::TooLarge { width, height })
    } else if byte_count % PIXEL_SIZE != 0 {
        Some(BadImage::ByteCountNotDivisibleBy4 { byte_count })
    } else if byte_count / PIXEL_SIZE != width * height {
        Some(
            BadImage::DimensionsVsPixelCount {
                width,
                height,
                width_x_height: (width * height) as u64,
                pixel_count: (byte_count / PIXEL_SIZE) as u64,
            },
        )
    } else if hotspot_x >= width || hotspot_y >= height {
        Some(BadImage::HotspotOutOfBounds { width, height, hotspot_x, hotspot_y })
    } else {
        None
    }
}

impl CursorImage {
    /// Makes a cursor image of `rgba`, or says what is wrong with it.
    pub fn from_rgba(rgba: Vec<u8>, width: u16, height: u16, hotspot_x: u16, hotspot_y: u16) -> (r:
        Result<CursorImage, BadImage>)
        ensures
            match image_fault(rgba@.len() as usize, width, height, hotspot_x, hotspot_y) {
                Some(fault) => r == Err::<CursorImage, BadImage>(fault),
                None => r == Ok::<CursorImage, BadImage>(
                    CursorImage { rgba, width, height, hotspot_x, hotspot_y },
                ),
            },
    {
        if width > MAX_CURSOR_SIZE || height > MAX_CURSOR_SIZE {
            return Err(BadImage::TooLarge { width, height });
        }
        if rgba.len() % PIXEL_SIZE != 0 {
            return Err(BadImage::ByteCountNotDivisibleBy4 { byte_count: rgba.len() });
        }
        let pixel_count = (rgba.len() / PIXEL_SIZE) as u64;
        assert(width * height <= 2048 * 2048) by (nonlinear_arith)
            requires
                width <= 2048,
                height <= 2048,
        ;
        let width_x_height = width as u64 * height as u64;
        if pixel_count != width_x_height {
            return Err(
                BadImage::DimensionsVsPixelCount { width, height, width_x_height, pixel_count },
            );
        }
        if hotspot_x >= width || hotspot_y >= height {
            return Err(BadImage::HotspotOutOfBounds { width, height, hotspot_x, hotspot_y });
        }
        Ok(CursorImage { rgba, width, height, hotspot_x, hotspot_y })
    }
}

/// A custom cursor as this platform holds it: nothing.
#[derive(Clone, Copy, Debug, Eq, Hash, PartialEq, Structural)]
pub struct PlatformCustomCursor;

/// A custom cursor that is still being made.
#[derive(Debug)]
pub struct CustomCursorFuture {}

/// A cursor with an image of the application's own.
#[derive(Clone, Copy, Debug, Eq, Hash, PartialEq, Structural)]
pub struct CustomCursor {
    pub inner: PlatformCustomCursor,
}

/// What a custom cursor is made from.
#[derive(Debug)]
#[allow(inconsistent_fields)]
pub enum PlatformCustomCursorSource {
    Image(CursorImage),
    Url { url: String, hotspot_x: u16, hotspot_y: u16 },
    Animation { duration: Duration, cursors: Vec<CustomCursor> },
}

impl PlatformCustomCursorSource {
    /// The source of a cursor with the image `rgba`, or what is wrong with the image.
    pub fn from_rgba(rgba: Vec<u8>, width: u16, height: u16, hotspot_x: u16, hotspot_y: u16) -> (r:
        Result<PlatformCustomCursorSource, BadImage>)
        ensures
            match image_fault(rgba@.len() as usize, width, height, hotspot_x, hotspot_y) {
                Some(fault) => r == Err::<PlatformCustomCursorSource, BadImage>(fault),
                None => r == Ok::<PlatformCustomCursorSource, BadImage>(
                    PlatformCustomCursorSource::Image(
                        CursorImage { rgba, width, height, hotspot_x, hotspot_y },
                    ),
                ),
            },
    {
        match CursorImage::from_rgba(rgba, width, height, hotspot_x, hotspot_y) {
            Ok(image) => Ok(PlatformCustomCursorSource::Image(image)),
            Err(fault) => Err(fault),
        }
    }
}

/// What a custom cursor is made from.
#[derive(Debug)]
pub struct CustomCursorSource {
    pub inner: PlatformCustomCursorSource,
}

/// The cursors that every platform draws.
#[derive(Debug, Copy, Clone, PartialEq, Eq, Hash, Structural)]
pub enum CursorIcon {
    Default,
    Pointer,
    Text,
    Crosshair,
    Wait,
    Help,
    Move,
    NotAllowed,
    Grab,
    Grabbing,
}

/// The cursor of a window.
#[derive(Clone, Copy, Debug, Eq, PartialEq, Structural)]
pub enum Cursor {
    Icon(CursorIcon),
    Custom(CustomCursor),
}

} // verus!
