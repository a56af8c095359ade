use deft_winit::cursor::{
    BadImage, CursorImage, PlatformCustomCursor, PlatformCustomCursorSource, MAX_CURSOR_SIZE,
};
use deft_winit::event_loop::ActiveEventLoop;
use deft_winit::window::{CustomCursor, CustomCursorSource};

#[test]
fn a_well_formed_image_is_accepted() {
    let rgba: Vec<u8> = (0..24).collect();
    assert_eq!(
        CursorImage::from_rgba(rgba.clone(), 3, 2, 2, 1),
        Ok(CursorImage { rgba: rgba.clone(), width: 3, height: 2, hotspot_x: 2, hotspot_y: 1 })
    );
    match PlatformCustomCursorSource::from_rgba(rgba.clone(), 2, 3, 0, 0) {
        Ok(PlatformCustomCursorSource::Image(image)) => {
            assert_eq!(
                image,
                CursorImage { rgba, width: 2, height: 3, hotspot_x: 0, hotspot_y: 0 }
            );
        }
        other => panic!("not an image: {:?}", other),
    }
}

#[test]
fn an_image_that_is_too_large_is_refused_first() {
    assert_eq!(MAX_CURSOR_SIZE, 2048);
    assert_eq!(
        CursorImage::from_rgba(vec![0; 3], 2049, 1, 5000, 5000),
        Err(BadImage::TooLarge { width: 2049, height: 1 })
    );
    assert_eq!(
        CursorImage::from_rgba(vec![0; 4], 1, 2049, 0, 0),
        Err(BadImage::TooLarge { width: 1, height: 2049 })
    );
    assert!(matches!(
        PlatformCustomCursorSource::from_rgba(vec![0; 4], 1, u16::MAX, 0, 0),
        Err(BadImage::TooLarge { width: 1, height: u16::MAX })
    ));
}

#[test]
fn bytes_that_make_no_whole_pixels_are_refused() {
    assert_eq!(
        CursorImage::from_rgba(vec![0; 7], 1, 1, 0, 0),
        Err(BadImage::ByteCountNotDivisibleBy4 { byte_count: 7 })
    );
    assert_eq!(
        CursorImage::from_rgba(vec![0; 1], 0, 0, 0, 0),
        Err(BadImage::ByteCountNotDivisibleBy4 { byte_count: 1 })
    );
}

#[test]
fn a_pixel_count_that_does_not_fit_the_dimensions_is_refused() {
    assert_eq!(
        CursorImage::from_rgba(vec![0; 8], 3, 1, 0, 0),
        Err(BadImage::DimensionsVsPixelCount {
            width: 3,
            height: 1,
            width_x_height: 3,
            pixel_count: 2,
        })
    );
    assert_eq!(
        CursorImage::from_rgba(Vec::new(), 2048, 2048, 0, 0),
        Err(BadImage::DimensionsVsPixelCount {
            width: 2048,
            height: 2048,
            width_x_height: 4_194_304,
            pixel_count: 0,
        })
    );
}

#[test]
fn a_hotspot_outside_the_image_is_refused() {
    assert_eq!(
        CursorImage::from_rgba(vec![0; 16], 2, 2, 2, 0),
        Err(BadImage::HotspotOutOfBounds { width: 2, height: 2, hotspot_x: 2, hotspot_y: 0 })
    );
    assert_eq!(
        CursorImage::from_rgba(vec![0; 16], 2, 2, 1, 2),
        Err(BadImage::HotspotOutOfBounds { width: 2, height: 2, hotspot_x: 1, hotspot_y: 2 })
    );
    // an image without pixels has no place for a hotspot
    assert_eq!(
        CursorImage::from_rgba(Vec::new(), 0, 0, 0, 0),
        Err(BadImage::HotspotOutOfBounds { width: 0, height: 0, hotspot_x: 0, hotspot_y: 0 })
    );
}

#[test]
fn the_loop_makes_a_cursor_that_holds_nothing() {
    let target = ActiveEventLoop::new();
    let source = CustomCursorSource {
        inner: PlatformCustomCursorSource::Url { url: "a.png".to_string(), hotspot_x: 1, hotspot_y: 2 },
    };
    assert_eq!(target.create_custom_cursor(source), CustomCursor { inner: PlatformCustomCursor });
    let again = CustomCursorSource {
        inner: PlatformCustomCursorSource::from_rgba(vec![0; 4], 1, 1, 0, 0).unwrap(),
    };
    let _future = target.create_custom_cursor_async(again);
}
