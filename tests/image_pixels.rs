use verycross::image::{center_position, fill_window, load_image, Bgra, Image};

fn px(v: u8) -> Bgra {
    Bgra { b: v, g: v, r: v, a: 255 }
}

#[test]
fn load_image_reorders_channels() {
    let img = load_image(2, 1, &[1, 2, 3, 4, 5, 6, 7, 8, 99]);
    assert_eq!(img.width, 2);
    assert_eq!(img.height, 1);
    assert_eq!(
        img.buffer,
        vec![Bgra { b: 3, g: 2, r: 1, a: 4 }, Bgra { b: 7, g: 6, r: 5, a: 8 }]
    );
}

#[test]
fn load_image_empty() {
    let img = load_image(0, 5, &[]);
    assert!(img.buffer.is_empty());
}

#[test]
fn fill_window_centres_small_image() {
    let img = Image { width: 1, height: 1, buffer: vec![px(9)] };
    let frame = fill_window(&img, 3, 3);
    assert_eq!(frame.len(), 9);
    for (j, p) in frame.iter().enumerate() {
        if j == 4 {
            assert_eq!(*p, Some(px(9)));
        } else {
            assert_eq!(*p, None);
        }
    }
}

#[test]
fn fill_window_rounds_offset_toward_zero() {
    let img = Image { width: 2, height: 2, buffer: vec![px(1), px(2), px(3), px(4)] };
    let frame = fill_window(&img, 3, 3);
    assert_eq!(
        frame,
        vec![Some(px(1)), Some(px(2)), None, Some(px(3)), Some(px(4)), None, None, None, None]
    );
}

#[test]
fn fill_window_crops_large_image() {
    let img = Image {
        width: 5,
        height: 1,
        buffer: vec![px(0), px(1), px(2), px(3), px(4)],
    };
    // offset is (2 - 5) / 2 = -1, toward zero
    let frame = fill_window(&img, 2, 1);
    assert_eq!(frame, vec![Some(px(1)), Some(px(2))]);
}

#[test]
fn center_position_is_centred_two_pixels_low() {
    assert_eq!(center_position(1920, 1080, 100, 50), (910, 517));
    assert_eq!(center_position(10, 10, 10, 10), (0, 2));
}
