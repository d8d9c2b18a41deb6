use overload::Image;

#[test]
fn new_image_is_all_default_pixels() {
    let img: Image<i32> = Image::new(3, 2);
    assert_eq!(img.width(), 3);
    for row in 0..2 {
        let view = img.index(row);
        assert_eq!(view.len(), 3);
        for col in 0..3 {
            assert_eq!(view[col], 0);
        }
    }
}

#[test]
fn new_image_of_unsigned_bytes_is_zeroed() {
    let img: Image<u8> = Image::new(4, 4);
    for row in 0..4 {
        for col in 0..4 {
            assert_eq!(*img.pixel(row, col), 0u8);
        }
    }
}

#[test]
fn write_through_row_view_then_read_back() {
    let mut img: Image<i32> = Image::new(3, 2);
    img.index_mut(1)[2] = 9;
    assert_eq!(*img.pixel(1, 2), 9);
    assert_eq!(img.index(1)[2], 9);
    // Nothing outside the written coordinate moved.
    assert_eq!(*img.pixel(1, 0), 0);
    assert_eq!(*img.pixel(1, 1), 0);
    for col in 0..3 {
        assert_eq!(*img.pixel(0, col), 0);
    }
}

#[test]
fn set_pixel_lands_at_row_and_column() {
    let mut img: Image<u8> = Image::new(2, 3);
    img.set_pixel(2, 1, 7);
    assert_eq!(*img.pixel(2, 1), 7);
    assert_eq!(*img.pixel(2, 0), 0);
    assert_eq!(*img.pixel(0, 1), 0);
    img.set_pixel(2, 1, 8);
    assert_eq!(*img.pixel(2, 1), 8);
}

#[test]
fn row_views_cover_the_buffer_in_row_major_order() {
    let mut img: Image<i32> = Image::new(2, 2);
    img.index_mut(0)[0] = 1;
    img.index_mut(0)[1] = 2;
    img.index_mut(1)[0] = 3;
    img.index_mut(1)[1] = 4;
    assert_eq!(img.index(0), &[1, 2]);
    assert_eq!(img.index(1), &[3, 4]);
}
