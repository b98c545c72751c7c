use feed_curator::channel::icon_color;
use feed_curator::color::{
    default_color_text, dominant_color_or_default, dominant_pixel, get_dominant_color, Pixel,
};

fn px(r: u8, g: u8, b: u8, a: u8) -> Pixel {
    Pixel { r, g, b, a }
}

/// Decodes an encoded bitmap to its pixels, row by row.
fn decode(bytes: &[u8]) -> Option<Vec<Pixel>> {
    let img = image::load_from_memory(bytes).ok()?;
    Some(image::GenericImageView::pixels(&img).map(|(_, _, p)| Pixel { r: p[0], g: p[1], b: p[2], a: p[3] }).collect())
}

fn png_of(width: u32, height: u32, pixels: &[Pixel]) -> Vec<u8> {
    let mut img = image::RgbaImage::new(width, height);
    for (i, p) in pixels.iter().enumerate() {
        let x = i as u32 % width;
        let y = i as u32 / width;
        img.put_pixel(x, y, image::Rgba([p.r, p.g, p.b, p.a]));
    }
    let mut bytes = std::io::Cursor::new(Vec::new());
    img.write_to(&mut bytes, image::ImageOutputFormat::Png).unwrap();
    bytes.into_inner()
}

#[test]
fn majority_colour_is_dominant() {
    let red = px(200, 16, 5, 255);
    let blue = px(0, 0, 255, 255);
    let pixels = vec![blue, red, red, blue, red, px(255, 255, 255, 255), px(1, 2, 3, 0)];
    assert_eq!(get_dominant_color(&pixels), Some("#c81005".to_string()));
    assert_eq!(dominant_pixel(&pixels), Some(1));
    assert_eq!(dominant_color_or_default(&pixels), "#c81005");
}

#[test]
fn white_and_transparent_pixels_do_not_count() {
    let white = px(255, 255, 255, 255);
    let clear = px(9, 9, 9, 0);
    let mut pixels = vec![white; 10];
    pixels.extend(vec![clear; 10]);
    pixels.push(px(9, 9, 9, 1));
    assert_eq!(get_dominant_color(&pixels), Some("#090909".to_string()));
}

#[test]
fn all_transparent_image_has_no_dominant_colour() {
    let pixels = vec![px(10, 20, 30, 0); 16];
    assert_eq!(get_dominant_color(&pixels), None);
    assert_eq!(dominant_pixel(&pixels), None);
    assert_eq!(dominant_color_or_default(&pixels), "#000000");
}

#[test]
fn all_white_image_has_no_dominant_colour() {
    let pixels = vec![px(255, 255, 255, 255); 16];
    assert_eq!(get_dominant_color(&pixels), None);
    assert_eq!(dominant_color_or_default(&pixels), "#000000");
}

#[test]
fn default_colour_is_black() {
    assert_eq!(default_color_text(), "#000000");
}

#[test]
fn empty_image_has_no_dominant_colour() {
    assert_eq!(get_dominant_color(&[]), None);
    assert_eq!(dominant_color_or_default(&[]), "#000000");
}

#[test]
fn tie_goes_to_the_colour_met_first() {
    let a = px(1, 1, 1, 255);
    let b = px(2, 2, 2, 255);
    let c = px(3, 3, 3, 255);
    assert_eq!(get_dominant_color(&[c, b, a, a, b]), Some("#020202".to_string()));
    assert_eq!(dominant_pixel(&[c, b, a, a, b]), Some(1));
    assert_eq!(get_dominant_color(&[a, b, b, a]), Some("#010101".to_string()));
}

#[test]
fn alpha_does_not_distinguish_colours() {
    let pixels = vec![px(5, 6, 7, 255), px(8, 8, 8, 255), px(8, 8, 8, 255), px(5, 6, 7, 10), px(5, 6, 7, 1)];
    assert_eq!(get_dominant_color(&pixels), Some("#050607".to_string()));
}

#[test]
fn colour_of_an_encoded_icon() {
    let green = px(0, 128, 64, 255);
    let grey = px(9, 9, 9, 255);
    let bytes = png_of(3, 2, &[grey, green, green, px(255, 255, 255, 255), green, px(0, 0, 0, 0)]);
    let decoded = decode(&bytes).expect("a bitmap");
    assert_eq!(decoded.len(), 6);
    assert_eq!(icon_color(Some(&decoded)), "#008040");
}

#[test]
fn icon_that_does_not_decode_is_black() {
    assert!(decode(b"this is no image").is_none());
    assert_eq!(icon_color(None), "#000000");
    assert_eq!(icon_color(Some(&[])), "#000000");
}

#[test]
fn transparent_icon_is_black() {
    let bytes = png_of(2, 2, &[px(1, 2, 3, 0); 4]);
    assert_eq!(icon_color(decode(&bytes).as_deref()), "#000000");
}
