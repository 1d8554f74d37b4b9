use mstickerlib::{AnimationFormat, Error, Image, NoMimeType, Rgba};
use std::io::Write;
use std::sync::Arc;

fn image(name: &str, data: Vec<u8>) -> Image {
    Image { file_name: name.to_string(), data: Arc::new(data), width: 0, height: 0 }
}

fn gzip(payload: &[u8]) -> Vec<u8> {
    let mut enc = flate2::write::GzEncoder::new(Vec::new(), flate2::Compression::default());
    enc.write_all(payload).unwrap();
    enc.finish().unwrap()
}

#[test]
fn geometry_without_bounds_is_identity() {
    assert_eq!(Image::resize_preserving_aspect_ratio(1920, 1080, None, None), (1920, 1080));
}

#[test]
fn geometry_width_bound() {
    assert_eq!(Image::resize_preserving_aspect_ratio(1920, 1080, Some(960), None), (960, 540));
}

#[test]
fn geometry_height_bound() {
    assert_eq!(Image::resize_preserving_aspect_ratio(1920, 1080, None, Some(270)), (480, 270));
}

#[test]
fn geometry_both_bounds_take_the_tighter() {
    assert_eq!(Image::resize_preserving_aspect_ratio(1920, 1080, Some(500), Some(500)), (500, 281));
    assert_eq!(Image::resize_preserving_aspect_ratio(1080, 1920, Some(500), Some(500)), (281, 500));
}

#[test]
fn geometry_rounds_halves_up() {
    // 3 * 5 / 2 = 7.5
    assert_eq!(Image::resize_preserving_aspect_ratio(2, 3, Some(5), None), (5, 8));
    assert_eq!(Image::resize_preserving_aspect_ratio(3, 3, Some(2), Some(2)), (2, 2));
}

#[test]
fn geometry_zero_side_keeps_size() {
    assert_eq!(Image::resize_preserving_aspect_ratio(0, 1080, Some(500), Some(500)), (0, 1080));
    assert_eq!(Image::resize_preserving_aspect_ratio(1920, 0, Some(500), None), (1920, 0));
}

#[test]
fn geometry_saturates() {
    assert_eq!(
        Image::resize_preserving_aspect_ratio(1, u32::MAX, Some(u32::MAX), None),
        (u32::MAX, u32::MAX)
    );
}

#[test]
fn mime_type_of_webm_is_video() {
    assert_eq!(image("sticker.webm", vec![]).mime_type().unwrap(), "video/webm");
}

#[test]
fn mime_type_of_other_extensions_is_image() {
    assert_eq!(image("sticker.png", vec![]).mime_type().unwrap(), "image/png");
    assert_eq!(image("a.b/c.gif", vec![]).mime_type().unwrap(), "image/gif");
    assert_eq!(image("pack.tar.gz", vec![]).mime_type().unwrap(), "image/gz");
}

#[test]
fn mime_type_ignores_trailing_separators_and_dots() {
    assert_eq!(image("a.webm/", vec![]).mime_type().unwrap(), "video/webm");
    assert_eq!(image("foo.txt/.", vec![]).mime_type().unwrap(), "image/txt");
    assert_eq!(image("dir/b.gif//./", vec![]).mime_type().unwrap(), "image/gif");
}

#[test]
fn mime_type_without_extension_fails() {
    assert_eq!(image(".", vec![]).mime_type(), Err(NoMimeType));
    assert_eq!(image("/", vec![]).mime_type(), Err(NoMimeType));
    assert_eq!(image("a.b/..", vec![]).mime_type(), Err(NoMimeType));
    assert_eq!(image("sticker", vec![]).mime_type(), Err(NoMimeType));
    assert_eq!(image(".hidden", vec![]).mime_type(), Err(NoMimeType));
    assert_eq!(image("dir.d/file", vec![]).mime_type(), Err(NoMimeType));
    assert_eq!(image("dir/..", vec![]).mime_type(), Err(NoMimeType));
    assert_eq!(image("", vec![]).mime_type(), Err(NoMimeType));
}

#[test]
fn unpack_restores_compressed_payload() {
    let payload = b"{\"v\":\"5.5.2\",\"fr\":60}".to_vec();
    let out = image("hello.tgs", gzip(&payload)).unpack_tgs().unwrap();
    assert_eq!(out.file_name, "hello.lottie");
    assert_eq!(*out.data, payload);
}

#[test]
fn unpack_leaves_other_formats_unchanged() {
    for name in ["a.webp", "a.webm", "a.gif", "a.lottie", "tgs", "a.tgsx"] {
        let data = vec![1u8, 2, 3];
        let out = image(name, data.clone()).unpack_tgs().unwrap();
        assert_eq!(out.file_name, name);
        assert_eq!(*out.data, data);
    }
}

#[test]
fn unpack_twice_is_unpack_once() {
    let payload = b"lottie json".to_vec();
    let once = image("x.tgs", gzip(&payload)).unpack_tgs().unwrap();
    let twice = once.clone().unpack_tgs().unwrap();
    assert_eq!(twice.file_name, once.file_name);
    assert_eq!(*twice.data, *once.data);
}

#[test]
fn unpack_of_corrupt_stream_fails() {
    let r = image("bad.tgs", vec![0x1f, 0x8b, 0, 1, 2]).unpack_tgs();
    assert_eq!(r.err(), Some(Error::Decompression));
}

#[test]
fn into_lottie_renames() {
    let out = image("s.tgs", vec![9]).into_lottie(vec![7, 7]);
    assert_eq!(out.file_name, "s.lottie");
    assert_eq!(*out.data, vec![7, 7]);
}

#[test]
fn into_animation_names_the_format() {
    let gif = AnimationFormat::Gif { transparent_color: Rgba { r: 0, g: 0, b: 0, a: true } };
    let out = image("s.lottie", vec![1]).into_animation(gif, vec![2], 100, 50);
    assert_eq!(out.file_name, "s.gif");
    assert_eq!((*out.data).clone(), vec![2]);
    assert_eq!((out.width, out.height), (100, 50));
    let out = image("s.lottie", vec![1]).into_animation(AnimationFormat::Webp, vec![3], 4, 5);
    assert_eq!(out.file_name, "s.webp");
    assert_eq!((out.width, out.height), (4, 5));
}

#[test]
fn into_webp_renames_webm() {
    let out = image("clip.webm", vec![1]).into_webp(vec![5, 6], 512, 256);
    assert_eq!(out.file_name, "clip.webp");
    assert_eq!(*out.data, vec![5, 6]);
    assert_eq!((out.width, out.height), (512, 256));
}

#[test]
fn stage_predicates() {
    assert!(image("a.tgs", vec![]).is_tgs());
    assert!(!image("a.lottie", vec![]).is_tgs());
    assert!(image("a.lottie", vec![]).is_lottie());
    assert!(image("a.webm", vec![]).is_webm());
    assert!(!image("a.webp", vec![]).is_webm());
}

#[test]
fn default_animation_format_is_webp() {
    assert_eq!(AnimationFormat::default(), AnimationFormat::Webp);
}

fn png(width: u32, height: u32) -> Vec<u8> {
    let pixels = vec![200u8; (width * height * 4) as usize];
    photon_rs::PhotonImage::new(pixels, width, height).get_bytes()
}

#[test]
fn resize_fits_within_bounds() {
    let out = image("s.png", png(40, 20)).resize(10, 10).unwrap();
    assert_eq!((out.width, out.height), (10, 5));
    assert_eq!(out.file_name, "s.webp");
    let decoded = photon_rs::native::open_image_from_bytes(&out.data).unwrap();
    assert_eq!((decoded.get_width(), decoded.get_height()), (10, 5));
}

#[test]
fn resize_names_the_webp() {
    let out = image("sticker", png(4, 4)).resize(2, 2).unwrap();
    assert_eq!(out.file_name, "sticker.webp");
    let out = image("a.b/c.jpeg", png(4, 4)).resize(2, 2).unwrap();
    assert_eq!(out.file_name, "a.b/c.webp");
    let out = image("c.png/", png(4, 4)).resize(2, 2).unwrap();
    assert_eq!(out.file_name, "c.webp");
}

#[test]
fn resize_data_is_the_resampled_webp() {
    let data = png(40, 20);
    let out = image("s.png", data.clone()).resize(10, 10).unwrap();
    let img = photon_rs::native::open_image_from_bytes(&data).unwrap();
    let expected = photon_rs::transform::resize(&img, 10, 5, photon_rs::transform::SamplingFilter::Lanczos3)
        .get_bytes_webp();
    assert_eq!(*out.data, expected);
}

#[test]
fn resize_of_non_image_fails() {
    let r = image("s.png", vec![1, 2, 3, 4]).resize(10, 10);
    assert_eq!(r.err(), Some(Error::ImageDecode));
}

#[test]
fn resize_to_zero_fails() {
    let r = image("s.png", png(40, 20)).resize(0, 10);
    assert_eq!(r.err(), Some(Error::RenderEncode));
}
