use vstd::prelude::*;

verus! {

/// What a gzip decoder reads from `data` to its end: the decoded bytes, or
/// `None` where the stream is corrupt or truncated.
pub uninterp spec fn gunzip_of(data: Seq<u8>) -> Option<Seq<u8>>;

/// Relies on `flate2::read::GzDecoder` read to its end with `Read::read_to_end`:
/// the outcome depends on the bytes alone.
#[verifier::external_body]
pub(crate) fn gunzip(data: &[u8]) -> (r: Option<Vec<u8>>)
    ensures
        match r {
            Some(v) => gunzip_of(data@) == Some(v@),
            None => gunzip_of(data@).is_none(),
        },
{
    let mut output = Vec::new();
    match std::io::Read::read_to_end(&mut flate2::read::GzDecoder::new(data), &mut output) {
        Ok(_) => Some(output),
        Err(_) => None,
    }
}

/// The width and height of the still image that `data` encodes, or `None` where
/// the bytes are no still image.
pub uninterp spec fn decoded_size_of(data: Seq<u8>) -> Option<(u32, u32)>;

/// Relies on `photon_rs::native::open_image_from_bytes`, `PhotonImage::get_width`
/// and `PhotonImage::get_height`: decoding depends on the bytes alone.
#[verifier::external_body]
pub(crate) fn decoded_size(data: &[u8]) -> (r: Option<(u32, u32)>)
    ensures
        r == decoded_size_of(data@),
{
    photon_rs::native::open_image_from_bytes(data).ok().map(|img| (img.get_width(), img.get_height()))
}

/// Largest side that the lossless WEBP encoder accepts.
pub const WEBP_MAX_SIDE: u32 = 16384;

/// The lossless WEBP of the still image that `data` encodes, resampled with a
/// Lanczos3 filter to `width` by `height`.
pub uninterp spec fn webp_resized_of(data: Seq<u8>, width: u32, height: u32) -> Seq<u8>;

/// Relies on `photon_rs::native::open_image_from_bytes`, on
/// `photon_rs::transform::resize` (Lanczos3), which resamples to exactly `width` by
/// `height`, and on `PhotonImage::get_bytes_webp`, which encodes that as lossless
/// WEBP and panics on a side of zero or above `WEBP_MAX_SIDE`. The outcome depends
/// on the bytes and the size alone.
#[verifier::external_body]
pub(crate) fn resize_to_webp(data: &[u8], width: u32, height: u32) -> (r: Vec<u8>)
    requires
        decoded_size_of(data@) is Some,
        0 < width <= WEBP_MAX_SIDE,
        0 < height <= WEBP_MAX_SIDE,
    ensures
        r@ == webp_resized_of(data@, width, height),
{
    let img = photon_rs::native::open_image_from_bytes(data).unwrap();
    photon_rs::transform::resize(&img, width, height, photon_rs::transform::SamplingFilter::Lanczos3)
        .get_bytes_webp()
}

} // verus!
