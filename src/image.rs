use std::sync::Arc;
use crate::codec::{
    decoded_size, decoded_size_of, gunzip, gunzip_of, resize_to_webp, webp_resized_of, WEBP_MAX_SIDE,
};
use crate::name::{ends_with, extension, extension_of, has_suffix, str_equal, trim_end, trimmed_len};
use vstd::prelude::*;

verus! {

/// A background color for GIF frames: eight bits per color channel, and whether
/// the color stands for transparency.
#[derive(Clone, Copy, Debug, PartialEq, Eq, Structural)]
pub struct Rgba {
    pub r: u8,
    pub g: u8,
    pub b: u8,
    pub a: bool,
}

/// The encoding that an animation is converted to.
#[derive(Clone, Copy, Debug, PartialEq, Eq, Structural)]
pub enum AnimationFormat {
    /// A GIF whose palette marks `transparent_color` as transparent.
    Gif { transparent_color: Rgba },
    /// An animated WEBP.
    Webp,
}

impl Default for AnimationFormat {
    fn default() -> (r: AnimationFormat)
        ensures
            r == AnimationFormat::Webp,
    {
        AnimationFormat::Webp
    }
}

/// The file name of a picture carries no extension to derive a MIME type from.
#[derive(Clone, Copy, Debug, PartialEq, Eq, Structural)]
pub struct NoMimeType;

/// The ways in which a stage or an upload fails.
#[derive(Clone, Copy, Debug, PartialEq, Eq, Structural)]
pub enum Error {
    /// The file name has no extension.
    NoMimeType,
    /// The gzip stream is corrupt or truncated.
    Decompression,
    /// The animation renderer could not load its source.
    AnimationLoad,
    /// A renderer or an encoder failed to produce its output.
    RenderEncode,
    /// The video codec failed.
    VideoCodec,
    /// The bytes are not a decodable still image.
    ImageDecode,
    /// Writing the temporary file for a renderer failed.
    TemporaryStorage,
    /// The cache failed to answer or to record.
    Database,
    /// The upload to the media store failed.
    Transport,
}

/// A picture: its encoded bytes and its metadata. The extension of `file_name`
/// names the encoding of `data`.
#[derive(Clone)]
pub struct Image {
    pub file_name: String,
    pub data: Arc<Vec<u8>>,
    pub width: u32,
    pub height: u32,
}

/// The MIME type of a file with extension `ext`: a video for `webm`, an image otherwise.
pub open spec fn mime_of(ext: Seq<char>) -> Seq<char> {
    if ext == "webm"@ {
        "video/"@ + ext
    } else {
        "image/"@ + ext
    }
}

/// `s` with its last `drop` characters replaced by `add`.
pub open spec fn with_suffix(s: Seq<char>, drop: nat, add: Seq<char>) -> Seq<char> {
    s.subrange(0, s.len() - drop) + add
}

/// The name that an encoding in `format` gets in place of `.lottie`'s `lottie`.
pub open spec fn animation_ext(format: AnimationFormat) -> Seq<char> {
    match format {
        AnimationFormat::Gif { .. } => "gif"@,
        AnimationFormat::Webp => "webp"@,
    }
}

/// The name of a picture re-encoded as WEBP: its extension replaced by `webp`
/// (with the trailing `/` separators and `.` components after it dropped), or
/// `.webp` appended where it has none.
pub open spec fn webp_name(name: Seq<char>) -> Seq<char> {
    match extension(name) {
        Some(e) => trim_end(name).subrange(0, trim_end(name).len() - e.len()) + "webp"@,
        None => name + ".webp"@,
    }
}

/// `name` renamed as `webp_name` states.
fn webp_file_name(name: &String) -> (r: String)
    ensures
        r@ == webp_name(name@),
{
    match extension_of(name.as_str()) {
        Some(e) => {
            let n = trimmed_len(name.as_str());
            let k = e.unicode_len();
            let mut r = String::from_str(name.as_str().substring_char(0, n - k));
            proof {
                assert(name@.subrange(0, n - k) =~= trim_end(name@).subrange(0, n - k));
            }
            r.append("webp");
            r
        },
        None => {
            let mut r = String::from_str(name.as_str());
            r.append(".webp");
            r
        },
    }
}

/// `name` with its last `drop` characters replaced by `add`.
fn replace_suffix(name: &String, drop: usize, add: &str) -> (r: String)
    requires
        drop <= name@.len(),
    ensures
        r@ == with_suffix(name@, drop as nat, add@),
{
    let n = name.as_str().unicode_len();
    let mut r = String::from_str(name.as_str().substring_char(0, n - drop));
    r.append(add);
    r
}

/// The largest value of a `u32`, as a mathematical integer.
pub open spec fn u32_max() -> nat {
    0xffff_ffffnat
}

/// `n / d` rounded to the nearest integer, halves away from zero.
pub open spec fn round_div(n: nat, d: nat) -> nat
    recommends
        d > 0,
{
    ((2 * n + d) / (2 * d)) as nat
}

/// `x * num / den`, rounded to the nearest integer and saturated to the range of a `u32`.
pub open spec fn scale_round(x: nat, num: nat, den: nat) -> nat
    recommends
        den > 0,
{
    let v = round_div(x * num, den);
    if v > u32_max() {
        u32_max()
    } else {
        v
    }
}

/// Target size of a `width` by `height` picture under optional bounds, keeping its
/// aspect ratio. A picture with a side of zero has no aspect ratio and keeps its size.
pub open spec fn fit_size(width: nat, height: nat, max_width: Option<u32>, max_height: Option<u32>) -> (nat, nat) {
    if width == 0 || height == 0 {
        (width, height)
    } else {
        match (max_width, max_height) {
            (None, None) => (width, height),
            (Some(w), None) => (w as nat, scale_round(height, w as nat, width)),
            (None, Some(h)) => (scale_round(width, h as nat, height), h as nat),
            (Some(w), Some(h)) => if w * height <= h * width {
                (w as nat, scale_round(height, w as nat, width))
            } else {
                (scale_round(width, h as nat, height), h as nat)
            },
        }
    }
}

/// `x * num / den` rounded and saturated, as `scale_round` states it.
fn scale_round_exec(x: u32, num: u32, den: u32) -> (r: u32)
    requires
        den > 0,
    ensures
        r as nat == scale_round(x as nat, num as nat, den as nat),
{
    proof {
        lemma_u32_product(x, num);
    }
    let n: u128 = (x as u128) * (num as u128);
    let d: u128 = den as u128;
    let v: u128 = (2 * n + d) / (2 * d);
    if v > 0xffff_ffffu128 {
        0xffff_ffffu32
    } else {
        v as u32
    }
}

/// A name ending in `.lottie` does not end in `.tgs`, so unpacking leaves a
/// `.lottie` picture unchanged.
pub proof fn lemma_unpack_skips_lottie(name: Seq<char>)
    requires
        has_suffix(name, ".lottie"@),
    ensures
        !has_suffix(name, ".tgs"@),
{
    reveal_strlit(".lottie");
    reveal_strlit(".tgs");
    assert(name.subrange(name.len() - 7, name.len() as int)[6] == 'e');
    if has_suffix(name, ".tgs"@) {
        assert(name.subrange(name.len() - 4, name.len() as int)[3] == 's');
    }
}

/// What unpacking names a `.tgs` picture ends in `.lottie` and not in `.tgs`, so
/// unpacking it once more leaves it unchanged.
pub proof fn lemma_unpack_chains(name: Seq<char>)
    requires
        has_suffix(name, ".tgs"@),
    ensures
        has_suffix(with_suffix(name, 3, "lottie"@), ".lottie"@),
        !has_suffix(with_suffix(name, 3, "lottie"@), ".tgs"@),
{
    reveal_strlit(".lottie");
    reveal_strlit(".tgs");
    reveal_strlit("lottie");
    let out = with_suffix(name, 3, "lottie"@);
    let n = name.len() as int;
    assert(name.subrange(n - 4, n)[0] == '.');
    assert(name[n - 4] == '.');
    assert(out.len() == n + 3);
    assert(out[n - 4] == '.');
    assert forall|i: int| 0 <= i < 7 implies out.subrange(out.len() - 7, out.len() as int)[i]
        == ".lottie"@[i] by {
        if i > 0 {
            assert(out[n - 4 + i] == "lottie"@[i - 1]);
        }
    }
    assert(out.subrange(out.len() - 7, out.len() as int) =~= ".lottie"@);
    lemma_unpack_skips_lottie(out);
}

proof fn lemma_u32_product(a: u32, b: u32)
    ensures
        (a as nat) * (b as nat) <= 0xffff_ffffnat * 0xffff_ffffnat,
{
    assert((a as nat) * (b as nat) <= 0xffff_ffffnat * 0xffff_ffffnat) by (nonlinear_arith)
        requires a <= 0xffff_ffffu32, b <= 0xffff_ffffu32;
}

impl Image {
    /// Whether the file name ends in `.tgs`: gzip-compressed lottie.
    pub fn is_tgs(&self) -> (r: bool)
        ensures
            r == has_suffix(self.file_name@, ".tgs"@),
    {
        ends_with(self.file_name.as_str(), ".tgs")
    }

    /// Whether the file name ends in `.lottie`.
    pub fn is_lottie(&self) -> (r: bool)
        ensures
            r == has_suffix(self.file_name@, ".lottie"@),
    {
        ends_with(self.file_name.as_str(), ".lottie")
    }

    /// Whether the file name ends in `.webm`.
    pub fn is_webm(&self) -> (r: bool)
        ensures
            r == has_suffix(self.file_name@, ".webm"@),
    {
        ends_with(self.file_name.as_str(), ".webm")
    }

    /// The MIME type that the extension of the file name gives.
    pub fn mime_type(&self) -> (r: Result<String, NoMimeType>)
        ensures
            r is Err <==> extension(self.file_name@) is None,
            r is Ok ==> r->Ok_0@ == mime_of(extension(self.file_name@)->Some_0),
    {
        match extension_of(self.file_name.as_str()) {
            None => Err(NoMimeType),
            Some(ext) => {
                let mut m = if str_equal(ext, "webm") {
                    String::from_str("video/")
                } else {
                    String::from_str("image/")
                };
                m.append(ext);
                Ok(m)
            },
        }
    }

    /// A `.tgs` picture with its data replaced by `decoded`, the gunzipped data,
    /// and its name ending in `.lottie`.
    pub fn into_lottie(self, decoded: Vec<u8>) -> (r: Image)
        requires
            has_suffix(self.file_name@, ".tgs"@),
        ensures
            r.file_name@ == with_suffix(self.file_name@, 3, "lottie"@),
            r.data@ == decoded@,
            r.width == self.width,
            r.height == self.height,
    {
        proof {
            reveal_strlit(".tgs");
        }
        let file_name = replace_suffix(&self.file_name, 3, "lottie");
        Image { file_name, data: Arc::new(decoded), width: self.width, height: self.height }
    }

    /// Unpacks a gzip-compressed `.tgs` picture to `.lottie`; any other picture
    /// comes back unchanged.
    pub fn unpack_tgs(self) -> (r: Result<Image, Error>)
        ensures
            !has_suffix(self.file_name@, ".tgs"@) ==> r == Ok::<Image, Error>(self),
            has_suffix(self.file_name@, ".tgs"@) ==> match gunzip_of(self.data@) {
                Some(d) => r is Ok && r->Ok_0.data@ == d && r->Ok_0.file_name@ == with_suffix(
                    self.file_name@,
                    3,
                    "lottie"@,
                ) && r->Ok_0.width == self.width && r->Ok_0.height == self.height,
                None => r == Err::<Image, Error>(Error::Decompression),
            },
    {
        if !self.is_tgs() {
            return Ok(self);
        }
        match gunzip(self.data.as_slice()) {
            Some(decoded) => Ok(self.into_lottie(decoded)),
            None => Err(Error::Decompression),
        }
    }

    /// A `.lottie` picture with its data replaced by `encoded`, the animation
    /// rendered in `format` at `width` by `height`, and its name ending in the
    /// format's extension.
    pub fn into_animation(self, format: AnimationFormat, encoded: Vec<u8>, width: u32, height: u32) -> (r: Image)
        requires
            has_suffix(self.file_name@, ".lottie"@),
        ensures
            r.file_name@ == with_suffix(self.file_name@, 6, animation_ext(format)),
            r.data@ == encoded@,
            r.width == width,
            r.height == height,
    {
        let ext = match format {
            AnimationFormat::Gif { .. } => "gif",
            AnimationFormat::Webp => "webp",
        };
        proof {
            reveal_strlit(".lottie");
        }
        let file_name = replace_suffix(&self.file_name, 6, ext);
        Image { file_name, data: Arc::new(encoded), width, height }
    }

    /// A `.webm` picture with its data replaced by `encoded`, the WEBP that the
    /// video codec made at `width` by `height`, and its name ending in `.webp`.
    pub fn into_webp(self, encoded: Vec<u8>, width: u32, height: u32) -> (r: Image)
        requires
            has_suffix(self.file_name@, ".webm"@),
        ensures
            r.file_name@ == with_suffix(self.file_name@, 1, "p"@),
            r.data@ == encoded@,
            r.width == width,
            r.height == height,
    {
        proof {
            reveal_strlit(".webm");
        }
        let file_name = replace_suffix(&self.file_name, 1, "p");
        Image { file_name, data: Arc::new(encoded), width, height }
    }

    /// Decodes the data as a still image, resamples it to fit within `max_width` by
    /// `max_height` keeping its aspect ratio, and re-encodes it as WEBP under a name
    /// ending in `webp`. Bytes that are no still image give `ImageDecode`; a target
    /// side of zero, or beyond what the WEBP encoder takes, gives `RenderEncode`.
    pub fn resize(self, max_width: u32, max_height: u32) -> (r: Result<Image, Error>)
        ensures
            decoded_size_of(self.data@) is None ==> r == Err::<Image, Error>(Error::ImageDecode),
            decoded_size_of(self.data@) is Some ==> ({
                let size = decoded_size_of(self.data@)->Some_0;
                let target = fit_size(size.0 as nat, size.1 as nat, Some(max_width), Some(max_height));
                if 0 < target.0 <= WEBP_MAX_SIDE && 0 < target.1 <= WEBP_MAX_SIDE {
                    &&& r is Ok
                    &&& r->Ok_0.width == target.0
                    &&& r->Ok_0.height == target.1
                    &&& r->Ok_0.data@ == webp_resized_of(self.data@, target.0 as u32, target.1 as u32)
                    &&& r->Ok_0.file_name@ == webp_name(self.file_name@)
                } else {
                    r == Err::<Image, Error>(Error::RenderEncode)
                }
            }),
    {
        let (img_width, img_height) = match decoded_size(self.data.as_slice()) {
            Some(size) => size,
            None => return Err(Error::ImageDecode),
        };
        let (width, height) = Self::resize_preserving_aspect_ratio(
            img_width,
            img_height,
            Some(max_width),
            Some(max_height),
        );
        if width == 0 || width > WEBP_MAX_SIDE || height == 0 || height > WEBP_MAX_SIDE {
            return Err(Error::RenderEncode);
        }
        let data = resize_to_webp(self.data.as_slice(), width, height);
        let file_name = webp_file_name(&self.file_name);
        Ok(Image { file_name, data: Arc::new(data), width, height })
    }

    /// Target size of a `width` by `height` picture under optional bounds, keeping
    /// the aspect ratio and rounding each side to the nearest integer. With both
    /// bounds the tighter one decides. A side of zero leaves the size unchanged.
    pub fn resize_preserving_aspect_ratio(
        width: u32,
        height: u32,
        max_width: Option<u32>,
        max_height: Option<u32>,
    ) -> (r: (u32, u32))
        ensures
            (r.0 as nat, r.1 as nat) == fit_size(width as nat, height as nat, max_width, max_height),
    {
        if width == 0 || height == 0 {
            return (width, height);
        }
        match (max_width, max_height) {
            (None, None) => (width, height),
            (Some(w), None) => (w, scale_round_exec(height, w, width)),
            (None, Some(h)) => (scale_round_exec(width, h, height), h),
            (Some(w), Some(h)) => {
                proof {
                    lemma_u32_product(w, height);
                    lemma_u32_product(h, width);
                }
                if (w as u64) * (height as u64) <= (h as u64) * (width as u64) {
                    (w, scale_round_exec(height, w, width))
                } else {
                    (scale_round_exec(width, h, height), h)
                }
            },
        }
    }
}

} // verus!
