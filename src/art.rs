use image::DynamicImage;
use std::path::PathBuf;
use url::Url;
use vstd::prelude::*;

use crate::configuration::Configuration;
use crate::notifier::NotificationImage;
use crate::text::str_equals;

verus! {

/// A decoded image of the `image` crate, carried between the calls below.
#[verifier::external_type_specification]
#[verifier::external_body]
pub struct ExDynamicImage(image::DynamicImage);

/// Why the `image` crate could not decode an image.
#[verifier::external_type_specification]
#[verifier::external_body]
pub struct ExImageError(image::ImageError);

/// A URL parsed by the `url` crate.
#[verifier::external_type_specification]
#[verifier::external_body]
pub struct ExUrl(url::Url);

/// Why the `url` crate could not parse a URL.
#[verifier::external_type_specification]
#[verifier::external_body]
pub struct ExParseError(url::ParseError);

/// An I/O error of std, from reading a local file.
#[verifier::external_type_specification]
#[verifier::external_body]
pub struct ExIoError(std::io::Error);

/// A failed download of the `ureq` crate.
#[verifier::external_type_specification]
#[verifier::external_body]
pub struct ExUreqError(ureq::Error);

/// A path of std, naming a local file.
#[verifier::external_type_specification]
#[verifier::external_body]
pub struct ExPathBuf(std::path::PathBuf);

/// Album art is scaled to fit a square of this many pixels a side.
pub const THUMBNAIL_SIZE: u32 = 256;

/// At most this many bytes of album art are downloaded.
pub const ART_SIZE_LIMIT: usize = 5_000_000;

/// Why album art could not be had.
#[derive(Debug)]
pub enum ArtFetcherError {
    /// The download failed.
    Fetch(ureq::Error),
    /// A local file could not be read.
    Write(std::io::Error),
    /// The bytes are not an image that can be decoded.
    Decode(image::ImageError),
    /// The location is not a URL.
    Location(url::ParseError),
    /// The response, the location or the image is unusable.
    Invalid(),
}

/// Where album art is read from.
#[derive(Debug)]
pub enum ArtLocation {
    /// A file on this machine.
    File(PathBuf),
    /// A remote resource, fetched by its URL.
    Remote(String),
}

/// Whether a text parses as an absolute URL.
pub uninterp spec fn url_parses(input: Seq<char>) -> bool;

/// The width and height of a decoded image.
pub uninterp spec fn image_dims(img: DynamicImage) -> (u32, u32);

/// Whether bytes decode as an image, in a format guessed from them.
pub uninterp spec fn decodes(bytes: Seq<u8>) -> bool;

/// Relies on `url::Url::parse`: parses an absolute URL; whether it succeeds
/// depends on the text alone.
#[verifier::external_body]
fn parse_url(input: &str) -> (r: Result<Url, url::ParseError>)
    ensures
        r is Ok <==> url_parses(input@),
{
    Url::parse(input)
}

/// Relies on `url::Url::scheme`: the scheme of a parsed URL, in lower case.
#[verifier::external_body]
fn url_scheme(u: &Url) -> (r: String) {
    u.scheme().to_string()
}

/// Relies on `url::Url::to_file_path`: the local path that a `file` URL
/// names, when it names one.
#[verifier::external_body]
fn url_file_path(u: &Url) -> (r: Option<PathBuf>) {
    u.to_file_path().ok()
}

/// Relies on `image::load_from_memory`: decodes an image, guessing its format
/// from its first bytes; whether it succeeds depends on the bytes alone.
#[verifier::external_body]
fn decode_image(bytes: &[u8]) -> (r: Result<DynamicImage, image::ImageError>)
    ensures
        r is Ok <==> decodes(bytes@),
{
    image::load_from_memory(bytes)
}

/// Relies on `image::DynamicImage::thumbnail`: the image scaled to the
/// largest size that fits the given bounds, keeping its aspect ratio, and at
/// least one pixel a side.
#[verifier::external_body]
fn thumbnail(img: &DynamicImage, width: u32, height: u32) -> (r: DynamicImage)
    requires
        width >= 1,
        height >= 1,
    ensures
        1 <= image_dims(r).0 <= width,
        1 <= image_dims(r).1 <= height,
{
    img.thumbnail(width, height)
}

/// Relies on `image::DynamicImage::color`: whether the image holds 8-bit RGBA
/// pixels.
#[verifier::external_body]
fn is_rgba8(img: &DynamicImage) -> (r: bool) {
    img.color() == image::ColorType::Rgba8
}

/// Relies on `image::DynamicImage::into_rgba8`: the image as 8-bit RGBA
/// pixels, with its width and height, which the conversion keeps, and its
/// raw buffer, which holds at least four bytes for each pixel.
#[verifier::external_body]
fn rgba8_pixels(img: DynamicImage) -> (r: (u32, u32, Vec<u8>))
    ensures
        r.0 == image_dims(img).0,
        r.1 == image_dims(img).1,
        r.2@.len() >= r.0 as int * r.1 as int * 4,
{
    let buffer = img.into_rgba8();
    (buffer.width(), buffer.height(), buffer.into_raw())
}

/// Relies on `image::DynamicImage::into_rgb8`: the image as 8-bit RGB pixels,
/// with its width and height, which the conversion keeps, and its raw
/// buffer, which holds at least three bytes for each pixel.
#[verifier::external_body]
fn rgb8_pixels(img: DynamicImage) -> (r: (u32, u32, Vec<u8>))
    ensures
        r.0 == image_dims(img).0,
        r.1 == image_dims(img).1,
        r.2@.len() >= r.0 as int * r.1 as int * 3,
{
    let buffer = img.into_rgb8();
    (buffer.width(), buffer.height(), buffer.into_raw())
}

/// Notification image data from a decoded image: RGBA when the image is
/// 8-bit RGBA, RGB otherwise. An image too large for the wire format, or
/// whose buffer is short of its size, is invalid.
pub fn image_from_dynamic(image: DynamicImage) -> (r: Result<NotificationImage, ArtFetcherError>)
    ensures
        image_dims(image).0 as int * 4 <= i32::MAX && image_dims(image).1 <= i32::MAX ==> r is Ok,
        r matches Ok(img) ==> {
            &&& img.wf()
            &&& img.width == image_dims(image).0
            &&& img.height == image_dims(image).1
        },
        r is Err ==> r matches Err(ArtFetcherError::Invalid()),
{
    let alpha = is_rgba8(&image);
    let (width, height, pixels) = if alpha {
        rgba8_pixels(image)
    } else {
        rgb8_pixels(image)
    };
    match NotificationImage::from_pixels(width, height, alpha, pixels) {
        Some(img) => Ok(img),
        None => Err(ArtFetcherError::Invalid()),
    }
}

/// Whether a character is an ASCII decimal digit.
pub open spec fn is_digit(c: char) -> bool {
    '0' <= c && c <= '9'
}

/// The number that a string of decimal digits spells.
pub open spec fn digits_value(s: Seq<char>) -> int
    decreases s.len(),
{
    if s.len() == 0 {
        0
    } else {
        digits_value(s.drop_last()) * 10 + (s.last() as int - '0' as int)
    }
}

/// The digits of an unsigned decimal number: the text without one leading
/// plus sign.
pub open spec fn unsigned_digits(s: Seq<char>) -> Seq<char> {
    if s.len() > 0 && s[0] == '+' {
        s.subrange(1, s.len() as int)
    } else {
        s
    }
}

/// The `usize` that a text spells as an unsigned decimal number: an optional
/// plus sign, then one or more digits and nothing else, of a value that fits.
pub open spec fn parsed_usize(s: Seq<char>) -> Option<int> {
    let d = unsigned_digits(s);
    if d.len() > 0 && (forall|i: int| 0 <= i < d.len() ==> is_digit(#[trigger] d[i])) && digits_value(d)
        <= usize::MAX {
        Some(digits_value(d))
    } else {
        None
    }
}

proof fn lemma_prefix_value_bound(s: Seq<char>, i: int)
    requires
        0 <= i <= s.len(),
        forall|k: int| 0 <= k < s.len() ==> is_digit(#[trigger] s[k]),
    ensures
        0 <= digits_value(s.subrange(0, i)) <= digits_value(s),
    decreases s.len() - i,
{
    if i < s.len() {
        lemma_prefix_value_bound(s, i + 1);
        assert(s.subrange(0, i + 1).drop_last() =~= s.subrange(0, i));
    } else {
        assert(s.subrange(0, i) =~= s);
    }
    lemma_digits_nonnegative(s.subrange(0, i));
}

proof fn lemma_digits_nonnegative(s: Seq<char>)
    requires
        forall|k: int| 0 <= k < s.len() ==> is_digit(#[trigger] s[k]),
    ensures
        digits_value(s) >= 0,
    decreases s.len(),
{
    if s.len() > 0 {
        lemma_digits_nonnegative(s.drop_last());
    }
}

/// Reads an unsigned decimal number, as `usize::from_str` does.
pub fn parse_usize(s: &str) -> (r: Option<usize>)
    ensures
        match parsed_usize(s@) {
            Some(n) => r matches Some(v) && v == n,
            None => r is None,
        },
{
    let n = s.unicode_len();
    let start: usize = if n > 0 && s.get_char(0) == '+' { 1 } else { 0 };
    let ghost d = unsigned_digits(s@);
    assert(d =~= s@.subrange(start as int, n as int));
    if start == n {
        return None;
    }
    let mut value: usize = 0;
    let mut i: usize = start;
    while i < n
        invariant
            n == s@.len(),
            start <= i <= n,
            d == s@.subrange(start as int, n as int),
            d == unsigned_digits(s@),
            forall|k: int| start <= k < i ==> is_digit(#[trigger] s@[k]),
            value == digits_value(s@.subrange(start as int, i as int)),
        decreases n - i,
    {
        let c = s.get_char(i);
        if !('0' <= c && c <= '9') {
            assert(!is_digit(d[i - start]));
            return None;
        }
        let digit = (c as u32 - '0' as u32) as usize;
        let ghost prefix = s@.subrange(start as int, i + 1);
        assert(prefix.drop_last() =~= s@.subrange(start as int, i as int));
        let next = match value.checked_mul(10) {
            Some(tens) => tens.checked_add(digit),
            None => None,
        };
        match next {
            Some(next) => {
                value = next;
            },
            None => {
                proof {
                    assert(digits_value(prefix) > usize::MAX);
                    if forall|k: int| 0 <= k < d.len() ==> is_digit(#[trigger] d[k]) {
                        lemma_prefix_value_bound(d, i + 1 - start);
                        assert(d.subrange(0, i + 1 - start) =~= prefix);
                    }
                }
                return None;
            },
        }
        i = i + 1;
    }
    assert(s@.subrange(start as int, i as int) =~= d);
    Some(value)
}

/// Fetches album art within the configured deadline.
#[derive(Debug, Clone, Copy)]
pub struct ArtFetcher {
    timeout_ms: u64,
}

impl ArtFetcher {
    pub fn new(configuration: &Configuration) -> (r: Self)
        ensures
            r.timeout_millis() == configuration.album_art_deadline,
    {
        ArtFetcher { timeout_ms: configuration.album_art_deadline as u64 }
    }

    pub closed spec fn timeout_spec(&self) -> u64 {
        self.timeout_ms
    }

    /// How long, in milliseconds, a fetch may take.
    #[verifier::when_used_as_spec(timeout_spec)]
    pub fn timeout_millis(&self) -> (r: u64)
        ensures
            r == self.timeout_spec(),
    {
        self.timeout_ms
    }

    /// Where the album art at `url` is read from: a local file for a `file`
    /// URL, the URL itself otherwise. Text that is not a URL, and a `file`
    /// URL that names no local path, are errors.
    pub fn locate(&self, url: &str) -> (r: Result<ArtLocation, ArtFetcherError>)
        ensures
            r matches Err(ArtFetcherError::Location(_)) <==> !url_parses(url@),
            r matches Ok(ArtLocation::Remote(u)) ==> u@ == url@,
            r is Err ==> (r matches Err(ArtFetcherError::Location(_)) || r matches Err(
                ArtFetcherError::Invalid(),
            )),
    {
        let parsed = match parse_url(url) {
            Ok(u) => u,
            Err(e) => {
                return Err(ArtFetcherError::Location(e));
            },
        };
        let scheme = url_scheme(&parsed);
        if str_equals(scheme.as_str(), "file") {
            match url_file_path(&parsed) {
                Some(path) => Ok(ArtLocation::File(path)),
                None => Err(ArtFetcherError::Invalid()),
            }
        } else {
            Ok(ArtLocation::Remote(String::from_str(url)))
        }
    }

    /// How many bytes to reserve for a download, from its `Content-Length`
    /// header: the announced length, capped at `ART_SIZE_LIMIT`. A response
    /// that announces no length, or no number, is invalid.
    pub fn download_capacity(&self, content_length: Option<&str>) -> (r: Result<usize, ArtFetcherError>)
        ensures
            match content_length {
                Some(h) => match parsed_usize(h@) {
                    Some(n) => r matches Ok(c) && c == (if n < ART_SIZE_LIMIT {
                        n
                    } else {
                        ART_SIZE_LIMIT as int
                    }),
                    None => r matches Err(ArtFetcherError::Invalid()),
                },
                None => r matches Err(ArtFetcherError::Invalid()),
            },
    {
        let header = match content_length {
            Some(h) => h,
            None => {
                return Err(ArtFetcherError::Invalid());
            },
        };
        match parse_usize(header) {
            Some(n) => if n < ART_SIZE_LIMIT {
                Ok(n)
            } else {
                Ok(ART_SIZE_LIMIT)
            },
            None => Err(ArtFetcherError::Invalid()),
        }
    }

    /// Album art from the bytes that were read or downloaded: the decoded
    /// image, scaled to fit `THUMBNAIL_SIZE` pixels a side.
    pub fn album_art_from_bytes(&self, body: &[u8]) -> (r: Result<NotificationImage, ArtFetcherError>)
        ensures
            r is Ok <==> decodes(body@),
            r matches Ok(img) ==> {
                &&& img.wf()
                &&& 1 <= img.width <= THUMBNAIL_SIZE
                &&& 1 <= img.height <= THUMBNAIL_SIZE
            },
            r is Err ==> r matches Err(ArtFetcherError::Decode(_)),
    {
        let image = match decode_image(body) {
            Ok(image) => image,
            Err(e) => {
                return Err(ArtFetcherError::Decode(e));
            },
        };
        let thumb = thumbnail(&image, THUMBNAIL_SIZE, THUMBNAIL_SIZE);
        image_from_dynamic(thumb)
    }
}

} // verus!
