//! The QR raster of a text: the grayscale samples that the encoder draws,
//! and the opaque RGBA bitmap that is made of them for display.

use vstd::prelude::*;
use vstd::utf8::encode_utf8;
use qrcode_generator::QrCodeEcc;

verus! {

/// How much of a damaged symbol can still be read.
#[derive(Clone, Copy, PartialEq, Eq, Structural, Debug)]
pub enum ErrorCorrection {
    Low,
    Medium,
    Quartile,
    High,
}

/// The level at which every symbol is drawn.
pub const RASTER_LEVEL: ErrorCorrection = ErrorCorrection::Medium;

/// Width and height, in pixels, of every raster.
pub const RASTER_SIZE: usize = 512;

/// What `qrcode_generator::to_image_buffer` draws for a text at a level and
/// a side length: the samples of the image, row by row, or nothing where it
/// reports an error.
pub uninterp spec fn qr_samples(text: Seq<char>, level: ErrorCorrection, size: nat) -> Option<Seq<u8>>;

/// The encoder sizes its buffers by eight times the number of bytes of the
/// text; that product has to fit a buffer.
pub open spec fn within_encoder_limits(text: Seq<char>) -> bool {
    encode_utf8(text).len() * 8 <= isize::MAX
}

/// Calls `qrcode_generator::to_image_buffer` for `text`, and hands the image
/// back as width, height and samples.
///
/// Verus does not read the body and takes the contract as given. It claims
/// three things of the call: that its result depends on text, level and
/// size alone, which is what `qr_samples` names; that an image, where one
/// comes back, is `size` pixels wide and high and holds one sample for each
/// pixel; and that every sample is 0 or 255. The two conditions leave out
/// the inputs for which the encoder asks for a buffer of more bytes than a
/// buffer can have, on which it panics.
#[verifier::external_body]
fn encode_luma(text: &str, level: ErrorCorrection, size: usize) -> (raster: Option<(u32, u32, Vec<u8>)>)
    requires
        within_encoder_limits(text@),
        size * size <= isize::MAX,
    ensures
        match raster {
            Some((width, height, samples)) => {
                &&& qr_samples(text@, level, size as nat) == Some(samples@)
                &&& width == size
                &&& height == size
                &&& samples@.len() == size * size
                &&& forall|i: int| 0 <= i < samples@.len() ==> samples@[i] == 0 || samples@[i] == 255
            },
            None => qr_samples(text@, level, size as nat) is None,
        },
{
    let ecc = match level {
        ErrorCorrection::Low => QrCodeEcc::Low,
        ErrorCorrection::Medium => QrCodeEcc::Medium,
        ErrorCorrection::Quartile => QrCodeEcc::Quartile,
        ErrorCorrection::High => QrCodeEcc::High,
    };
    match qrcode_generator::to_image_buffer(text, ecc, size) {
        Ok(buffer) => Some((buffer.width(), buffer.height(), buffer.into_raw())),
        Err(_) => None,
    }
}

/// A grayscale image as a mathematical value.
pub struct GrayImageView {
    pub width: nat,
    pub height: nat,
    pub samples: Seq<u8>,
}

impl GrayImageView {
    /// There is one sample for each pixel.
    pub open spec fn wf(self) -> bool {
        self.samples.len() == self.width * self.height
    }

    /// Every sample is black or white.
    pub open spec fn black_and_white(self) -> bool {
        forall|i: int| 0 <= i < self.samples.len() ==> self.samples[i] == 0 || self.samples[i] == 255
    }
}

/// A grayscale image: one sample for each pixel, row by row. 0 is black, 255 is white.
#[derive(Debug)]
pub struct GrayImage {
    width: u32,
    height: u32,
    samples: Vec<u8>,
}

impl View for GrayImage {
    type V = GrayImageView;

    closed spec fn view(&self) -> GrayImageView {
        GrayImageView {
            width: self.width as nat,
            height: self.height as nat,
            samples: self.samples@,
        }
    }
}

impl GrayImage {
    #[verifier::type_invariant]
    spec fn inv(self) -> bool {
        self@.wf()
    }

    /// An image of the given width and height, if `samples` holds one sample for each pixel.
    pub fn new(width: u32, height: u32, samples: Vec<u8>) -> (image: Option<GrayImage>)
        ensures
            image is Some <==> samples@.len() == width * height,
            image matches Some(img) ==> img@ == (GrayImageView {
                width: width as nat,
                height: height as nat,
                samples: samples@,
            }),
    {
        assert(width * height <= 0xFFFF_FFFF * 0xFFFF_FFFF) by (nonlinear_arith)
            requires
                0 <= width <= 0xFFFF_FFFF,
                0 <= height <= 0xFFFF_FFFF,
        ;
        let pixels: u64 = (width as u64) * (height as u64);
        if samples.len() as u64 == pixels {
            Some(GrayImage { width, height, samples })
        } else {
            None
        }
    }

    pub fn width(&self) -> (width: u32)
        ensures
            width == self@.width,
    {
        self.width
    }

    pub fn height(&self) -> (height: u32)
        ensures
            height == self@.height,
    {
        self.height
    }

    /// The samples, row by row.
    pub fn samples(&self) -> (samples: &Vec<u8>)
        ensures
            samples@ == self@.samples,
            self@.wf(),
    {
        proof {
            use_type_invariant(self);
        }
        &self.samples
    }
}

/// An RGBA bitmap as a mathematical value: four bytes for each pixel, row by row.
pub struct QrBitmapView {
    pub width: nat,
    pub height: nat,
    pub rgba: Seq<u8>,
}

impl QrBitmapView {
    /// There are four bytes for each pixel.
    pub open spec fn wf(self) -> bool {
        self.rgba.len() == 4 * (self.width * self.height)
    }

    /// Pixel `p` has equal red, green and blue, and full alpha.
    pub open spec fn pixel_is_opaque_gray(self, p: int) -> bool {
        &&& self.rgba[4 * p] == self.rgba[4 * p + 1]
        &&& self.rgba[4 * p + 1] == self.rgba[4 * p + 2]
        &&& self.rgba[4 * p + 3] == 255
    }

    /// Every pixel is black or white: each byte is 0 or 255.
    pub open spec fn black_and_white(self) -> bool {
        forall|i: int| 0 <= i < self.rgba.len() ==> self.rgba[i] == 0 || self.rgba[i] == 255
    }

    /// Every pixel is a gray that is fully opaque.
    pub open spec fn opaque_gray(self) -> bool {
        forall|p: int| 0 <= p < self.width * self.height ==> #[trigger] self.pixel_is_opaque_gray(p)
    }
}

/// The RGBA bitmap of a grayscale image: each sample stands for red, green
/// and blue of its pixel, and alpha is 255.
pub open spec fn rgba_of(image: GrayImageView) -> QrBitmapView {
    QrBitmapView {
        width: image.width,
        height: image.height,
        rgba: Seq::new(
            4 * image.samples.len(),
            |i: int|
                if i % 4 == 3 {
                    255u8
                } else {
                    image.samples[i / 4]
                },
        ),
    }
}

/// Nothing is lost on the way to RGBA: images with equal bitmaps are equal.
pub proof fn lemma_rgba_is_lossless(a: GrayImageView, b: GrayImageView)
    requires
        rgba_of(a) == rgba_of(b),
    ensures
        a == b,
{
    assert(rgba_of(a).rgba.len() == 4 * a.samples.len());
    assert(rgba_of(b).rgba.len() == 4 * b.samples.len());
    assert forall|i: int| 0 <= i < a.samples.len() implies a.samples[i] == b.samples[i] by {
        assert(rgba_of(a).rgba[4 * i] == a.samples[i]);
        assert(rgba_of(b).rgba[4 * i] == b.samples[i]);
    }
    assert(a.samples =~= b.samples);
}

/// An opaque grayscale picture in RGBA form, ready to be painted.
#[derive(Debug)]
pub struct QrBitmap {
    width: usize,
    height: usize,
    rgba: Vec<u8>,
}

impl View for QrBitmap {
    type V = QrBitmapView;

    closed spec fn view(&self) -> QrBitmapView {
        QrBitmapView { width: self.width as nat, height: self.height as nat, rgba: self.rgba@ }
    }
}

impl QrBitmap {
    #[verifier::type_invariant]
    spec fn inv(self) -> bool {
        self@.wf() && self@.opaque_gray()
    }

    pub fn width(&self) -> (width: usize)
        ensures
            width == self@.width,
    {
        self.width
    }

    pub fn height(&self) -> (height: usize)
        ensures
            height == self@.height,
    {
        self.height
    }

    /// The bytes of the bitmap: red, green, blue, alpha for each pixel, row by row.
    pub fn rgba(&self) -> (bytes: &Vec<u8>)
        ensures
            bytes@ == self@.rgba,
            self@.wf(),
            self@.opaque_gray(),
    {
        proof {
            use_type_invariant(self);
        }
        &self.rgba
    }
}

/// Turns a grayscale image into an opaque RGBA bitmap of the same dimensions.
pub fn rgba_from_luma(image: &GrayImage) -> (bitmap: QrBitmap)
    ensures
        bitmap@ == rgba_of(image@),
        bitmap@.wf(),
        bitmap@.opaque_gray(),
        image@.black_and_white() ==> bitmap@.black_and_white(),
{
    proof {
        use_type_invariant(image);
    }
    let count: usize = image.samples.len();
    let mut rgba: Vec<u8> = Vec::new();
    let mut i: usize = 0;
    while i < count
        invariant
            i <= count,
            count == image.samples@.len(),
            rgba@.len() == 4 * i,
            forall|j: int|
                0 <= j < rgba@.len() ==> rgba@[j] == (if j % 4 == 3 {
                    255u8
                } else {
                    image.samples@[j / 4]
                }),
        decreases count - i,
    {
        let value: u8 = image.samples[i];
        rgba.push(value);
        rgba.push(value);
        rgba.push(value);
        rgba.push(255);
        i += 1;
    }
    let bitmap = QrBitmap { width: image.width as usize, height: image.height as usize, rgba };
    assert(bitmap@.rgba =~= rgba_of(image@).rgba);
    bitmap
}

/// The grayscale raster of `text` at the fixed level and size, or nothing
/// where the text is more than a symbol can hold.
pub open spec fn luma_of(text: Seq<char>) -> Option<GrayImageView> {
    if within_encoder_limits(text) {
        match qr_samples(text, RASTER_LEVEL, RASTER_SIZE as nat) {
            Some(samples) => Some(
                GrayImageView { width: RASTER_SIZE as nat, height: RASTER_SIZE as nat, samples },
            ),
            None => None,
        }
    } else {
        None
    }
}

/// Whether `text` can be drawn as a symbol.
pub open spec fn renderable(text: Seq<char>) -> bool {
    luma_of(text) is Some
}

/// The bitmap that is displayed for `text`.
pub open spec fn rendered(text: Seq<char>) -> QrBitmapView
    recommends
        renderable(text),
{
    rgba_of(luma_of(text)->0)
}

/// Drawing is a function of the text: two bitmaps of one text are equal,
/// pixel for pixel.
pub proof fn lemma_render_is_deterministic(text: Seq<char>, first: QrBitmapView, second: QrBitmapView)
    requires
        renderable(text),
        first == rendered(text),
        second == rendered(text),
    ensures
        first == second,
{
}

/// Draws `text` as a grayscale symbol at the fixed level and size. Returns
/// nothing exactly where the text is more than a symbol can hold.
pub fn rasterize(text: &str) -> (image: Option<GrayImage>)
    ensures
        image is Some <==> renderable(text@),
        image matches Some(img) ==> Some(img@) == luma_of(text@) && img@.black_and_white(),
{
    if text.as_bytes().len() > isize::MAX as usize / 8 {
        return None;
    }
    match encode_luma(text, RASTER_LEVEL, RASTER_SIZE) {
        Some((width, height, samples)) => GrayImage::new(width, height, samples),
        None => None,
    }
}

/// Whether `text` can be drawn as a symbol.
pub fn can_render(text: &str) -> (ok: bool)
    ensures
        ok == renderable(text@),
{
    rasterize(text).is_some()
}

/// The bitmap of `text` for display: the symbol at the fixed level and
/// size, as opaque RGBA.
///
/// The bitmap is a function of the text alone, so that two calls on one
/// text give equal bitmaps. It is always `RASTER_SIZE` pixels wide and
/// high, each pixel gray and opaque.
pub fn render(text: &str) -> (bitmap: QrBitmap)
    requires
        renderable(text@),
    ensures
        bitmap@ == rendered(text@),
        bitmap@.width == RASTER_SIZE,
        bitmap@.height == RASTER_SIZE,
        bitmap@.wf(),
        bitmap@.opaque_gray(),
        bitmap@.black_and_white(),
{
    match rasterize(text) {
        Some(image) => rgba_from_luma(&image),
        None => unreached(),
    }
}

/// As `render`, for any text: nothing is returned exactly where the text
/// cannot be drawn.
pub fn try_render(text: &str) -> (bitmap: Option<QrBitmap>)
    ensures
        bitmap is Some <==> renderable(text@),
        bitmap matches Some(b) ==> {
            &&& b@ == rendered(text@)
            &&& b@.width == RASTER_SIZE
            &&& b@.height == RASTER_SIZE
            &&& b@.wf()
            &&& b@.opaque_gray()
            &&& b@.black_and_white()
        },
{
    if can_render(text) {
        Some(render(text))
    } else {
        None
    }
}

} // verus!
