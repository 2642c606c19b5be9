//! Image → `.ico` conversion.
//!
//! Accepts any aspect ratio and any format supported by the `image` crate (PNG,
//! JPEG, BMP, GIF, WebP, TIFF, ICO, …) and produces a Windows-compatible
//! multi-resolution `.ico` file by:
//!
//! 1. Decoding the source image.
//! 2. Letterboxing it onto a transparent square canvas (no stretch — preserves the
//!    original aspect ratio).
//! 3. Resampling to the standard set of icon sizes (16, 24, 32, 48, 64, 128, 256)
//!    with Lanczos3.
//! 4. Packaging every size into a single `.ico` with embedded PNG data.

use crate::error::RizonetError;
use crate::text::{chars_of, concat2, concat3, decimal_text};
use ico::IconDir;
use vstd::prelude::*;

verus! {

/// The icon sizes embedded into every generated `.ico`. Windows picks the closest
/// match at display time, so covering the common DPI buckets is enough to look
/// crisp on any monitor.
pub const ICON_SIZES: [u32; 7] = [16, 24, 32, 48, 64, 128, 256];

// --------------------------------------------------------------------- bitmaps

/// An image with eight bits each of red, green, blue and alpha per pixel, row by
/// row from the top.
#[derive(Debug)]
pub struct Bitmap {
    width: u32,
    height: u32,
    pixels: Vec<u8>,
}

/// An image: its width, its height, and its bytes.
pub type Picture = (u32, u32, Seq<u8>);

impl View for Bitmap {
    type V = Picture;

    closed spec fn view(&self) -> Picture {
        (self.width, self.height, self.pixels@)
    }
}

/// Whether an image has four bytes for each pixel.
pub open spec fn complete(p: Picture) -> bool {
    p.2.len() == 4 * (p.0 as int * p.1 as int)
}

/// The four bytes of the pixel at column `x` of row `y`.
pub open spec fn pixel(p: Picture, x: int, y: int) -> (u8, u8, u8, u8) {
    let at = 4 * (y * p.0 + x);
    (p.2[at], p.2[at + 1], p.2[at + 2], p.2[at + 3])
}

impl Bitmap {
    #[verifier::type_invariant]
    spec fn well_formed(self) -> bool {
        complete((self.width, self.height, self.pixels@))
    }

    /// An image with these bytes, if there are four for each pixel.
    pub fn new(width: u32, height: u32, pixels: Vec<u8>) -> (r: Option<Bitmap>)
        ensures
            match r {
                Some(b) => b@ == (width, height, pixels@) && complete(b@),
                None => !complete((width, height, pixels@)),
            },
    {
        proof {
            assert(width as int * height as int <= 0xffff_ffff * 0xffff_ffff) by (nonlinear_arith)
                requires
                    width <= 0xffff_ffff,
                    height <= 0xffff_ffff,
            ;
            assert(width as int * height as int >= 0) by (nonlinear_arith);
        }
        let area: u64 = width as u64 * height as u64;
        if pixels.len() as u128 == 4 * (area as u128) {
            Some(Bitmap { width, height, pixels })
        } else {
            None
        }
    }

    /// The width, in pixels.
    pub fn width(&self) -> (r: u32)
        ensures
            r == self@.0,
    {
        self.width
    }

    /// The height, in pixels.
    pub fn height(&self) -> (r: u32)
        ensures
            r == self@.1,
    {
        self.height
    }

    /// The bytes.
    pub fn pixels(&self) -> (r: &Vec<u8>)
        ensures
            r@ == self@.2,
            complete(self@),
    {
        proof {
            use_type_invariant(self);
        }
        &self.pixels
    }
}

// ----------------------------------------------------------------- letterboxing

/// The side of the square canvas for an image of that size.
pub open spec fn side_of(dims: (u32, u32)) -> u32 {
    if dims.0 >= dims.1 && dims.0 >= 1 {
        dims.0
    } else if dims.1 >= 1 {
        dims.1
    } else {
        1
    }
}

/// The larger of the width and the height.
pub open spec fn larger(dims: (u32, u32)) -> u32 {
    if dims.0 < dims.1 {
        dims.1
    } else {
        dims.0
    }
}

/// A square canvas of fully-transparent pixels.
pub open spec fn canvas(side: u32) -> Picture {
    (side, side, Seq::new((4 * (side as int * side as int)) as nat, |i: int| 0u8))
}

/// What `image::imageops::overlay` makes of a picture when another one is laid on
/// top of it at column `x` and row `y`.
pub uninterp spec fn image_overlay(
    bottom: (u32, u32, Seq<u8>),
    top: (u32, u32, Seq<u8>),
    x: u32,
    y: u32,
) -> Seq<u8>;

/// Whether `r` can be `bottom` with `top` laid on it at column `x` and row `y`, as
/// far as opaque and fully-transparent pixels decide: opaque ones cover what is
/// below, transparent ones leave it.
pub open spec fn covers(bottom: Picture, top: Picture, x: u32, y: u32, r: Picture) -> bool {
    &&& r.0 == bottom.0
    &&& r.1 == bottom.1
    &&& complete(r)
    &&& forall|i: int, j: int|
        0 <= i < bottom.0 && 0 <= j < bottom.1 ==> {
            let inside = x <= i < x + top.0 && y <= j < y + top.1;
            let above = pixel(top, i - x, j - y);
            &&& !inside ==> #[trigger] pixel(r, i, j) == pixel(bottom, i, j)
            &&& inside && above.3 == 255 ==> pixel(r, i, j) == above
            &&& inside && above.3 == 0 ==> pixel(r, i, j) == pixel(bottom, i, j)
        }
}

/// `image::imageops::overlay`. Its result is named; it keeps the size of the
/// picture below, pixels outside of the one on top stay, opaque pixels of the one
/// on top replace those below, and its fully-transparent ones leave them.
#[verifier::external_body]
fn overlay(bottom: Bitmap, top: &Bitmap, x: u32, y: u32) -> (r: Bitmap)
    ensures
        r@ == (bottom@.0, bottom@.1, image_overlay(bottom@, top@, x, y)),
        covers(bottom@, top@, x, y, r@),
{
    let (width, height) = (bottom.width, bottom.height);
    let below = image::RgbaImage::from_raw(width, height, bottom.pixels);
    let above = image::RgbaImage::from_raw(top.width, top.height, top.pixels.clone());
    let mut canvas = below.unwrap_or_default();
    image::imageops::overlay(&mut canvas, &above.unwrap_or_default(), x.into(), y.into());
    Bitmap { width, height, pixels: canvas.into_raw() }
}

/// Whether the canvas for images of that size can be held in memory.
pub open spec fn canvas_fits(dims: (u32, u32)) -> bool {
    4 * (side_of(dims) as int * side_of(dims) as int) <= isize::MAX
}

/// An image of the given size, padded to a square.
pub open spec fn letterboxed(src: Picture, dims: (u32, u32)) -> Picture {
    if dims.0 == dims.1 {
        src
    } else {
        let side = side_of(dims);
        let x = ((side - dims.0) / 2) as u32;
        let y = ((side - dims.1) / 2) as u32;
        (side, side, image_overlay(canvas(side), src, x, y))
    }
}

/// Whether `r` is a square with `src` in its centre, not stretched, and
/// fully-transparent pixels around it. Opaque and fully-transparent pixels of
/// `src` are as they were (but for the colour of transparent ones).
pub open spec fn centred(src: Picture, r: Picture) -> bool {
    let side = side_of((src.0, src.1));
    let left = (side - src.0) / 2;
    let above = (side - src.1) / 2;
    &&& r.0 == side && r.1 == side
    &&& complete(r)
    &&& forall|i: int, j: int|
        0 <= i < side && 0 <= j < side ==> {
            let inside = left <= i < left + src.0 && above <= j < above + src.1;
            let source = pixel(src, i - left, j - above);
            &&& !inside || source.3 == 0 ==> #[trigger] pixel(r, i, j) == (0u8, 0u8, 0u8, 0u8)
            &&& inside && source.3 == 255 ==> pixel(r, i, j) == source
        }
}

/// The smallest side that covers an image of that size.
fn square_side(dims: (u32, u32)) -> (r: u32)
    ensures
        r == side_of(dims),
{
    if dims.0 >= dims.1 && dims.0 >= 1 {
        dims.0
    } else if dims.1 >= 1 {
        dims.1
    } else {
        1
    }
}

/// A square canvas of fully-transparent pixels.
fn transparent_canvas(side: u32) -> (r: Bitmap)
    requires
        4 * (side as int * side as int) <= isize::MAX,
    ensures
        r@ == canvas(side),
{
    proof {
        assert(side as int * side as int >= 0) by (nonlinear_arith);
    }
    let n: usize = 4 * (side as usize * side as usize);
    let mut pixels: Vec<u8> = Vec::new();
    let mut i: usize = 0;
    while i < n
        invariant
            i <= n,
            pixels@ == Seq::new(i as nat, |k: int| 0u8),
        decreases n - i,
    {
        pixels.push(0);
        assert(pixels@ =~= Seq::new((i + 1) as nat, |k: int| 0u8));
        i = i + 1;
    }
    Bitmap { width: side, height: side, pixels }
}

/// A copy of an image.
fn copy_bitmap(src: &Bitmap) -> (r: Bitmap)
    ensures
        r@ == src@,
{
    proof {
        use_type_invariant(src);
    }
    let pixels: Vec<u8> = src.pixels.clone();
    assert(pixels@ =~= src.pixels@);
    Bitmap { width: src.width, height: src.height, pixels }
}

/// Pad `src` with fully-transparent pixels onto a square canvas whose side equals
/// `max(width, height)`. The original image is centred and **not stretched**, which
/// is what users almost always want when they hand us a wide banner or a tall
/// portrait photo.
pub fn letterbox_square(src: &Bitmap, dims: (u32, u32)) -> (r: Bitmap)
    requires
        dims.0 != dims.1 ==> canvas_fits(dims),
    ensures
        r@ == letterboxed(src@, dims),
        dims == (src@.0, src@.1) && dims.0 != dims.1 ==> centred(src@, r@),
        dims.0 == dims.1 ==> r@.0 == src@.0 && r@.1 == src@.1 && r@.2 == src@.2,
        dims.0 == dims.1 ==> forall|x: int, y: int|
            0 <= x < src@.0 && 0 <= y < src@.1 ==> #[trigger] pixel(r@, x, y) == pixel(src@, x, y),
        dims.0 != dims.1 ==> r@.0 == larger(dims) && r@.1 == larger(dims),
{
    let side: u32 = square_side(dims);
    if dims.0 == dims.1 {
        return copy_bitmap(src);
    }
    let below: Bitmap = transparent_canvas(side);
    let x: u32 = (side - dims.0) / 2;
    let y: u32 = (side - dims.1) / 2;
    let r: Bitmap = overlay(below, src, x, y);
    proof {
        assert forall|i: int, j: int| 0 <= i < side && 0 <= j < side implies #[trigger] pixel(
            canvas(side),
            i,
            j,
        ) == (0u8, 0u8, 0u8, 0u8) by {
            let n = side as int;
            assert(0 <= j * n + i && j * n + i + 1 <= n * n) by (nonlinear_arith)
                requires
                    0 <= i < n,
                    0 <= j < n,
            ;
        }
    }
    r
}

// ------------------------------------------------------------------- resampling

/// `image::imageops::resize` with the Lanczos3 filter. The result has the size
/// asked for, and an image that has that size already is copied. Nothing else is
/// claimed of its pixels: they are computed with a sine whose precision differs
/// between platforms.
#[verifier::external_body]
fn resize(src: &Bitmap, size: u32) -> (r: Bitmap)
    requires
        1 <= size <= 256,
        4096 * src@.0 <= isize::MAX,
    ensures
        r@.0 == size && r@.1 == size && complete(r@),
        src@.0 == size && src@.1 == size ==> r@ == src@,
{
    let image = image::RgbaImage::from_raw(src.width, src.height, src.pixels.clone());
    let filter = image::imageops::FilterType::Lanczos3;
    let resized = image::imageops::resize(&image.unwrap_or_default(), size, size, filter);
    Bitmap { width: size, height: size, pixels: resized.into_raw() }
}

/// Whether resampling `square` to that size, as [`resize`] does it, can come to
/// `frame`.
pub closed spec fn resizes(square: Bitmap, size: u32, frame: Bitmap) -> bool {
    call_ensures(resize, (&square, size), frame)
}

// -------------------------------------------------------------------- packaging

/// `ico::IconDir`, a collection of icons.
#[verifier::external_type_specification]
#[verifier::external_body]
pub struct ExIconDir(IconDir);

/// The icons of a collection, in the order in which they were added.
pub uninterp spec fn icons(dir: IconDir) -> Seq<(u32, u32, Seq<u8>)>;

/// Whether a collection was made for icons, not for cursors, and every one in it was
/// encoded as PNG data.
pub uninterp spec fn holds_png_icons(dir: IconDir) -> bool;

/// The file that `ico::IconDir::write` writes for a collection of icons that are all
/// encoded as PNG data.
pub uninterp spec fn ico_file(icons: Seq<(u32, u32, Seq<u8>)>) -> Seq<u8>;

/// `ico::IconDir::new` makes an empty collection, here one for icons.
#[verifier::external_body]
fn new_icon_dir() -> (r: IconDir)
    ensures
        icons(r) == Seq::<Picture>::empty(),
        holds_png_icons(r),
{
    IconDir::new(ico::ResourceType::Icon)
}

/// `ico::IconDirEntry::encode_as_png` of an image, and `ico::IconDir::add_entry`:
/// adds an icon, as PNG data, behind those that are there. It cannot fail: such an
/// image has a valid size and all of its bytes, and it is written to memory.
#[verifier::external_body]
fn add_icon(dir: &mut IconDir, icon: Bitmap) -> (r: Result<(), String>)
    requires
        holds_png_icons(*old(dir)),
        1 <= icon@.0 <= 256,
        1 <= icon@.1 <= 256,
        complete(icon@),
    ensures
        r is Ok,
        icons(*final(dir)) == icons(*old(dir)).push(icon@),
        holds_png_icons(*final(dir)),
{
    let image = ico::IconImage::from_rgba_data(icon.width, icon.height, icon.pixels);
    match ico::IconDirEntry::encode_as_png(&image) {
        Ok(entry) => {
            dir.add_entry(entry);
            Ok(())
        },
        Err(e) => Err(e.to_string()),
    }
}

/// The byte that tells a width or height in the directory of an icon file, where
/// 0 stands for 256 and more.
pub open spec fn size_byte(size: u32) -> u8 {
    if size > 255 {
        0
    } else {
        size as u8
    }
}

/// The number that four bytes of a file stand for, the lowest first.
pub open spec fn number_at(file: Seq<u8>, at: int) -> int {
    file[at] + 0x100 * file[at + 1] + 0x1_0000 * file[at + 2] + 0x100_0000 * file[at + 3]
}

/// Whether PNG data starts at a place of a file.
pub open spec fn png_at(file: Seq<u8>, at: int) -> bool {
    &&& 0 <= at && at + 8 <= file.len()
    &&& file.subrange(at, at + 8) == seq![0x89u8, 0x50, 0x4e, 0x47, 0x0d, 0x0a, 0x1a, 0x0a]
}

/// Whether a file starts as one with these icons does: with the mark of an icon
/// file, the number of icons, and for each icon sixteen bytes that start with its
/// width and height and end with the place of its data, which are PNG data.
pub open spec fn lists(file: Seq<u8>, icons: Seq<Picture>) -> bool {
    &&& file.len() >= 6 + 16 * icons.len()
    &&& file[0] == 0 && file[1] == 0 && file[2] == 1 && file[3] == 0
    &&& file[4] == icons.len() && file[5] == 0
    &&& forall|i: int|
        0 <= i < icons.len() ==> file[6 + 16 * i] == size_byte((#[trigger] icons[i]).0)
            && file[7 + 16 * i] == size_byte(icons[i].1) && png_at(
            file,
            number_at(file, 18 + 16 * i),
        )
}

/// `ico::IconDir::write` into memory. Its result is named; it starts with the
/// directory of the icons, and where that says so stand their PNG data. It cannot
/// fail for so few icons.
#[verifier::external_body]
fn write_icon_dir(dir: &IconDir) -> (r: Result<Vec<u8>, String>)
    requires
        holds_png_icons(*dir),
        icons(*dir).len() <= 255,
        forall|i: int|
            0 <= i < icons(*dir).len() ==> (#[trigger] icons(*dir)[i]).0 <= 256 && icons(
                *dir,
            )[i].1 <= 256,
    ensures
        r is Ok,
        r->Ok_0@ == ico_file(icons(*dir)),
        lists(r->Ok_0@, icons(*dir)),
{
    let mut out = Vec::new();
    match dir.write(&mut out) {
        Ok(_) => Ok(out),
        Err(e) => Err(e.to_string()),
    }
}

/// Whether `frames` are one icon for each of the standard sizes, in order.
pub open spec fn standard_sizes(frames: Seq<Picture>) -> bool {
    &&& frames.len() == ICON_SIZES@.len()
    &&& forall|i: int|
        0 <= i < frames.len() ==> (#[trigger] frames[i]).0 == ICON_SIZES@[i] && frames[i].1
            == ICON_SIZES@[i] && complete(frames[i])
}

/// The views of a list of images.
pub open spec fn pictures(frames: Seq<Bitmap>) -> Seq<Picture> {
    frames.map_values(|b: Bitmap| b@)
}

/// Whether `r` is what packaging the frames comes to: the icon file with all of
/// them.
pub open spec fn packages(frames: Seq<Picture>, r: Result<Vec<u8>, RizonetError>) -> bool {
    &&& r matches Ok(file)
    &&& file@ == ico_file(frames)
    &&& lists(file@, frames)
}

/// Package every size into a single `.ico`.
pub fn pack_icons(frames: Vec<Bitmap>) -> (r: Result<Vec<u8>, RizonetError>)
    requires
        standard_sizes(pictures(frames@)),
    ensures
        packages(pictures(frames@), r),
{
    let ghost all = pictures(frames@);
    let mut dir: IconDir = new_icon_dir();
    let mut i: usize = 0;
    assert(all.take(0) =~= Seq::empty());
    while i < frames.len()
        invariant
            i <= frames@.len(),
            all == pictures(frames@),
            standard_sizes(all),
            icons(dir) == all.take(i as int),
            holds_png_icons(dir),
        decreases frames@.len() - i,
    {
        let size: u32 = frames[i].width();
        assert(frames@[i as int]@ == all[i as int]);
        assert(1 <= size <= 256) by {
            assert(ICON_SIZES@[i as int] == all[i as int].0);
        }
        match add_icon(&mut dir, copy_bitmap(&frames[i])) {
            Ok(_) => {
                assert(all.take(i as int).push(all[i as int]) =~= all.take(i + 1));
            },
            Err(e) => {
                let at: String = concat3(
                    "ico encode failed at ",
                    decimal_text(size as u64).as_str(),
                    "px: ",
                );
                return Err(RizonetError::Other(concat2(at.as_str(), e.as_str())));
            },
        }
        i = i + 1;
    }
    proof {
        assert(all.take(i as int) =~= all);
        assert forall|j: int| 0 <= j < all.len() implies (#[trigger] all[j]).0 <= 256 && all[j].1
            <= 256 by {
            assert(ICON_SIZES@[j] <= 256);
        }
    }
    match write_icon_dir(&dir) {
        Ok(file) => Ok(file),
        Err(e) => Err(RizonetError::Other(concat2("ico serialize failed: ", e.as_str()))),
    }
}

/// Whether the work on an image can be held in memory.
pub open spec fn workable(src: Picture, dims: (u32, u32)) -> bool {
    &&& canvas_fits(dims)
    &&& 4096 * src.0 <= isize::MAX
    &&& 4096 * side_of(dims) <= isize::MAX
}

/// The larger side alone decides whether the canvas can be held in memory.
proof fn lemma_workable(src: Picture, dims: (u32, u32))
    ensures
        workable(src, dims) <==> 4 * (larger(dims) * larger(dims)) <= isize::MAX && 4096 * src.0
            <= isize::MAX && 4096 * larger(dims) <= isize::MAX,
{
    if larger(dims) == 0 {
        assert(larger(dims) * larger(dims) == 0);
        assert(side_of(dims) == 1);
        assert(side_of(dims) as int * side_of(dims) as int == 1);
    } else {
        assert(side_of(dims) == larger(dims));
    }
}

/// Whether the work on an image can be held in memory.
pub fn is_workable(src: &Bitmap, dims: (u32, u32)) -> (r: bool)
    ensures
        r == workable(src@, dims),
        r <==> 4 * (larger(dims) * larger(dims)) <= isize::MAX && 4096 * src@.0 <= isize::MAX
            && 4096 * larger(dims) <= isize::MAX,
{
    let side: u64 = square_side(dims) as u64;
    let most: u64 = isize::MAX as u64;
    proof {
        lemma_workable(src@, dims);
        assert(side as int * side as int <= 0xffff_ffff * 0xffff_ffff) by (nonlinear_arith)
            requires
                0 <= side <= 0xffff_ffff,
        ;
        assert(side as int * side as int >= 0) by (nonlinear_arith);
    }
    let area: u64 = side * side;
    area <= most / 4 && 4096 * (src.width() as u64) <= most && 4096 * side <= most
}

/// Whether `frames` are the icons of an image that was padded to `square`: that
/// square resampled to each of the standard sizes, where a square that has the size
/// already is taken as it is.
pub open spec fn resampled(square: Bitmap, frames: Seq<Bitmap>) -> bool {
    &&& standard_sizes(pictures(frames))
    &&& forall|i: int|
        0 <= i < frames.len() ==> resizes(square, ICON_SIZES@[i], #[trigger] frames[i])
    &&& forall|i: int|
        0 <= i < frames.len() && square@.0 == ICON_SIZES@[i] && square@.1 == ICON_SIZES@[i]
            ==> (#[trigger] frames[i])@ == square@
}

/// Whether `r` is an icon file for an image of size `dims`: the image is padded to
/// a square, that square is resampled to each of the standard sizes, and all of them
/// are packaged.
pub open spec fn encodes(
    src: Picture,
    dims: (u32, u32),
    r: Result<Vec<u8>, RizonetError>,
) -> bool {
    exists|square: Bitmap, frames: Seq<Bitmap>| #[trigger]
        resampled(square, frames) && square@ == letterboxed(src, dims) && packages(
            pictures(frames),
            r,
        )
}

/// Convert an already-decoded RGBA image of size `dims` into a multi-resolution
/// `.ico`.
pub fn encode_ico_from_rgba(src: &Bitmap, dims: (u32, u32)) -> (r: Result<Vec<u8>, RizonetError>)
    requires
        workable(src@, dims),
    ensures
        r is Ok,
        encodes(src@, dims, r),
{
    let square: Bitmap = letterbox_square(src, dims);
    let sizes: [u32; 7] = ICON_SIZES;
    let mut frames: Vec<Bitmap> = Vec::new();
    let mut i: usize = 0;
    while i < sizes.len()
        invariant
            i == frames@.len(),
            i <= sizes@.len(),
            sizes@ == ICON_SIZES@,
            4096 * square@.0 <= isize::MAX,
            forall|j: int|
                0 <= j < i ==> {
                    let frame = #[trigger] frames@[j];
                    &&& resizes(square, ICON_SIZES@[j], frame)
                    &&& frame@.0 == ICON_SIZES@[j] && frame@.1 == ICON_SIZES@[j] && complete(frame@)
                    &&& square@.0 == ICON_SIZES@[j] && square@.1 == ICON_SIZES@[j] ==> frame@
                        == square@
                },
        decreases sizes@.len() - i,
    {
        let size: u32 = sizes[i];
        let frame: Bitmap = resize(&square, size);
        assert(resizes(square, size, frame));
        frames.push(frame);
        i = i + 1;
    }
    proof {
        assert forall|j: int| 0 <= j < frames@.len() implies (#[trigger] pictures(frames@)[j])
            == frames@[j]@ by {}
        assert(resampled(square, frames@));
    }
    pack_icons(frames)
}

// --------------------------------------------------------------------- decoding

/// What came of decoding an image.
#[derive(Debug)]
pub enum DecodeOutcome {
    Decoded(Bitmap),
    /// Neither the bytes nor the name told the format.
    Undetermined(String),
    Failed(String),
}

/// `image::ImageReader::decode`, in the format that the first bytes show, or else the
/// one that the extension of `hint` stands for. Nothing is claimed of the outcome:
/// decoders choose between code for different processors, and a program can register
/// more of them. Decoders that are registered for an extension, without a signature
/// of their files, are not asked: only a reader that opens a file asks these.
#[verifier::external_body]
fn decode_image(bytes: &[u8], hint: &str) -> (r: DecodeOutcome) {
    let mut reader = image::ImageReader::new(std::io::Cursor::new(bytes));
    if let Ok(format) = image::ImageFormat::from_path(hint) {
        reader.set_format(format);
    }
    match reader.with_guessed_format().map_err(image::ImageError::from).and_then(|r| r.decode()) {
        Ok(image) => {
            let (width, height) = (image.width(), image.height());
            DecodeOutcome::Decoded(Bitmap { width, height, pixels: image.to_rgba8().into_raw() })
        },
        Err(image::ImageError::Unsupported(e)) if e.format_hint()
            == image::error::ImageFormatHint::Unknown => DecodeOutcome::Undetermined(e.to_string()),
        Err(e) => DecodeOutcome::Failed(e.to_string()),
    }
}

/// `image::ImageFormat::from_path`: why a name tells no format, in its words; None
/// where it tells one. Nothing is claimed of the words, nor of which extensions tell
/// a format.
#[verifier::external_body]
fn format_problem(hint: &str) -> (r: Option<String>) {
    match image::ImageFormat::from_path(hint) {
        Ok(_) => None,
        Err(e) => Some(e.to_string()),
    }
}

/// Whether decoding bytes with that hint, as [`decode_image`] does it, can come to
/// `outcome`.
pub closed spec fn decodes(bytes: &[u8], hint: &str, outcome: DecodeOutcome) -> bool {
    call_ensures(decode_image, (bytes, hint), outcome)
}

/// Whether `problem` can be what [`format_problem`] has to say of a hint.
pub closed spec fn complains(hint: &str, problem: Option<String>) -> bool {
    call_ensures(format_problem, (hint,), problem)
}

/// What the name of a file tells of the format of an image: nothing where it ends in
/// a dot.
pub open spec fn format_hint(file_name: Seq<char>) -> Seq<char> {
    if file_name.len() > 0 && file_name.last() == '.' {
        Seq::empty()
    } else {
        file_name
    }
}

/// Why there is no image to convert.
#[derive(Debug)]
pub enum IconSourceFailure {
    Open { path: String, cause: String },
    Sniff(String),
    Decode(String),
}

/// The failure to get at an image, where `path` is the path as it is shown.
pub fn icon_source_error(failure: IconSourceFailure) -> (e: RizonetError)
    ensures
        e matches RizonetError::Other(m) && match failure {
            IconSourceFailure::Open { path, cause } => m@ == "failed to open icon source "@ + path@
                + ": "@ + cause@,
            IconSourceFailure::Sniff(cause) => m@ == "failed to sniff icon format: "@ + cause@,
            IconSourceFailure::Decode(cause) => m@ == "failed to decode icon: "@ + cause@,
        },
{
    RizonetError::Other(
        match failure {
            IconSourceFailure::Open { path, cause } => concat2(
                concat3("failed to open icon source ", path.as_str(), ": ").as_str(),
                cause.as_str(),
            ),
            IconSourceFailure::Sniff(cause) => concat2(
                "failed to sniff icon format: ",
                cause.as_str(),
            ),
            IconSourceFailure::Decode(cause) => concat2("failed to decode icon: ", cause.as_str()),
        },
    )
}

/// Why there is no image, where the decoder gave none: what is wrong with the name
/// where the format is the matter and the name should have told it, and else what
/// the decoder says.
pub open spec fn decode_cause(outcome: DecodeOutcome, problem: Option<String>) -> Option<Seq<char>> {
    match outcome {
        DecodeOutcome::Decoded(_) => None,
        DecodeOutcome::Undetermined(words) => match problem {
            Some(other) => Some(other@),
            None => Some(words@),
        },
        DecodeOutcome::Failed(words) => Some(words@),
    }
}

/// Whether `r` is what an outcome of the decoder comes to, when that is the problem
/// with the name.
pub open spec fn reports(
    outcome: DecodeOutcome,
    problem: Option<String>,
    r: Result<Bitmap, RizonetError>,
) -> bool {
    match outcome {
        DecodeOutcome::Decoded(image) => r == Ok::<Bitmap, RizonetError>(image),
        _ => r matches Err(RizonetError::Other(m)) && m@ == "failed to decode icon: "@
            + decode_cause(outcome, problem)->0,
    }
}

/// What an outcome of the decoder comes to, by what is wrong with the name.
pub fn finish_decode(outcome: DecodeOutcome, problem: Option<String>) -> (r: Result<
    Bitmap,
    RizonetError,
>)
    ensures
        reports(outcome, problem, r),
        match (outcome, problem) {
            (DecodeOutcome::Decoded(image), _) => r == Ok::<Bitmap, RizonetError>(image),
            (DecodeOutcome::Undetermined(_), Some(words)) => r matches Err(RizonetError::Other(m))
                && m@ == "failed to decode icon: "@ + words@,
            (DecodeOutcome::Undetermined(words), None) => r matches Err(RizonetError::Other(m))
                && m@ == "failed to decode icon: "@ + words@,
            (DecodeOutcome::Failed(words), _) => r matches Err(RizonetError::Other(m)) && m@
                == "failed to decode icon: "@ + words@,
        },
{
    let cause: String = match outcome {
        DecodeOutcome::Decoded(image) => {
            return Ok(image);
        },
        DecodeOutcome::Undetermined(words) => match problem {
            Some(other) => other,
            None => words,
        },
        DecodeOutcome::Failed(words) => words,
    };
    Err(icon_source_error(IconSourceFailure::Decode(cause)))
}

/// Decode the contents of an image file.
pub fn decode_icon(bytes: &[u8], file_name: &str) -> (r: Result<Bitmap, RizonetError>)
    ensures
        exists|hint: &str, outcome: DecodeOutcome, problem: Option<String>|
            #![trigger decodes(bytes, hint, outcome), complains(hint, problem)]
            {
                &&& hint@ == format_hint(file_name@)
                &&& decodes(bytes, hint, outcome)
                &&& complains(hint, problem)
                &&& reports(outcome, problem, r)
            },
{
    let chars: Vec<char> = chars_of(file_name);
    let hint: &str = if chars.len() > 0 && chars[chars.len() - 1] == '.' {
        ""
    } else {
        file_name
    };
    proof {
        reveal_strlit("");
        assert(hint@ =~= format_hint(file_name@));
    }
    let outcome: DecodeOutcome = decode_image(bytes, hint);
    let problem: Option<String> = format_problem(hint);
    assert(decodes(bytes, hint, outcome));
    assert(complains(hint, problem));
    finish_decode(outcome, problem)
}

/// Whether `r` is what an outcome of the decoder comes to as an icon file: nothing
/// where the work on the image cannot be held in memory.
pub open spec fn converts(
    outcome: DecodeOutcome,
    problem: Option<String>,
    r: Option<Result<Vec<u8>, RizonetError>>,
) -> bool {
    match outcome {
        DecodeOutcome::Decoded(image) => if workable(image@, (image@.0, image@.1)) {
            r matches Some(Ok(file)) && encodes(image@, (image@.0, image@.1), Ok(file))
        } else {
            r is None
        },
        _ => r matches Some(Err(RizonetError::Other(m))) && m@ == "failed to decode icon: "@
            + decode_cause(outcome, problem)->0,
    }
}

/// Convert the contents of an image file into a multi-resolution `.ico`. None where
/// the work on the image cannot be held in memory.
pub fn encode_ico_from_bytes(bytes: &[u8], file_name: &str) -> (r: Option<
    Result<Vec<u8>, RizonetError>,
>)
    ensures
        exists|hint: &str, outcome: DecodeOutcome, problem: Option<String>|
            #![trigger decodes(bytes, hint, outcome), complains(hint, problem)]
            {
                &&& hint@ == format_hint(file_name@)
                &&& decodes(bytes, hint, outcome)
                &&& complains(hint, problem)
                &&& converts(outcome, problem, r)
            },
{
    match decode_icon(bytes, file_name) {
        Err(e) => Some(Err(e)),
        Ok(image) => {
            let dims: (u32, u32) = (image.width(), image.height());
            if is_workable(&image, dims) {
                Some(encode_ico_from_rgba(&image, dims))
            } else {
                None
            }
        },
    }
}

// ----------------------------------------------------------------------- laws

/// An icon file that was packaged holds one icon for each of the standard sizes, in
/// order and with embedded PNG data: its directory says so.
pub proof fn law_every_size_is_packaged(frames: Seq<Picture>, file: Vec<u8>, i: int)
    requires
        standard_sizes(frames),
        packages(frames, Ok(file)),
        0 <= i < ICON_SIZES@.len(),
    ensures
        file@.len() >= 6 + 16 * ICON_SIZES@.len(),
        file@[4] == ICON_SIZES@.len() && file@[5] == 0,
        file@[6 + 16 * i] == size_byte(ICON_SIZES@[i]),
        file@[7 + 16 * i] == size_byte(ICON_SIZES@[i]),
        png_at(file@, number_at(file@, 18 + 16 * i)),
{
    assert(frames[i].0 == ICON_SIZES@[i]);
}

/// Letterboxing centres: the margins on opposite sides differ by one pixel at most,
/// and one of the two directions has none.
pub proof fn law_margins_are_even(dims: (u32, u32))
    requires
        dims.0 >= 1 || dims.1 >= 1,
    ensures
        ({
            let side = side_of(dims) as int;
            let left = (side - dims.0) / 2;
            let above = (side - dims.1) / 2;
            &&& 0 <= (side - dims.0 - left) - left <= 1
            &&& 0 <= (side - dims.1 - above) - above <= 1
            &&& side == dims.0 || side == dims.1
        }),
{
}

/// A square image is not changed by letterboxing: it has the same size, and the same
/// bytes in the same places.
pub proof fn law_square_images_stay_as_they_are(
    src: &Bitmap,
    dims: (u32, u32),
    r: Bitmap,
    x: int,
    y: int,
)
    requires
        dims.0 == dims.1,
        call_ensures(letterbox_square, (src, dims), r),
        0 <= x < src@.0,
        0 <= y < src@.1,
    ensures
        r@.0 == src@.0,
        r@.1 == src@.1,
        r@.2.len() == src@.2.len(),
        r@.2[4 * (y * src@.0 + x)] == src@.2[4 * (y * src@.0 + x)],
        r@.2[4 * (y * src@.0 + x) + 1] == src@.2[4 * (y * src@.0 + x) + 1],
        r@.2[4 * (y * src@.0 + x) + 2] == src@.2[4 * (y * src@.0 + x) + 2],
        r@.2[4 * (y * src@.0 + x) + 3] == src@.2[4 * (y * src@.0 + x) + 3],
        r@ == src@,
{
}

/// An image that is not square is padded to a square with its larger side. Each byte
/// of an opaque pixel is found again, as far right and as far down as half of the
/// padding; what lies outside of the image is transparent, and so is what was.
pub proof fn law_letterboxing_moves_pixels_to_the_centre(
    src: &Bitmap,
    r: Bitmap,
    i: int,
    j: int,
    c: int,
)
    requires
        src@.0 != src@.1,
        canvas_fits((src@.0, src@.1)),
        call_ensures(letterbox_square, (src, (src@.0, src@.1)), r),
        0 <= i < r@.0,
        0 <= j < r@.1,
        0 <= c < 4,
    ensures
        ({
            let (width, height) = (src@.0 as int, src@.1 as int);
            let side = if width < height {
                height
            } else {
                width
            };
            let (x, y) = (i - (side - width) / 2, j - (side - height) / 2);
            let inside = 0 <= x < width && 0 <= y < height;
            let (to, from) = (4 * (j * side + i), 4 * (y * width + x));
            &&& r@.0 == side && r@.1 == side
            &&& r@.2.len() == 4 * (side * side)
            &&& !inside ==> r@.2[to + c] == 0
            &&& inside && src@.2[from + 3] == 255 ==> r@.2[to + c] == src@.2[from + c]
            &&& inside && src@.2[from + 3] == 0 ==> r@.2[to + c] == 0
        }),
{
    let side = side_of((src@.0, src@.1));
    let (left, above) = ((side - src@.0) / 2, (side - src@.1) / 2);
    assert(centred(src@, r@));
    let shown = pixel(r@, i, j);
    let source = pixel(src@, i - left, j - above);
    assert(c == 0 || c == 1 || c == 2 || c == 3);
}

/// What is resampled for an icon file: a square image as it is, and any other one laid
/// on a transparent canvas with its larger side, in the middle.
pub proof fn law_padding(src: Picture, dims: (u32, u32))
    ensures
        dims.0 == dims.1 ==> letterboxed(src, dims) == src,
        dims.0 != dims.1 ==> {
            let side = larger(dims);
            letterboxed(src, dims) == (
                side,
                side,
                image_overlay(
                    (side, side, Seq::new((4 * (side * side)) as nat, |i: int| 0u8)),
                    src,
                    ((side - dims.0) / 2) as u32,
                    ((side - dims.1) / 2) as u32,
                ),
            )
        },
{
}

/// An icon file is made of the letterboxed image: whatever letterboxing gives is what
/// is resampled, for each of the sizes from 16 to 256, and the file holds these icons
/// in that order, with their sizes in its directory.
pub proof fn law_icons_show_the_letterboxed_image(
    src: &Bitmap,
    dims: (u32, u32),
    square: Bitmap,
    r: Result<Vec<u8>, RizonetError>,
)
    requires
        workable(src@, dims),
        call_ensures(letterbox_square, (src, dims), square),
        call_ensures(encode_ico_from_rgba, (src, dims), r),
    ensures
        r matches Ok(file) && exists|padded: Bitmap, frames: Seq<Bitmap>|
            #![trigger resampled(padded, frames)]
            {
                &&& padded@ == square@
                &&& file@ == ico_file(pictures(frames))
                &&& frames.len() == 7
                &&& resizes(padded, 16, frames[0]) && resizes(padded, 24, frames[1])
                &&& resizes(padded, 32, frames[2]) && resizes(padded, 48, frames[3])
                &&& resizes(padded, 64, frames[4]) && resizes(padded, 128, frames[5])
                &&& resizes(padded, 256, frames[6])
                &&& forall|i: int|
                    0 <= i < 7 ==> {
                        let icon = (#[trigger] frames[i])@;
                        &&& icon.0 == icon.1 && icon.2.len() == 4 * (icon.0 * icon.1)
                        &&& square@.0 == icon.0 && square@.1 == icon.1 ==> icon == square@
                    }
            },
        r matches Ok(file) ==> {
            &&& file@[2] == 1 && file@[4] == 7 && file@[5] == 0
            &&& file@[6] == 16 && file@[22] == 24 && file@[38] == 32 && file@[54] == 48
            &&& file@[70] == 64 && file@[86] == 128 && file@[102] == 0
            &&& file@[7] == 16 && file@[23] == 24 && file@[39] == 32 && file@[55] == 48
            &&& file@[71] == 64 && file@[87] == 128 && file@[103] == 0
        },
{
    let (padded, frames) = choose|padded: Bitmap, frames: Seq<Bitmap>| #[trigger]
        resampled(padded, frames) && padded@ == letterboxed(src@, dims) && packages(
            pictures(frames),
            r,
        );
    let all = pictures(frames);
    let sizes = ICON_SIZES@;
    assert(sizes.len() == 7);
    assert(sizes[0] == 16 && sizes[1] == 24 && sizes[2] == 32 && sizes[3] == 48 && sizes[4] == 64
        && sizes[5] == 128 && sizes[6] == 256);
    assert forall|i: int| 0 <= i < 7 implies (#[trigger] frames[i])@ == all[i] by {}
    assert(all[0] == frames[0]@ && all[1] == frames[1]@ && all[2] == frames[2]@);
    assert(all[3] == frames[3]@ && all[4] == frames[4]@ && all[5] == frames[5]@);
    assert(all[6] == frames[6]@);
    let file = r->Ok_0@;
    assert(lists(file, all));
}

/// The hint that a decoder gets is the name of the file, and nothing where that ends
/// in a dot; what is reported of the image is what becomes of the decoder's outcome.
pub proof fn law_decoding_reports_the_outcome(
    bytes: &[u8],
    file_name: &str,
    r: Result<Bitmap, RizonetError>,
)
    requires
        call_ensures(decode_icon, (bytes, file_name), r),
    ensures
        exists|hint: &str, outcome: DecodeOutcome, problem: Option<String>|
            #![trigger decodes(bytes, hint, outcome), complains(hint, problem)]
            {
                &&& decodes(bytes, hint, outcome)
                &&& complains(hint, problem)
                &&& file_name@.len() > 0 && file_name@[file_name@.len() - 1] == '.' ==> hint@.len()
                    == 0
                &&& file_name@.len() == 0 || file_name@[file_name@.len() - 1] != '.' ==> hint@
                    == file_name@
                &&& outcome matches DecodeOutcome::Decoded(image) ==> r == Ok::<
                    Bitmap,
                    RizonetError,
                >(image)
                &&& outcome matches DecodeOutcome::Failed(words) ==> (r matches Err(
                    RizonetError::Other(m),
                ) && m@ == "failed to decode icon: "@ + words@)
                &&& outcome matches DecodeOutcome::Undetermined(words) ==> (r matches Err(
                    RizonetError::Other(m),
                ) && m@ == "failed to decode icon: "@ + (if problem is Some {
                    problem->0@
                } else {
                    words@
                }))
            },
{
}

/// An image file that is decoded becomes the icon file of the image, whatever its
/// format, unless the work cannot be held in memory; any other one fails as decoding
/// it does.
pub proof fn law_image_files_become_icon_files(
    bytes: &[u8],
    file_name: &str,
    r: Option<Result<Vec<u8>, RizonetError>>,
)
    requires
        call_ensures(encode_ico_from_bytes, (bytes, file_name), r),
    ensures
        exists|hint: &str, outcome: DecodeOutcome, problem: Option<String>|
            #![trigger decodes(bytes, hint, outcome), complains(hint, problem)]
            {
                &&& decodes(bytes, hint, outcome)
                &&& complains(hint, problem)
                &&& hint@ == format_hint(file_name@)
                &&& outcome matches DecodeOutcome::Decoded(image) ==> {
                    let (w, h) = (image@.0, image@.1);
                    let side = larger((w, h));
                    let fits = 4 * (side * side) <= isize::MAX && 4096 * side <= isize::MAX;
                    &&& r is None <==> !fits
                    &&& r is Some ==> r->0 is Ok && encodes(image@, (w, h), r->0)
                }
                &&& outcome is Undetermined ==> (r matches Some(Err(RizonetError::Other(m))) && m@
                    == "failed to decode icon: "@ + (if problem is Some {
                    problem->0@
                } else {
                    outcome->Undetermined_0@
                }))
                &&& outcome matches DecodeOutcome::Failed(words) ==> (r matches Some(
                    Err(RizonetError::Other(m)),
                ) && m@ == "failed to decode icon: "@ + words@)
            },
{
    let (hint, outcome, problem) = choose|
        hint: &str,
        outcome: DecodeOutcome,
        problem: Option<String>,
    |
        #![trigger decodes(bytes, hint, outcome), complains(hint, problem)]
        {
            &&& hint@ == format_hint(file_name@)
            &&& decodes(bytes, hint, outcome)
            &&& complains(hint, problem)
            &&& converts(outcome, problem, r)
        };
    match outcome {
        DecodeOutcome::Decoded(image) => {
            lemma_workable(image@, (image@.0, image@.1));
        },
        _ => {},
    }
    assert(decodes(bytes, hint, outcome) && complains(hint, problem));
}

/// Packing keeps every icon: the file is that of all the frames, in order.
pub proof fn law_packing_keeps_every_icon(frames: Vec<Bitmap>, r: Result<Vec<u8>, RizonetError>)
    requires
        standard_sizes(pictures(frames@)),
        call_ensures(pack_icons, (frames,), r),
    ensures
        r matches Ok(file) && file@ == ico_file(frames@.map_values(|b: Bitmap| b@)),
{
}

/// Bytes make an image exactly when there are four for each pixel, and the image then
/// has that size and these bytes.
pub proof fn law_four_bytes_for_each_pixel(
    width: u32,
    height: u32,
    pixels: Vec<u8>,
    r: Option<Bitmap>,
)
    requires
        call_ensures(Bitmap::new, (width, height, pixels), r),
    ensures
        r is Some <==> pixels@.len() == 4 * (width * height),
        r matches Some(image) ==> image@.0 == width && image@.1 == height && image@.2 == pixels@,
{
}

/// An icon is what the outside call makes of the padded image and the size, and an
/// image what it makes of the bytes and the hint: nothing is put in their place.
proof fn law_outside_calls_are_what_counts(
    square: Bitmap,
    size: u32,
    frame: Bitmap,
    bytes: &[u8],
    hint: &str,
    outcome: DecodeOutcome,
    problem: Option<String>,
)
    ensures
        resizes(square, size, frame) <==> call_ensures(resize, (&square, size), frame),
        decodes(bytes, hint, outcome) <==> call_ensures(decode_image, (bytes, hint), outcome),
        complains(hint, problem) <==> call_ensures(format_problem, (hint,), problem),
{
}

} // verus!
