//! The render pipeline: parse the SVG, take its size, allocate a pixel
//! buffer, rasterize, encode as PNG. Every stage either hands its product to
//! the next or ends the run with the error that names it.
//!
//! Parsing, rasterizing and encoding are done by `usvg`, `resvg` and
//! `tiny_skia`. What this module assumes of them is written on the items
//! marked `external_body` and on the functions without a body; everything
//! else is proved from that.

use vstd::prelude::*;
use crate::error::{RenderError, RenderErrorView};

verus! {

#[verifier::external_type_specification]
#[verifier::external_body]
pub struct ExTree(usvg::Tree);

#[verifier::external_type_specification]
#[verifier::external_body]
pub struct ExDecodeError(usvg::Error);

#[verifier::external_type_specification]
#[verifier::external_body]
pub struct ExPixmap(tiny_skia::Pixmap);

#[verifier::external_type_specification]
#[verifier::external_body]
pub struct ExEncodingError(png::EncodingError);

/// A pixel buffer together with its size. Width and height are positive, and
/// the buffer holds four bytes for each pixel.
#[derive(Debug)]
pub struct RasterImage {
    pixmap: tiny_skia::Pixmap,
    width: u32,
    height: u32,
}

/// The mathematical value of a [`RasterImage`].
pub struct RasterImageView {
    pub width: u32,
    pub height: u32,
    pub pixels: Seq<u8>,
}

impl View for RasterImage {
    type V = RasterImageView;

    closed spec fn view(&self) -> RasterImageView {
        RasterImageView {
            width: self.width,
            height: self.height,
            pixels: pixmap_pixels(self.pixmap),
        }
    }
}

/// Holds of SVG bytes and of each result that `usvg::Tree::from_data` gives
/// for them under default options. It is a relation, not a function: the
/// parser opens the image files that the markup refers to, so the same bytes
/// can parse to different documents as those files change.
pub uninterp spec fn parses_to(data: Seq<u8>, parsed: Result<usvg::Tree, usvg::Error>) -> bool;

/// What `usvg::Error` prints as.
pub uninterp spec fn decode_error_text(err: usvg::Error) -> Seq<char>;

/// The width and height in pixels that a parsed document declares: its size
/// in user units, each side rounded to the nearest integer and raised to 1
/// where that is 0.
pub uninterp spec fn document_size(tree: usvg::Tree) -> (u32, u32);

/// The width and height of a pixel buffer.
pub uninterp spec fn pixmap_size(pixmap: tiny_skia::Pixmap) -> (u32, u32);

/// The bytes of a pixel buffer: four per pixel (red, green, blue, alpha), row
/// by row from the top.
pub uninterp spec fn pixmap_pixels(pixmap: tiny_skia::Pixmap) -> Seq<u8>;

/// What `resvg::render` leaves in a pixel buffer of the given size and
/// content when it draws `tree` at its own size under the identity
/// transform, or `None` where it reports a failure.
pub uninterp spec fn rasterized(tree: usvg::Tree, width: u32, height: u32, canvas: Seq<u8>) -> Option<
    Seq<u8>,
>;

/// What `tiny_skia::Pixmap::encode_png` gives for a pixel buffer of the given
/// size and content.
pub uninterp spec fn png_encoding(width: u32, height: u32, pixels: Seq<u8>) -> Result<
    Seq<u8>,
    png::EncodingError,
>;

/// What `png::EncodingError` prints as.
pub uninterp spec fn encode_error_text(err: png::EncodingError) -> Seq<char>;

/// Whether a pixel buffer of this size can be made: both sides positive, a
/// row of at most `i32::MAX` bytes, and a byte count that fits `usize`.
pub open spec fn pixmap_fits(width: u32, height: u32) -> bool {
    &&& width > 0
    &&& height > 0
    &&& 4 * width <= i32::MAX
    &&& 4 * width * height <= usize::MAX
}

/// The bytes of a fully transparent pixel buffer: all zero.
pub open spec fn blank_pixels(width: u32, height: u32) -> Seq<u8> {
    Seq::new((4 * width * height) as nat, |i: int| 0u8)
}

/// The four bytes of `value`, most significant first.
pub open spec fn big_endian(value: u32) -> Seq<u8> {
    seq![
        (value / 0x100_0000) as u8,
        (value / 0x1_0000 % 0x100) as u8,
        (value / 0x100 % 0x100) as u8,
        (value % 0x100) as u8,
    ]
}

/// The first 24 bytes of every PNG file of the given size: the signature,
/// then the length and the tag of the header chunk, then width and height.
pub open spec fn png_header(width: u32, height: u32) -> Seq<u8> {
    seq![137u8, 80, 78, 71, 13, 10, 26, 10, 0, 0, 0, 13, 73, 72, 68, 82] + big_endian(width)
        + big_endian(height)
}

/// Whether `png` begins as a PNG file of the given size does.
pub open spec fn png_declares_size(png: Seq<u8>, width: u32, height: u32) -> bool {
    png.len() >= 24 && png.subrange(0, 24) == png_header(width, height)
}

/// The blank image of the given size: every pixel transparent.
pub open spec fn blank_image(width: u32, height: u32) -> RasterImageView {
    RasterImageView { width, height, pixels: blank_pixels(width, height) }
}

/// The image that drawing `tree` onto `canvas` gives: of the same size, with
/// the pixels that the rasterizer leaves; `None` where the rasterizer fails.
pub open spec fn drawing(tree: usvg::Tree, canvas: RasterImageView) -> Option<RasterImageView> {
    match rasterized(tree, canvas.width, canvas.height, canvas.pixels) {
        Some(pixels) => Some(RasterImageView { width: canvas.width, height: canvas.height, pixels }),
        None => None,
    }
}

/// What encoding an image comes to: the PNG bytes, or the error of this
/// stage with the encoder's reason.
pub open spec fn encoding(image: RasterImageView) -> Result<Seq<u8>, RenderErrorView> {
    match png_encoding(image.width, image.height, image.pixels) {
        Ok(png) => Ok(png),
        Err(err) => Err(RenderErrorView::EncodeFailed(encode_error_text(err))),
    }
}

/// What rendering a parsed document comes to: an image of the declared size
/// is made, if one can be; the document is drawn onto the blank image; the
/// result is encoded.
pub open spec fn document_outcome(tree: usvg::Tree) -> Result<Seq<u8>, RenderErrorView> {
    let (width, height) = document_size(tree);
    if !pixmap_fits(width, height) {
        Err(RenderErrorView::AllocationFailed)
    } else {
        match drawing(tree, blank_image(width, height)) {
            None => Err(RenderErrorView::RasterFailed),
            Some(image) => encoding(image),
        }
    }
}

/// What a run of the pipeline comes to, given what the parser made of the
/// input.
pub open spec fn render_outcome(parsed: Result<usvg::Tree, usvg::Error>) -> Result<
    Seq<u8>,
    RenderErrorView,
> {
    match parsed {
        Ok(tree) => document_outcome(tree),
        Err(err) => Err(RenderErrorView::DecodeFailed(decode_error_text(err))),
    }
}

/// The mathematical value of what the encoder returns.
pub open spec fn encoded_view(encoded: Result<Vec<u8>, png::EncodingError>) -> Result<
    Seq<u8>,
    png::EncodingError,
> {
    match encoded {
        Ok(png) => Ok(png@),
        Err(err) => Err(err),
    }
}

/// The mathematical value of what the pipeline returns.
pub open spec fn outcome_view(outcome: Result<Vec<u8>, RenderError>) -> Result<
    Seq<u8>,
    RenderErrorView,
> {
    match outcome {
        Ok(png) => Ok(png@),
        Err(error) => Err(error@),
    }
}

/// Whether `outcome` is what the pipeline returns when the parser made
/// `parsed` of the input: the outcome that `render_outcome` gives, and on
/// success a PNG of exactly the size that the document declares.
pub open spec fn renders_to(
    parsed: Result<usvg::Tree, usvg::Error>,
    outcome: Result<Seq<u8>, RenderErrorView>,
) -> bool {
    &&& outcome == render_outcome(parsed)
    &&& outcome matches Ok(png) ==> parsed matches Ok(tree) && png_declares_size(
        png,
        document_size(tree).0,
        document_size(tree).1,
    )
}

/// A parsed document renders to a PNG of exactly its declared size, with no
/// scaling, whenever a pixel buffer of that size can be made and neither the
/// rasterizer nor the encoder fails on it.
pub proof fn lemma_render_keeps_declared_size(
    tree: usvg::Tree,
    outcome: Result<Seq<u8>, RenderErrorView>,
)
    requires
        renders_to(Ok(tree), outcome),
        pixmap_fits(document_size(tree).0, document_size(tree).1),
        drawing(tree, blank_image(document_size(tree).0, document_size(tree).1)) matches Some(
            image,
        ) && encoding(image) is Ok,
    ensures
        outcome matches Ok(png) && png_declares_size(
            png,
            document_size(tree).0,
            document_size(tree).1,
        ),
{
}

/// Rendering is repeatable: two runs of the pipeline on the same parsed
/// input end alike, byte for byte.
pub proof fn lemma_render_is_repeatable(
    parsed: Result<usvg::Tree, usvg::Error>,
    first: Result<Seq<u8>, RenderErrorView>,
    second: Result<Seq<u8>, RenderErrorView>,
)
    requires
        renders_to(parsed, first),
        renders_to(parsed, second),
    ensures
        first == second,
{
}

/// A failure of any stage ends the run: what failed is reported, and no
/// image comes back with it. The stages fail in their order, each only on
/// what the stage before it handed on.
pub proof fn lemma_render_fails_by_stage(
    parsed: Result<usvg::Tree, usvg::Error>,
    outcome: Result<Seq<u8>, RenderErrorView>,
)
    requires
        renders_to(parsed, outcome),
    ensures
        (outcome matches Err(RenderErrorView::DecodeFailed(_))) <==> parsed is Err,
        (outcome matches Err(RenderErrorView::AllocationFailed)) <==> (parsed matches Ok(tree)
            && !pixmap_fits(document_size(tree).0, document_size(tree).1)),
        (outcome matches Err(RenderErrorView::RasterFailed)) ==> (parsed matches Ok(tree)
            && pixmap_fits(document_size(tree).0, document_size(tree).1)),
        (outcome matches Err(RenderErrorView::EncodeFailed(_))) ==> (parsed matches Ok(tree)
            && drawing(tree, blank_image(document_size(tree).0, document_size(tree).1))
            is Some),
{
}

/// Calls `usvg::Tree::from_data` with `usvg::Options::default()`.
///
/// Assumed: nothing but that the result is one that the parser gives for
/// these bytes. Under default options no font is loaded, and an `image`
/// element whose reference is a file path is read from disk.
#[verifier::external_body]
fn parse_svg(data: &[u8]) -> (parsed: Result<usvg::Tree, usvg::Error>)
    ensures
        parses_to(data@, parsed),
{
    let options = usvg::Options::default();
    usvg::Tree::from_data(data, &options.to_ref())
}

/// Formats a `usvg::Error` through its `Display` impl.
///
/// Assumed: the text depends on the error alone.
#[verifier::external_body]
fn decode_failure_text(err: &usvg::Error) -> (text: String)
    ensures
        text@ == decode_error_text(*err),
{
    err.to_string()
}

/// Calls `usvg::Size::to_screen_size` on the size of the document's root
/// node.
///
/// Assumed: the result depends on the document alone, and neither side is 0
/// (the conversion raises a side that rounds to 0 to 1).
#[verifier::external_body]
fn declared_size(tree: &usvg::Tree) -> (size: (u32, u32))
    ensures
        size == document_size(*tree),
        size.0 >= 1,
        size.1 >= 1,
{
    let size = tree.svg_node().size.to_screen_size();
    (size.width(), size.height())
}

/// Calls `tiny_skia::Pixmap::new`.
///
/// Assumed: a buffer is returned exactly for the sizes of `pixmap_fits`; it
/// has the size asked for and every byte of it is 0. Where the allocator
/// cannot provide the memory the process is aborted, and nothing is returned.
#[verifier::external_body]
fn new_pixmap(width: u32, height: u32) -> (pixmap: Option<tiny_skia::Pixmap>)
    ensures
        pixmap is Some <==> pixmap_fits(width, height),
        pixmap matches Some(buffer) ==> pixmap_size(buffer) == (width, height) && pixmap_pixels(
            buffer,
        ) == blank_pixels(width, height),
{
    tiny_skia::Pixmap::new(width, height)
}

/// Calls `resvg::render` with `usvg::FitTo::Original` and the identity
/// transform.
///
/// Assumed: the buffer keeps its size and its number of bytes; whether the
/// call succeeds, and the pixels it then leaves, depend on the document and on
/// the buffer's size and content alone. Nothing is assumed of the pixels
/// after a failure, and nothing of a document on which `resvg` panics: the
/// call then does not return.
#[verifier::external_body]
fn draw(tree: &usvg::Tree, pixmap: &mut tiny_skia::Pixmap) -> (drawn: Option<()>)
    ensures
        pixmap_size(*final(pixmap)) == pixmap_size(*old(pixmap)),
        pixmap_pixels(*final(pixmap)).len() == pixmap_pixels(*old(pixmap)).len(),
        drawn is Some <==> rasterized(
            *tree,
            pixmap_size(*old(pixmap)).0,
            pixmap_size(*old(pixmap)).1,
            pixmap_pixels(*old(pixmap)),
        ) is Some,
        drawn is Some ==> Some(pixmap_pixels(*final(pixmap))) == rasterized(
            *tree,
            pixmap_size(*old(pixmap)).0,
            pixmap_size(*old(pixmap)).1,
            pixmap_pixels(*old(pixmap)),
        ),
{
    resvg::render(
        tree,
        usvg::FitTo::Original,
        tiny_skia::Transform::default(),
        pixmap.as_mut(),
    )
}

/// Calls `tiny_skia::Pixmap::encode_png`.
///
/// Assumed: the result depends on the buffer's size and content alone, and
/// the bytes of a success begin with the PNG signature and a header chunk
/// that holds the buffer's width and height.
#[verifier::external_body]
fn encode_pixmap(pixmap: &tiny_skia::Pixmap) -> (encoded: Result<Vec<u8>, png::EncodingError>)
    ensures
        encoded_view(encoded) == png_encoding(
            pixmap_size(*pixmap).0,
            pixmap_size(*pixmap).1,
            pixmap_pixels(*pixmap),
        ),
        encoded matches Ok(png) ==> png_declares_size(
            png@,
            pixmap_size(*pixmap).0,
            pixmap_size(*pixmap).1,
        ),
{
    pixmap.encode_png()
}

/// Formats a `png::EncodingError` through its `Display` impl.
///
/// Assumed: the text depends on the error alone.
#[verifier::external_body]
fn encode_failure_text(err: &png::EncodingError) -> (text: String)
    ensures
        text@ == encode_error_text(*err),
{
    err.to_string()
}

/// First stage. Turns what the parser returned into a document, or into the
/// error of this stage.
pub fn decoded(parsed: Result<usvg::Tree, usvg::Error>) -> (document: Result<
    usvg::Tree,
    RenderError,
>)
    ensures
        parsed matches Ok(tree) ==> (document matches Ok(kept) && kept == tree),
        parsed matches Err(err) ==> (document matches Err(error) && error@
            == RenderErrorView::DecodeFailed(decode_error_text(err))),
{
    match parsed {
        Ok(tree) => Ok(tree),
        Err(err) => Err(RenderError::DecodeFailed(decode_failure_text(&err))),
    }
}

impl RasterImage {
    #[verifier::type_invariant]
    spec fn well_formed(&self) -> bool {
        &&& pixmap_size(self.pixmap) == (self.width, self.height)
        &&& pixmap_fits(self.width, self.height)
        &&& pixmap_pixels(self.pixmap).len() == 4 * self.width * self.height
    }

    /// Second and third stage. Makes the blank image for a document of the
    /// given size, or fails where the size is not positive or is too large:
    /// no image without pixels is ever made.
    pub fn allocate(width: u32, height: u32) -> (allocated: Result<RasterImage, RenderError>)
        ensures
            allocated is Ok <==> pixmap_fits(width, height),
            allocated matches Ok(image) ==> image@ == blank_image(width, height),
            allocated matches Err(error) ==> error@ == RenderErrorView::AllocationFailed,
    {
        if width == 0 || height == 0 {
            return Err(RenderError::AllocationFailed);
        }
        match new_pixmap(width, height) {
            Some(pixmap) => Ok(RasterImage { pixmap, width, height }),
            None => Err(RenderError::AllocationFailed),
        }
    }

    /// The width in pixels, never 0.
    pub fn width(&self) -> (width: u32)
        ensures
            width == self@.width,
            width > 0,
    {
        proof {
            use_type_invariant(self);
        }
        self.width
    }

    /// The height in pixels, never 0.
    pub fn height(&self) -> (height: u32)
        ensures
            height == self@.height,
            height > 0,
    {
        proof {
            use_type_invariant(self);
        }
        self.height
    }

    /// The pixel buffer itself, of this image's size and content.
    pub fn pixmap(&self) -> (pixmap: &tiny_skia::Pixmap)
        ensures
            pixmap_size(*pixmap) == (self@.width, self@.height),
            pixmap_pixels(*pixmap) == self@.pixels,
            self@.pixels.len() == 4 * self@.width * self@.height,
    {
        proof {
            use_type_invariant(self);
        }
        &self.pixmap
    }

    /// Fourth stage. Draws the document onto the image, at the document's own
    /// scale and from the top left corner. The image is given up where the
    /// rasterizer fails.
    pub fn draw(self, tree: &usvg::Tree) -> (drawn: Result<RasterImage, RenderError>)
        ensures
            drawn is Ok <==> drawing(*tree, self@) is Some,
            drawn matches Ok(image) ==> Some(image@) == drawing(*tree, self@),
            drawn matches Err(error) ==> error@ == RenderErrorView::RasterFailed,
    {
        proof {
            use_type_invariant(&self);
        }
        let RasterImage { mut pixmap, width, height } = self;
        match draw(tree, &mut pixmap) {
            Some(_) => Ok(RasterImage { pixmap, width, height }),
            None => Err(RenderError::RasterFailed),
        }
    }

    /// Fifth stage. Writes the image as a PNG file, which begins with the
    /// signature and with a header of this image's size.
    pub fn encode(&self) -> (encoded: Result<Vec<u8>, RenderError>)
        ensures
            outcome_view(encoded) == encoding(self@),
            encoded matches Ok(png) ==> png_declares_size(png@, self@.width, self@.height),
    {
        proof {
            use_type_invariant(self);
        }
        match encode_pixmap(&self.pixmap) {
            Ok(png) => Ok(png),
            Err(err) => Err(RenderError::EncodeFailed(encode_failure_text(&err))),
        }
    }
}

/// Stages two to five: renders a parsed document at its declared size, with
/// no scaling. Every parsed document declares a positive size, so the image
/// is refused only where that size is too large.
pub fn render_document(tree: &usvg::Tree) -> (outcome: Result<Vec<u8>, RenderError>)
    ensures
        document_size(*tree).0 >= 1,
        document_size(*tree).1 >= 1,
        renders_to(Ok(*tree), outcome_view(outcome)),
{
    let (width, height) = declared_size(tree);
    let blank = match RasterImage::allocate(width, height) {
        Ok(image) => image,
        Err(error) => {
            return Err(error);
        },
    };
    let image = match blank.draw(tree) {
        Ok(image) => image,
        Err(error) => {
            return Err(error);
        },
    };
    image.encode()
}

/// Runs the stages that follow the parser, on what the parser returned.
pub fn render_parsed(parsed: Result<usvg::Tree, usvg::Error>) -> (outcome: Result<
    Vec<u8>,
    RenderError,
>)
    ensures
        renders_to(parsed, outcome_view(outcome)),
{
    match decoded(parsed) {
        Ok(tree) => render_document(&tree),
        Err(error) => Err(error),
    }
}

/// Renders SVG bytes to PNG bytes.
///
/// The parser decides what the bytes mean, so the outcome is stated for the
/// result that it gave: there is a parse of `svg_data` for which the
/// pipeline returns exactly this.
pub fn render_svg_to_png(svg_data: &[u8]) -> (outcome: Result<Vec<u8>, RenderError>)
    ensures
        exists|parsed: Result<usvg::Tree, usvg::Error>| #[trigger]
            parses_to(svg_data@, parsed) && renders_to(parsed, outcome_view(outcome)),
{
    let parsed = parse_svg(svg_data);
    let ghost witness = parsed;
    let outcome = render_parsed(parsed);
    assert(parses_to(svg_data@, witness) && renders_to(witness, outcome_view(outcome)));
    outcome
}

} // verus!
