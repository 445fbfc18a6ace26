use svg2png::error::RenderError;
use svg2png::pipeline::{
    decoded, render_document, render_parsed, render_svg_to_png, RasterImage,
};

const RED_SQUARE: &str = "<svg xmlns=\"http://www.w3.org/2000/svg\" width=\"30\" height=\"20\"><rect width=\"30\" height=\"20\" fill=\"#ff0000\"/></svg>";

fn parse(data: &[u8]) -> Result<usvg::Tree, usvg::Error> {
    let options = usvg::Options::default();
    usvg::Tree::from_data(data, &options.to_ref())
}

#[test]
fn render_gives_png_of_declared_size() {
    let png = render_svg_to_png(RED_SQUARE.as_bytes()).unwrap();
    assert_eq!(&png[0..8], &[137, 80, 78, 71, 13, 10, 26, 10]);
    assert_eq!(&png[8..16], &[0, 0, 0, 13, 73, 72, 68, 82]);
    assert_eq!(&png[16..20], &[0, 0, 0, 30]);
    assert_eq!(&png[20..24], &[0, 0, 0, 20]);
    let image = tiny_skia::Pixmap::decode_png(&png).unwrap();
    assert_eq!(image.width(), 30);
    assert_eq!(image.height(), 20);
}

#[test]
fn render_draws_the_document() {
    let png = render_svg_to_png(RED_SQUARE.as_bytes()).unwrap();
    let image = tiny_skia::Pixmap::decode_png(&png).unwrap();
    assert_eq!(image.data().len(), 4 * 30 * 20);
    for pixel in image.data().chunks(4) {
        assert_eq!(pixel, &[255, 0, 0, 255]);
    }
}

#[test]
fn render_twice_gives_identical_bytes() {
    let first = render_svg_to_png(RED_SQUARE.as_bytes()).unwrap();
    let second = render_svg_to_png(RED_SQUARE.as_bytes()).unwrap();
    assert_eq!(first, second);
}

#[test]
fn render_parsed_twice_gives_identical_bytes() {
    let tree = parse(RED_SQUARE.as_bytes()).unwrap();
    let first = render_document(&tree).unwrap();
    let second = render_document(&tree).unwrap();
    assert_eq!(first, second);
    assert_eq!(render_parsed(Ok(tree)).unwrap(), first);
}

#[test]
fn render_rejects_text_that_is_no_svg() {
    let outcome = render_svg_to_png(b"not valid svg markup");
    match outcome {
        Err(RenderError::DecodeFailed(detail)) => {
            println!("detail: {}", detail);
            assert!(detail.starts_with("SVG data parsing failed cause "));
        }
        other => panic!("unexpected outcome: {:?}", other),
    }
}

#[test]
fn render_rejects_bytes_that_are_no_text() {
    let outcome = render_svg_to_png(&[0xff, 0xfe, 0x00]);
    assert_eq!(
        outcome,
        Err(RenderError::DecodeFailed(
            "provided data has not an UTF-8 encoding".to_string()
        ))
    );
}

#[test]
fn render_rejects_document_without_size() {
    let outcome = render_svg_to_png(
        b"<svg xmlns=\"http://www.w3.org/2000/svg\" width=\"0\" height=\"10\"></svg>",
    );
    assert_eq!(
        outcome,
        Err(RenderError::DecodeFailed("SVG has an invalid size".to_string()))
    );
}

#[test]
fn render_refuses_a_size_too_large_for_a_buffer() {
    let outcome = render_svg_to_png(
        b"<svg xmlns=\"http://www.w3.org/2000/svg\" width=\"600000000\" height=\"1\"></svg>",
    );
    assert_eq!(outcome, Err(RenderError::AllocationFailed));
}

#[test]
fn render_rounds_the_declared_size() {
    let png = render_svg_to_png(
        b"<svg xmlns=\"http://www.w3.org/2000/svg\" width=\"10.4\" height=\"0.2\"></svg>",
    )
    .unwrap();
    let image = tiny_skia::Pixmap::decode_png(&png).unwrap();
    assert_eq!((image.width(), image.height()), (10, 1));
}

#[test]
fn decoded_keeps_a_document() {
    let tree = decoded(parse(RED_SQUARE.as_bytes())).unwrap();
    let size = tree.svg_node().size.to_screen_size();
    assert_eq!((size.width(), size.height()), (30, 20));
}

#[test]
fn decoded_reports_the_parser_error() {
    let parsed = parse(b"<svg");
    let expected = format!("{}", parsed.as_ref().err().unwrap());
    match decoded(parsed) {
        Err(RenderError::DecodeFailed(detail)) => assert_eq!(detail, expected),
        _ => panic!("a failure to parse must be reported as such"),
    }
}

#[test]
fn allocate_refuses_empty_sizes() {
    assert_eq!(RasterImage::allocate(0, 7).err(), Some(RenderError::AllocationFailed));
    assert_eq!(RasterImage::allocate(7, 0).err(), Some(RenderError::AllocationFailed));
    assert_eq!(RasterImage::allocate(0, 0).err(), Some(RenderError::AllocationFailed));
}

#[test]
fn allocate_refuses_rows_beyond_the_limit() {
    assert_eq!(
        RasterImage::allocate(536_870_912, 1).err(),
        Some(RenderError::AllocationFailed)
    );
}

#[test]
fn allocate_gives_a_blank_image() {
    let image = RasterImage::allocate(3, 2).unwrap();
    assert_eq!((image.width(), image.height()), (3, 2));
    assert_eq!((image.pixmap().width(), image.pixmap().height()), (3, 2));
    assert_eq!(image.pixmap().data(), &[0u8; 24]);
}

#[test]
fn draw_fills_the_image() {
    let tree = parse(RED_SQUARE.as_bytes()).unwrap();
    let image = RasterImage::allocate(30, 20).unwrap().draw(&tree).unwrap();
    assert_eq!((image.width(), image.height()), (30, 20));
    assert_eq!(image.pixmap().data().len(), 4 * 30 * 20);
    for pixel in image.pixmap().data().chunks(4) {
        assert_eq!(pixel, &[255, 0, 0, 255]);
    }
}

#[test]
fn draw_does_not_scale() {
    let tree = parse(RED_SQUARE.as_bytes()).unwrap();
    let image = RasterImage::allocate(40, 20).unwrap().draw(&tree).unwrap();
    assert_eq!((image.width(), image.height()), (40, 20));
    let row = &image.pixmap().data()[0..160];
    assert_eq!(&row[116..120], &[255, 0, 0, 255]);
    assert_eq!(&row[120..124], &[0, 0, 0, 0]);
}

#[test]
fn draw_clips_to_a_smaller_image() {
    let tree = parse(RED_SQUARE.as_bytes()).unwrap();
    let image = RasterImage::allocate(2, 2).unwrap().draw(&tree).unwrap();
    assert_eq!(image.pixmap().data().len(), 16);
    for pixel in image.pixmap().data().chunks(4) {
        assert_eq!(pixel, &[255, 0, 0, 255]);
    }
}

#[test]
fn encode_writes_a_png_of_the_image() {
    let tree = parse(
        b"<svg xmlns=\"http://www.w3.org/2000/svg\" width=\"2\" height=\"1\"><rect width=\"1\" height=\"1\" fill=\"#0000ff\"/></svg>",
    )
    .unwrap();
    let image = RasterImage::allocate(2, 1).unwrap().draw(&tree).unwrap();
    assert_eq!(image.pixmap().data(), &[0, 0, 255, 255, 0, 0, 0, 0]);
    let png = image.encode().unwrap();
    assert_eq!(&png[0..8], &[137, 80, 78, 71, 13, 10, 26, 10]);
    assert_eq!(&png[8..16], &[0, 0, 0, 13, 73, 72, 68, 82]);
    assert_eq!(&png[16..24], &[0, 0, 0, 2, 0, 0, 0, 1]);
    let decoded = tiny_skia::Pixmap::decode_png(&png).unwrap();
    assert_eq!(decoded.data(), image.pixmap().data());
}

#[test]
fn encode_declares_sizes_beyond_one_byte() {
    let image = RasterImage::allocate(300, 258).unwrap();
    let png = image.encode().unwrap();
    assert_eq!(&png[16..24], &[0, 0, 1, 44, 0, 0, 1, 2]);
}

#[test]
fn encode_twice_gives_identical_bytes() {
    let image = RasterImage::allocate(5, 4).unwrap();
    assert_eq!(image.encode().unwrap(), image.encode().unwrap());
}
