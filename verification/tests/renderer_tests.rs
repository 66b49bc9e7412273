use office_to_png_core::pdf_renderer::{
    apply_background, assign_output_paths, collect_output_paths, output_filename,
    scale_to_pixels, PageCursor,
};
use office_to_png_core::{
    ConversionError, PageInfo, PdfInfo, PdfRenderer, RawPage, RenderConfig, Rgb,
};

const PNG_MAGIC: [u8; 8] = [0x89, 0x50, 0x4E, 0x47, 0x0D, 0x0A, 0x1A, 0x0A];

fn solid_page(width: u32, height: u32, pixel: [u8; 4]) -> RawPage {
    let mut rgba = Vec::new();
    for _ in 0..(width * height) {
        rgba.extend_from_slice(&pixel);
    }
    RawPage { width, height, rgba }
}

// PageInfo tests

#[test]
fn test_page_info_dimensions() {
    let info = PageInfo {
        page_number: 1,
        width_points: 612,  // US Letter width
        height_points: 792, // US Letter height
    };

    // At 72 DPI (1:1)
    assert_eq!(info.width_pixels(72), 612);
    assert_eq!(info.height_pixels(72), 792);

    // At 300 DPI
    assert_eq!(info.width_pixels(300), 2550);
    assert_eq!(info.height_pixels(300), 3300);
}

#[test]
fn test_page_info_clone() {
    let info = PageInfo {
        page_number: 5,
        width_points: 612,
        height_points: 792,
    };

    let cloned = info.clone();
    assert_eq!(cloned.page_number, 5);
    assert_eq!(cloned.width_points, 612);
    assert_eq!(cloned.height_points, 792);
}

// PdfInfo tests

#[test]
fn test_pdf_info_struct() {
    let info = PdfInfo {
        page_count: 3,
        pages: vec![
            PageInfo {
                page_number: 1,
                width_points: 612,
                height_points: 792,
            },
            PageInfo {
                page_number: 2,
                width_points: 612,
                height_points: 792,
            },
            PageInfo {
                page_number: 3,
                width_points: 792, // Landscape
                height_points: 612,
            },
        ],
    };

    assert_eq!(info.page_count, 3);
    assert_eq!(info.pages.len(), 3);
    // Check landscape page
    assert!(info.pages[2].width_points > info.pages[2].height_points);
}

#[test]
fn test_pdf_info_empty() {
    let info = PdfInfo {
        page_count: 0,
        pages: vec![],
    };

    assert_eq!(info.page_count, 0);
    assert!(info.pages.is_empty());
}

// Scaling tests

#[test]
fn test_scale_to_pixels_rounds_to_nearest() {
    // A4 is roughly 595 x 842 points.
    assert_eq!(scale_to_pixels(595, 72), 595);
    assert_eq!(scale_to_pixels(595, 150), 1240); // 595 * 150 / 72 = 1239.58...
    assert_eq!(scale_to_pixels(842, 150), 1754); // 842 * 150 / 72 = 1754.16...
    assert_eq!(scale_to_pixels(1, 108), 2); // 1.5 rounds up
    assert_eq!(scale_to_pixels(0, 300), 0);
}

// PNG encoding tests (these run the real encoder)

#[test]
fn test_encode_png_small_image() {
    // Create a 10x10 red image
    let renderer = PdfRenderer::new(RenderConfig::with_dpi(72).use_alpha(true)).unwrap();
    let page = renderer.encode_page(1, solid_page(10, 10, [255, 0, 0, 255])).unwrap();

    // Verify it's a valid PNG (check magic bytes)
    assert!(page.data.len() > 8);
    assert_eq!(&page.data[0..8], &PNG_MAGIC);
    assert_eq!(page.page_number, 1);
    assert_eq!(page.width, 10);
    assert_eq!(page.height, 10);
}

#[test]
fn test_encode_png_with_transparency() {
    // Create a 5x5 semi-transparent image
    let renderer = PdfRenderer::new(RenderConfig::with_dpi(72).use_alpha(true)).unwrap();
    let page = renderer.encode_page(1, solid_page(5, 5, [0, 255, 0, 128])).unwrap();

    // Verify PNG header
    assert_eq!(&page.data[0..8], &PNG_MAGIC);
}

#[test]
fn test_encode_png_1x1_pixel() {
    // Minimal image
    let renderer = PdfRenderer::new(RenderConfig::with_dpi(72).use_alpha(true)).unwrap();
    let page = renderer.encode_page(1, solid_page(1, 1, [100, 150, 200, 255])).unwrap();
    assert!(!page.data.is_empty());
    assert_eq!(&page.data[0..8], &PNG_MAGIC);
}

#[test]
fn test_encode_png_gradient() {
    // Create a gradient image
    let mut rgba = Vec::new();
    for x in 0..256u32 {
        rgba.extend_from_slice(&[x as u8, x as u8, x as u8, 255]);
    }
    let renderer = PdfRenderer::new(RenderConfig::with_dpi(72).use_alpha(true)).unwrap();
    let page = renderer
        .encode_page(1, RawPage { width: 256, height: 1, rgba })
        .unwrap();
    assert!(!page.data.is_empty());
}

#[test]
fn test_encode_page_composites_background() {
    // With alpha disabled the buffer is composited before encoding, so
    // the bytes must differ from the alpha-preserving encoding of the
    // same buffer.
    let opaque = PdfRenderer::new(RenderConfig::with_dpi(72)).unwrap();
    let alpha = PdfRenderer::new(RenderConfig::with_dpi(72).use_alpha(true)).unwrap();
    let with_bg = opaque.encode_page(1, solid_page(4, 4, [0, 255, 0, 128])).unwrap();
    let without_bg = alpha.encode_page(1, solid_page(4, 4, [0, 255, 0, 128])).unwrap();
    assert_ne!(with_bg.data, without_bg.data);
}

// Background compositing tests

#[test]
fn test_apply_background_blends_semi_transparent_pixels() {
    // One semi-transparent green pixel over white:
    // channel = (src * 128 + 255 * 127) / 255.
    let mut data = vec![0, 255, 0, 128];
    apply_background(&mut data, Rgb { r: 255, g: 255, b: 255 });
    assert_eq!(data, vec![127, 255, 127, 255]);
}

#[test]
fn test_apply_background_keeps_opaque_pixels() {
    let mut data = vec![10, 20, 30, 255, 0, 0, 0, 0];
    apply_background(&mut data, Rgb { r: 255, g: 255, b: 255 });
    // The opaque pixel is untouched; the fully transparent one becomes
    // the background colour.
    assert_eq!(data, vec![10, 20, 30, 255, 255, 255, 255, 255]);
}

// Whole-document tests

#[test]
fn test_render_all_pages_orders_and_numbers_pages() {
    let renderer = PdfRenderer::new(RenderConfig::with_dpi(72)).unwrap();
    let raw = vec![
        solid_page(2, 2, [255, 0, 0, 255]),
        solid_page(3, 2, [0, 255, 0, 255]),
        solid_page(2, 3, [0, 0, 255, 255]),
    ];
    let pages = renderer.render_all_pages(raw).unwrap();
    assert_eq!(pages.len(), 3);
    for (i, page) in pages.iter().enumerate() {
        assert_eq!(page.page_number, i + 1);
        assert_eq!(&page.data[0..8], &PNG_MAGIC);
        assert!(page.output_path.is_none());
    }
    assert_eq!(pages[1].width, 3);
    assert_eq!(pages[2].height, 3);
}

#[test]
fn test_render_all_pages_empty_document() {
    let renderer = PdfRenderer::new(RenderConfig::with_dpi(72)).unwrap();
    let pages = renderer.render_all_pages(vec![]).unwrap();
    assert!(pages.is_empty());
}

// Renderer configuration tests

#[test]
fn test_renderer_creation_with_invalid_config() {
    let mut config = RenderConfig::default();
    config.dpi = 0;

    let result = PdfRenderer::new(config);
    assert!(result.is_err());
}

#[test]
fn test_renderer_dpi_accessor() {
    let config = RenderConfig::with_dpi(200);
    let renderer = PdfRenderer::new(config).unwrap();
    assert_eq!(renderer.dpi(), 200);
}

#[test]
fn test_renderer_rejects_invalid_config_with_typed_error() {
    let mut config = RenderConfig::default();
    config.render_threads = 0;
    match PdfRenderer::new(config) {
        Err(ConversionError::InvalidConfig(_)) => (),
        _ => panic!("Expected InvalidConfig"),
    }
}

#[test]
fn pdf_renderer_test_render_config_validation_valid() {
    let config = RenderConfig::with_dpi(150);
    assert!(config.validate().is_ok());
}

#[test]
fn pdf_renderer_test_render_config_validation_zero_dpi() {
    let mut config = RenderConfig::default();
    config.dpi = 0;

    let result = config.validate();
    assert!(result.is_err());
}

#[test]
fn pdf_renderer_test_render_config_validation_excessive_dpi() {
    let mut config = RenderConfig::default();
    config.dpi = 5000; // Way too high

    let result = config.validate();
    assert!(result.is_err());
}

#[test]
fn pdf_renderer_test_render_config_validation_zero_threads() {
    let mut config = RenderConfig::default();
    config.render_threads = 0;

    let result = config.validate();
    assert!(result.is_err());
}

// Output naming tests

#[test]
fn test_output_filename_pads_page_numbers() {
    assert_eq!(output_filename("doc", 1), "doc_page_0001.png");
    assert_eq!(output_filename("doc", 42), "doc_page_0042.png");
    assert_eq!(output_filename("doc", 999), "doc_page_0999.png");
    assert_eq!(output_filename("doc", 1000), "doc_page_1000.png");
    assert_eq!(output_filename("report", 12345), "report_page_12345.png");
}

// Page cursor tests

#[test]
fn test_page_cursor_yields_each_index_once() {
    let mut cursor = PageCursor::new(3);
    assert_eq!(cursor.remaining(), 3);
    assert_eq!(cursor.advance(), Some(0));
    assert_eq!(cursor.advance(), Some(1));
    assert_eq!(cursor.remaining(), 1);
    assert_eq!(cursor.advance(), Some(2));
    assert_eq!(cursor.advance(), None);
    assert_eq!(cursor.advance(), None);
    assert_eq!(cursor.remaining(), 0);
}


// Output path recording tests

#[test]
fn test_assign_and_collect_output_paths() {
    let renderer = PdfRenderer::new(RenderConfig::with_dpi(72)).unwrap();
    let raw = vec![
        solid_page(1, 1, [0, 0, 0, 255]),
        solid_page(1, 1, [255, 255, 255, 255]),
    ];
    let mut pages = renderer.render_all_pages(raw).unwrap();
    assert_eq!(collect_output_paths(&pages), Vec::<String>::new());

    assign_output_paths(&mut pages, "/out", "doc");
    assert_eq!(pages[0].output_path.as_deref(), Some("/out/doc_page_0001.png"));
    assert_eq!(pages[1].output_path.as_deref(), Some("/out/doc_page_0002.png"));
    assert_eq!(
        collect_output_paths(&pages),
        vec!["/out/doc_page_0001.png".to_string(), "/out/doc_page_0002.png".to_string()]
    );
}
