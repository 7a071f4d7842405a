use vellum_core::{is_pdf, title_for, Bitmap, Document, PageLookup};

const ONE_PAGE_PDF: &str = "%PDF-1.4\n\
1 0 obj\n<< /Type /Catalog /Pages 2 0 R >>\nendobj\n\
2 0 obj\n<< /Type /Pages /Kids [3 0 R] /Count 1 >>\nendobj\n\
3 0 obj\n<< /Type /Page /Parent 2 0 R /MediaBox [0 0 20 10] >>\nendobj\n\
trailer\n<< /Root 1 0 R >>\n%%EOF\n";

fn png_of(width: u32, height: u32, rgba: Vec<u8>) -> Vec<u8> {
    Bitmap::from_rgba(width, height, rgba).unwrap().encode_png().unwrap()
}

fn open(name: &str, extension: Option<&str>, bytes: Vec<u8>) -> Result<Document, vellum_core::DocumentError> {
    Document::open(
        format!("/tmp/{name}").into_bytes(),
        Some(name.to_string()),
        extension.map(|e| e.as_bytes().to_vec()),
        bytes,
    )
}

#[test]
fn pdf_is_recognised_by_header_or_extension() {
    assert!(is_pdf(None, b"%PDF-1.7 rest"));
    assert!(is_pdf(Some(b"png"), b"%PDF-"));
    assert!(is_pdf(Some(b"pdf"), b"GIF89a"));
    assert!(is_pdf(Some(b"PDF"), b""));
    assert!(is_pdf(Some(b"pDf"), b""));
    assert!(!is_pdf(Some(b"pdfx"), b"%PDF"));
    assert!(!is_pdf(Some(b"pd"), b""));
    assert!(!is_pdf(None, b"%pdf-"));
    assert!(!is_pdf(Some(b""), b""));
}

#[test]
fn title_is_the_file_name_or_untitled() {
    assert_eq!(title_for(Some(String::from("scan.png"))), "scan.png");
    assert_eq!(title_for(Some(String::new())), "Untitled");
    assert_eq!(title_for(None), "Untitled");
}

#[test]
fn raster_image_opens_as_a_single_ready_page() {
    let pixels = vec![1, 2, 3, 255, 4, 5, 6, 255, 7, 8, 9, 255, 10, 11, 12, 255];
    let document = open("photo.png", Some("png"), png_of(2, 2, pixels.clone())).unwrap();
    assert_eq!(document.title(), "photo.png");
    assert_eq!(document.path(), b"/tmp/photo.png");
    assert_eq!(document.page_count(), 1);
    match document.page(0).unwrap() {
        PageLookup::Ready(bitmap) => {
            assert_eq!((bitmap.width(), bitmap.height()), (2, 2));
            assert_eq!(bitmap.rgba(), pixels.as_slice());
        }
        PageLookup::Render(_) => panic!("a raster image is never rendered"),
    }
}

#[test]
fn pages_past_the_end_are_out_of_range() {
    let document = open("dot.png", None, png_of(1, 1, vec![0, 0, 0, 255])).unwrap();
    let error = document.page(1).err().unwrap();
    assert_eq!(error.message(), "page index is out of range");
    assert!(document.page(usize::MAX).is_err());
}

#[test]
fn undecodable_image_is_refused() {
    let error = open("broken.png", Some("png"), b"not an image".to_vec()).err().unwrap();
    assert!(error.message().starts_with("could not decode image: "));
}

#[test]
fn unparsable_pdf_is_refused() {
    let error = open("broken.pdf", Some("pdf"), b"%PDF-1.4 garbage".to_vec()).err().unwrap();
    assert_eq!(error.message(), "could not parse PDF: Invalid");
    let error = open("image.pdf", Some("pdf"), png_of(1, 1, vec![1, 2, 3, 4])).err().unwrap();
    assert_eq!(error.message(), "could not parse PDF: Invalid");
}

#[test]
fn pdf_pages_are_rendered_once_and_then_cached() {
    let mut document = open("one.pdf", Some("pdf"), ONE_PAGE_PDF.as_bytes().to_vec()).unwrap();
    assert!(document.is_pdf_document());
    assert_eq!(document.page_count(), 1);
    assert_eq!(document.title(), "one.pdf");
    assert!(matches!(document.page(0).unwrap(), PageLookup::Render(_)));
    assert!(document.page(1).is_err());

    let error = document.store_rendered_page(0, 2, 1, vec![1, 2, 3]).err().unwrap();
    assert_eq!(error.message(), "bitmap buffer has an invalid length");
    assert!(matches!(document.page(0).unwrap(), PageLookup::Render(_)));

    let stored = document.store_rendered_page(0, 2, 1, vec![9, 8, 7, 6, 5, 4, 3, 2]).unwrap();
    assert_eq!(stored.rgba(), &[9, 8, 7, 6, 5, 4, 3, 2]);
    match document.page(0).unwrap() {
        PageLookup::Ready(bitmap) => {
            assert_eq!((bitmap.width(), bitmap.height()), (2, 1));
            assert_eq!(bitmap.rgba(), &[9, 8, 7, 6, 5, 4, 3, 2]);
        }
        PageLookup::Render(_) => panic!("the page was cached"),
    }
}

#[test]
fn pdf_header_wins_over_an_image_extension() {
    let document = open("renamed.png", Some("png"), ONE_PAGE_PDF.as_bytes().to_vec()).unwrap();
    assert_eq!(document.page_count(), 1);
    assert!(matches!(document.page(0).unwrap(), PageLookup::Render(_)));
}

#[test]
fn pdf_without_pages_is_refused() {
    let document = open("one.pdf", None, ONE_PAGE_PDF.as_bytes().to_vec()).unwrap();
    let pdf = match document.page(0).unwrap() {
        PageLookup::Render(pdf) => pdf,
        PageLookup::Ready(_) => panic!("nothing was rendered yet"),
    };
    drop(document);
    let pdf = std::sync::Arc::try_unwrap(pdf).ok().expect("the document was dropped");
    let error = Document::from_pdf(Vec::new(), String::from("empty.pdf"), pdf, 0).err().unwrap();
    assert_eq!(error.message(), "PDF has no pages");
}

const TWO_PAGE_PDF: &str = "%PDF-1.4\n\
1 0 obj\n<< /Type /Catalog /Pages 2 0 R >>\nendobj\n\
2 0 obj\n<< /Type /Pages /Kids [3 0 R 4 0 R] /Count 2 >>\nendobj\n\
3 0 obj\n<< /Type /Page /Parent 2 0 R /MediaBox [0 0 20 10] >>\nendobj\n\
4 0 obj\n<< /Type /Page /Parent 2 0 R /MediaBox [0 0 10 20] >>\nendobj\n\
trailer\n<< /Root 1 0 R >>\n%%EOF\n";

#[test]
fn pdf_has_as_many_pages_as_its_page_tree() {
    let mut document = open("two.pdf", None, TWO_PAGE_PDF.as_bytes().to_vec()).unwrap();
    assert_eq!(document.page_count(), 2);
    assert!(matches!(document.page(1).unwrap(), PageLookup::Render(_)));
    assert!(document.page(2).is_err());
    document.store_rendered_page(1, 1, 1, vec![1, 2, 3, 4]).unwrap();
    assert!(matches!(document.page(0).unwrap(), PageLookup::Render(_)));
    assert!(matches!(document.page(1).unwrap(), PageLookup::Ready(_)));
    assert_eq!(document.page_count(), 2);
}

#[test]
fn an_encoded_bitmap_reopens_as_the_same_bitmap() {
    let pixels: Vec<u8> = (0..3 * 2 * 4).map(|i| (i * 11) as u8).collect();
    let bitmap = Bitmap::from_rgba(3, 2, pixels.clone()).unwrap();
    let document = open("saved.png", Some("png"), bitmap.encode_png().unwrap()).unwrap();
    assert_eq!(document.page_count(), 1);
    match document.page(0).unwrap() {
        PageLookup::Ready(reopened) => {
            assert_eq!((reopened.width(), reopened.height()), (3, 2));
            assert_eq!(reopened.rgba(), pixels.as_slice());
        }
        PageLookup::Render(_) => panic!("a raster image is never rendered"),
    }
}

#[test]
fn other_image_formats_decode_too() {
    let mut bmp = std::io::Cursor::new(Vec::new());
    image::RgbaImage::from_raw(1, 1, vec![10, 20, 30, 255])
        .unwrap()
        .write_to(&mut bmp, image::ImageFormat::Bmp)
        .unwrap();
    let document = open("dot.bmp", Some("bmp"), bmp.into_inner()).unwrap();
    assert!(!document.is_pdf_document());
    match document.page(0).unwrap() {
        PageLookup::Ready(bitmap) => assert_eq!(bitmap.rgba(), &[10, 20, 30, 255]),
        PageLookup::Render(_) => panic!("a raster image is never rendered"),
    }
}

fn encoded(format: image::ImageFormat, width: u32, height: u32, rgba: Vec<u8>) -> Vec<u8> {
    let mut out = std::io::Cursor::new(Vec::new());
    let image = image::RgbaImage::from_raw(width, height, rgba).unwrap();
    if format == image::ImageFormat::Jpeg {
        image::DynamicImage::ImageRgba8(image).to_rgb8().write_to(&mut out, format).unwrap();
    } else {
        image.write_to(&mut out, format).unwrap();
    }
    out.into_inner()
}

#[test]
fn common_lossless_formats_decode_to_their_pixels() {
    let pixels = vec![10, 20, 30, 255, 40, 50, 60, 255];
    for (name, format) in [
        ("a.gif", image::ImageFormat::Gif),
        ("a.qoi", image::ImageFormat::Qoi),
        ("a.ico", image::ImageFormat::Ico),
    ] {
        let document = open(name, None, encoded(format, 2, 1, pixels.clone())).unwrap();
        match document.page(0).unwrap() {
            PageLookup::Ready(bitmap) => {
                assert_eq!((bitmap.width(), bitmap.height()), (2, 1), "{name}");
                assert_eq!(bitmap.rgba(), pixels.as_slice(), "{name}");
            }
            PageLookup::Render(_) => panic!("a raster image is never rendered"),
        }
    }
}

#[test]
fn jpeg_files_open_with_their_size() {
    let document = open("photo.jpg", Some("jpg"), encoded(image::ImageFormat::Jpeg, 3, 2, vec![128; 24])).unwrap();
    assert_eq!(document.page_count(), 1);
    match document.page(0).unwrap() {
        PageLookup::Ready(bitmap) => {
            assert_eq!((bitmap.width(), bitmap.height()), (3, 2));
            assert_eq!(bitmap.rgba().len(), 24);
        }
        PageLookup::Render(_) => panic!("a raster image is never rendered"),
    }
}

#[test]
fn unknown_formats_are_refused() {
    let error = open("notes.txt", Some("txt"), b"hello".to_vec()).err().unwrap();
    assert!(error.message().starts_with("could not decode image: "));
    assert!(error.message().len() > "could not decode image: ".len());
}

#[test]
fn decoded_images_make_documents_or_errors() {
    let document =
        Document::from_decoded_image(b"p".to_vec(), String::from("t"), Ok((1, 1, vec![1, 2, 3, 4])))
            .unwrap();
    assert_eq!(document.page_count(), 1);
    let error = Document::from_decoded_image(b"p".to_vec(), String::from("t"), Err(String::from("bad")))
        .err()
        .unwrap();
    assert_eq!(error.message(), "could not decode image: bad");
    let error = Document::from_decoded_image(b"p".to_vec(), String::from("t"), Ok((2, 2, vec![0; 4])))
        .err()
        .unwrap();
    assert_eq!(error.message(), "bitmap buffer has an invalid length");
}

#[test]
fn document_from_image_has_one_page() {
    let bitmap = Bitmap::from_rgba(1, 1, vec![1, 2, 3, 4]).unwrap();
    let document = Document::from_image(b"a".to_vec(), String::from("a"), bitmap);
    assert_eq!(document.page_count(), 1);
    assert!(matches!(document.page(0).unwrap(), PageLookup::Ready(_)));
}
