use std::sync::Arc;

use vstd::prelude::*;

use hayro::hayro_syntax::Pdf;

use crate::bitmap::{layout_error, valid_layout, Bitmap, BitmapModel};
use crate::codec::{
    decode_image, decoded_raster, decoded_view, decodes_by_bytes_alone, four_bytes_per_pixel,
    has_png_signature, parse_pdf, parsed_pdf, same_but_pixels,
};
use crate::error::DocumentError;

verus! {

/// The byte with ASCII letters `A` to `Z` turned into lower case.
pub open spec fn ascii_lowercase(byte: u8) -> u8 {
    if 0x41 <= byte <= 0x5a {
        (byte + 0x20) as u8
    } else {
        byte
    }
}

/// The bytes begin with the PDF header `%PDF-`.
pub open spec fn has_pdf_signature(bytes: Seq<u8>) -> bool {
    &&& bytes.len() >= 5
    &&& bytes[0] == 0x25u8
    &&& bytes[1] == 0x50u8
    &&& bytes[2] == 0x44u8
    &&& bytes[3] == 0x46u8
    &&& bytes[4] == 0x2du8
}

/// The file extension is `pdf`, ignoring ASCII case.
pub open spec fn has_pdf_extension(extension: Option<Seq<u8>>) -> bool {
    match extension {
        Some(ext) => {
            &&& ext.len() == 3
            &&& ascii_lowercase(ext[0]) == 0x70u8
            &&& ascii_lowercase(ext[1]) == 0x64u8
            &&& ascii_lowercase(ext[2]) == 0x66u8
        },
        None => false,
    }
}

/// A document is read as a PDF when its bytes carry the PDF header or its
/// file extension is `pdf`; otherwise it is read as a raster image.
pub open spec fn looks_like_pdf(extension: Option<Seq<u8>>, bytes: Seq<u8>) -> bool {
    has_pdf_signature(bytes) || has_pdf_extension(extension)
}

/// The title shown for a document: its file name, or `Untitled` when it
/// has none or an empty one.
pub open spec fn document_title(file_name: Option<Seq<char>>) -> Seq<char> {
    match file_name {
        Some(name) => if name.len() > 0 {
            name
        } else {
            "Untitled"@
        },
        None => "Untitled"@,
    }
}

/// The view of an optional string.
pub open spec fn optional_text(text: Option<String>) -> Option<Seq<char>> {
    match text {
        Some(t) => Some(t@),
        None => None,
    }
}

/// The view of an optional byte vector.
pub open spec fn optional_bytes(bytes: Option<Vec<u8>>) -> Option<Seq<u8>> {
    match bytes {
        Some(b) => Some(b@),
        None => None,
    }
}

/// What a page lookup gives.
pub enum PageModel {
    /// The index is not a page of the document.
    OutOfRange,
    /// The page is rasterized already.
    Ready(BitmapModel),
    /// The page of the PDF file still has to be rasterized.
    Render,
}

/// What a document holds: where it came from, its title, whether it is a
/// PDF, and for each page the bitmap rasterized so far.
pub struct DocumentModel {
    pub path: Seq<u8>,
    pub title: Seq<char>,
    pub page_count: nat,
    pub is_pdf: bool,
    pub pages: Seq<Option<BitmapModel>>,
}

impl DocumentModel {
    /// A document has at least one page and one slot per page; a raster
    /// image is a single page that is always ready.
    pub open spec fn wf(self) -> bool {
        &&& self.page_count >= 1
        &&& self.pages.len() == self.page_count
        &&& !self.is_pdf ==> self.page_count == 1 && self.pages[0] is Some
    }

    /// Looking up a page: out of range, ready, or to be rendered.
    pub open spec fn lookup(self, index: int) -> PageModel {
        if index < 0 || index >= self.page_count {
            PageModel::OutOfRange
        } else {
            match self.pages[index] {
                Some(bitmap) => PageModel::Ready(bitmap),
                None => PageModel::Render,
            }
        }
    }

    /// The document after the page at `index` was rasterized to `bitmap`.
    pub open spec fn with_page(self, index: int, bitmap: BitmapModel) -> DocumentModel {
        DocumentModel { pages: self.pages.update(index, Some(bitmap)), ..self }
    }

    /// No page of the document has been rasterized yet.
    pub open spec fn nothing_rendered(self) -> bool {
        forall|i: int| 0 <= i < self.pages.len() ==> #[trigger] self.pages[i] is None
    }
}

/// The pages of a PDF file of `count` pages before any is rasterized.
pub open spec fn unrendered_pages(count: nat) -> Seq<Option<BitmapModel>> {
    Seq::new(count, |i: int| None::<BitmapModel>)
}

/// What making a document of a decoded raster image gives: the image's
/// bitmap as its one page, or the message of the error.
pub open spec fn image_document(
    path: Seq<u8>,
    title: Seq<char>,
    decoded: Result<(u32, u32, Seq<u8>), Seq<char>>,
) -> Result<DocumentModel, Seq<char>> {
    match decoded {
        Err(text) => Err("could not decode image: "@ + text),
        Ok((width, height, rgba)) => match layout_error(width, height, rgba.len() as int) {
            Some(message) => Err(message),
            None => Ok(
                DocumentModel {
                    path,
                    title,
                    page_count: 1,
                    is_pdf: false,
                    pages: seq![Some(BitmapModel { width, height, rgba })],
                },
            ),
        },
    }
}

/// What opening a file gives: the document, or the message of the error.
///
/// The file is read as a PDF when `looks_like_pdf` says so: it is refused
/// when `hayro` cannot parse it or it has no pages, and otherwise has as
/// many pages as the PDF, none rasterized yet. Otherwise it is a raster
/// image, and `decoded` is what the image decoder made of the bytes: the
/// document is refused when decoding failed or the pixels do not make a
/// bitmap, and otherwise is that bitmap as its one page.
pub open spec fn opened_document(
    path: Seq<u8>,
    file_name: Option<Seq<char>>,
    extension: Option<Seq<u8>>,
    bytes: Seq<u8>,
    decoded: Result<(u32, u32, Seq<u8>), Seq<char>>,
) -> Result<DocumentModel, Seq<char>> {
    let title = document_title(file_name);
    if looks_like_pdf(extension, bytes) {
        match parsed_pdf(bytes) {
            Err(text) => Err("could not parse PDF: "@ + text),
            Ok(count) => if count == 0 {
                Err("PDF has no pages"@)
            } else {
                Ok(
                    DocumentModel {
                        path,
                        title,
                        page_count: count as nat,
                        is_pdf: true,
                        pages: unrendered_pages(count as nat),
                    },
                )
            },
        }
    } else {
        image_document(path, title, decoded)
    }
}

/// A document or an error, as plain values.
pub open spec fn outcome(result: Result<Document, DocumentError>) -> Result<DocumentModel, Seq<char>> {
    match result {
        Ok(document) => Ok(document@),
        Err(error) => Err(error@),
    }
}

/// The result of looking up a page.
pub enum PageLookup {
    /// The page's bitmap.
    Ready(Arc<Bitmap>),
    /// The page has not been rasterized yet; the PDF file to render it from.
    Render(Arc<Pdf>),
}

enum DocumentSource {
    Image(Arc<Bitmap>),
    Pdf { pdf: Arc<Pdf>, cache: Vec<Option<Arc<Bitmap>>> },
}

/// A document that can be displayed one page at a time.
pub struct Document {
    path: Vec<u8>,
    title: String,
    page_count: usize,
    source: DocumentSource,
}

spec fn slot_model(slot: Option<Arc<Bitmap>>) -> Option<BitmapModel> {
    match slot {
        Some(bitmap) => Some(bitmap@),
        None => None,
    }
}

impl View for Document {
    type V = DocumentModel;

    closed spec fn view(&self) -> DocumentModel {
        DocumentModel {
            path: self.path@,
            title: self.title@,
            page_count: self.page_count as nat,
            is_pdf: self.source is Pdf,
            pages: match self.source {
                DocumentSource::Image(bitmap) => seq![Some(bitmap@)],
                DocumentSource::Pdf { cache, .. } => cache@.map_values(
                    |slot: Option<Arc<Bitmap>>| slot_model(slot),
                ),
            },
        }
    }
}

/// Shares a reference-counted value: `Arc::clone` returns a pointer to the
/// same allocation, so the clone holds the same value.
#[verifier::external_body]
fn share<T>(value: &Arc<T>) -> (shared: Arc<T>)
    ensures
        shared == *value,
{
    Arc::clone(value)
}

/// Decide whether a document is read as a PDF, from its file extension (as
/// the bytes of the path's extension) and its contents.
pub fn is_pdf(extension: Option<&[u8]>, bytes: &[u8]) -> (pdf: bool)
    ensures
        pdf == looks_like_pdf(
            match extension {
                Some(ext) => Some(ext@),
                None => None,
            },
            bytes@,
        ),
{
    let signature = bytes.len() >= 5 && bytes[0] == 0x25u8 && bytes[1] == 0x50u8 && bytes[2]
        == 0x44u8 && bytes[3] == 0x46u8 && bytes[4] == 0x2du8;
    if signature {
        return true;
    }
    match extension {
        Some(ext) => ext.len() == 3 && to_ascii_lowercase(ext[0]) == 0x70u8 && to_ascii_lowercase(
            ext[1],
        ) == 0x64u8 && to_ascii_lowercase(ext[2]) == 0x66u8,
        None => false,
    }
}

fn to_ascii_lowercase(byte: u8) -> (lower: u8)
    ensures
        lower == ascii_lowercase(byte),
{
    if 0x41 <= byte && byte <= 0x5a {
        byte + 0x20
    } else {
        byte
    }
}

/// The title shown for a document with the given file name.
pub fn title_for(file_name: Option<String>) -> (title: String)
    ensures
        title@ == document_title(optional_text(file_name)),
{
    match file_name {
        Some(name) => {
            if name.as_str().is_empty() {
                String::from_str("Untitled")
            } else {
                name
            }
        },
        None => String::from_str("Untitled"),
    }
}

spec fn cached_slots(source: DocumentSource) -> Seq<Option<Arc<Bitmap>>> {
    match source {
        DocumentSource::Image(_) => Seq::empty(),
        DocumentSource::Pdf { cache, .. } => cache@,
    }
}

fn cache_page(source: &mut DocumentSource, index: usize, bitmap: Arc<Bitmap>)
    requires
        *old(source) is Pdf,
        index < cached_slots(*old(source)).len(),
    ensures
        *final(source) is Pdf,
        final(source)->pdf == old(source)->pdf,
        cached_slots(*final(source)) == cached_slots(*old(source)).update(index as int, Some(bitmap)),
    no_unwind
{
    match source {
        DocumentSource::Image(_) => {},
        DocumentSource::Pdf { cache, .. } => {
            cache[index] = Some(bitmap);
        },
    }
}

impl Document {
    #[verifier::type_invariant]
    closed spec fn source_is_consistent(&self) -> bool {
        &&& self.page_count >= 1
        &&& match self.source {
            DocumentSource::Image(_) => self.page_count == 1,
            DocumentSource::Pdf { cache, .. } => cache@.len() == self.page_count,
        }
    }

    /// The parsed PDF file that the pages are rendered from, if the
    /// document is a PDF.
    pub closed spec fn source_pdf(&self) -> Option<Pdf> {
        match self.source {
            DocumentSource::Image(_) => None,
            DocumentSource::Pdf { pdf, .. } => Some(*pdf),
        }
    }

    /// A document made of one raster image.
    pub fn from_image(path: Vec<u8>, title: String, bitmap: Bitmap) -> (document: Document)
        ensures
            document@ == (DocumentModel {
                path: path@,
                title: title@,
                page_count: 1,
                is_pdf: false,
                pages: seq![Some(bitmap@)],
            }),
            document@.wf(),
            document.source_pdf() is None,
    {
        let document = Document {
            path,
            title,
            page_count: 1,
            source: DocumentSource::Image(Arc::new(bitmap)),
        };
        assert(document@.pages =~= seq![Some(bitmap@)]);
        document
    }

    /// A document over a parsed PDF file with `page_count` pages, none of
    /// them rasterized yet. A PDF file without pages is refused.
    pub fn from_pdf(path: Vec<u8>, title: String, pdf: Pdf, page_count: usize) -> (result: Result<
        Document,
        DocumentError,
    >)
        ensures
            result is Ok <==> page_count > 0,
            result matches Err(error) ==> error@ == "PDF has no pages"@,
            result matches Ok(document) ==> {
                &&& document@ == (DocumentModel {
                    path: path@,
                    title: title@,
                    page_count: page_count as nat,
                    is_pdf: true,
                    pages: unrendered_pages(page_count as nat),
                })
                &&& document@.nothing_rendered()
                &&& document@.wf()
                &&& document.source_pdf() == Some(pdf)
            },
    {
        if page_count == 0 {
            return Err(DocumentError::from_text("PDF has no pages"));
        }
        let mut cache: Vec<Option<Arc<Bitmap>>> = Vec::with_capacity(page_count);
        let mut i: usize = 0;
        while i < page_count
            invariant
                i <= page_count,
                cache@.len() == i,
                forall|j: int| 0 <= j < i ==> #[trigger] cache@[j] is None,
            decreases page_count - i,
        {
            cache.push(None);
            i = i + 1;
        }
        let document = Document {
            path,
            title,
            page_count,
            source: DocumentSource::Pdf { pdf: Arc::new(pdf), cache },
        };
        assert(document@.pages =~= unrendered_pages(page_count as nat));
        Ok(document)
    }

    /// A document of one decoded raster image: `decoded` is what the image
    /// decoder gave, the image's size and RGBA8 pixels or the text of its
    /// error.
    pub fn from_decoded_image(
        path: Vec<u8>,
        title: String,
        decoded: Result<(u32, u32, Vec<u8>), String>,
    ) -> (result: Result<Document, DocumentError>)
        ensures
            outcome(result) == image_document(path@, title@, decoded_view(decoded)),
            result matches Ok(document) ==> document@.wf() && document.source_pdf() is None,
    {
        match decoded {
            Ok((width, height, rgba)) => match Bitmap::from_rgba(width, height, rgba) {
                Ok(bitmap) => Ok(Document::from_image(path, title, bitmap)),
                Err(error) => Err(error),
            },
            Err(detail) => Err(DocumentError::with_detail("could not decode image: ", detail.as_str())),
        }
    }

    /// Open a document from the contents of a file.
    ///
    /// `path` is the file's path as bytes, `file_name` the last component of
    /// the path and `extension` the bytes of its extension. The contents are
    /// parsed as a PDF file when `is_pdf` says so, and decoded as a raster
    /// image otherwise. Whether a raster image opens, its size and any error
    /// text are fixed by the bytes; its pixels are too, except for the
    /// formats whose decoder picks code by the processor (see
    /// `decoded_raster`).
    pub fn open(
        path: Vec<u8>,
        file_name: Option<String>,
        extension: Option<Vec<u8>>,
        bytes: Vec<u8>,
    ) -> (result: Result<Document, DocumentError>)
        ensures
            exists|decoded: Result<(u32, u32, Seq<u8>), Seq<char>>|
                #![trigger opened_document(path@, optional_text(file_name), optional_bytes(extension), bytes@, decoded)]
                same_but_pixels(decoded, decoded_raster(bytes@)) && four_bytes_per_pixel(decoded)
                    && outcome(result) == opened_document(
                    path@,
                    optional_text(file_name),
                    optional_bytes(extension),
                    bytes@,
                    decoded,
                ),
            decodes_by_bytes_alone(bytes@) ==> outcome(result) == opened_document(
                path@,
                optional_text(file_name),
                optional_bytes(extension),
                bytes@,
                decoded_raster(bytes@),
            ),
            result matches Ok(document) ==> document@.wf() && (document@.is_pdf
                <==> document.source_pdf() is Some),
    {
        let title = title_for(file_name);
        let ghost title_view = title@;
        let pdf = match &extension {
            Some(ext) => is_pdf(Some(ext.as_slice()), bytes.as_slice()),
            None => is_pdf(None, bytes.as_slice()),
        };
        if pdf {
            let ghost contents = bytes@;
            let result = match parse_pdf(bytes) {
                Ok((pdf, page_count)) => Document::from_pdf(path, title, pdf, page_count),
                Err(detail) => Err(DocumentError::with_detail("could not parse PDF: ", detail.as_str())),
            };
            proof {
                let witness = match decoded_raster(contents) {
                    Ok((width, height, _)) => {
                        assert(0 <= width as int * height as int) by (nonlinear_arith);
                        Ok((width, height, Seq::new((4 * (width as int * height as int)) as nat, |i: int| 0u8)))
                    },
                    Err(text) => Err(text),
                };
                assert(outcome(result) == opened_document(
                    path@,
                    optional_text(file_name),
                    optional_bytes(extension),
                    contents,
                    witness,
                ));
            }
            return result;
        }
        let decoded = decode_image(bytes.as_slice());
        let ghost decoded_model = decoded_view(decoded);
        let result = Document::from_decoded_image(path, title, decoded);
        assert(outcome(result) == opened_document(
            path@,
            optional_text(file_name),
            optional_bytes(extension),
            bytes@,
            decoded_model,
        ));
        result
    }

    /// Whether the document is a PDF, whose pages are rendered on demand.
    pub fn is_pdf_document(&self) -> (pdf: bool)
        ensures
            pdf == self@.is_pdf,
            pdf <==> self.source_pdf() is Some,
    {
        match &self.source {
            DocumentSource::Image(_) => false,
            DocumentSource::Pdf { .. } => true,
        }
    }

    /// Return the document's path, as bytes.
    pub fn path(&self) -> (path: &[u8])
        ensures
            path@ == self@.path,
    {
        self.path.as_slice()
    }

    /// Return the display title, normally the file name.
    pub fn title(&self) -> (title: &str)
        ensures
            title@ == self@.title,
    {
        self.title.as_str()
    }

    /// Return the number of pages. Raster images have one page.
    pub fn page_count(&self) -> (count: usize)
        ensures
            count == self@.page_count,
            self@.wf(),
    {
        proof {
            use_type_invariant(self);
        }
        self.page_count
    }

    /// Look up a page: its bitmap when it is rasterized already, or the PDF
    /// file to render it from.
    pub fn page(&self, index: usize) -> (result: Result<PageLookup, DocumentError>)
        ensures
            result is Ok <==> index < self@.page_count,
            result matches Err(error) ==> error@ == "page index is out of range"@,
            result matches Ok(PageLookup::Ready(bitmap)) ==> self@.lookup(index as int)
                == PageModel::Ready(bitmap@),
            result matches Ok(PageLookup::Render(pdf)) ==> self@.lookup(index as int)
                == PageModel::Render && self.source_pdf() == Some(*pdf),
            self@.lookup(index as int) is Render ==> result matches Ok(PageLookup::Render(_)),
            self@.lookup(index as int) is Ready ==> result matches Ok(PageLookup::Ready(_)),
    {
        proof {
            use_type_invariant(self);
        }
        if index >= self.page_count {
            return Err(DocumentError::from_text("page index is out of range"));
        }
        match &self.source {
            DocumentSource::Image(bitmap) => Ok(PageLookup::Ready(share(bitmap))),
            DocumentSource::Pdf { pdf, cache } => match &cache[index] {
                Some(bitmap) => Ok(PageLookup::Ready(share(bitmap))),
                None => Ok(PageLookup::Render(share(pdf))),
            },
        }
    }

    /// Keep the rasterized pixels of a PDF page and return its bitmap.
    ///
    /// The pixels are refused as `Bitmap::from_rgba` refuses them, and the
    /// document is then left as it was.
    pub fn store_rendered_page(&mut self, index: usize, width: u32, height: u32, rgba: Vec<u8>) -> (result: Result<
        Arc<Bitmap>,
        DocumentError,
    >)
        requires
            old(self)@.is_pdf,
            index < old(self)@.page_count,
        ensures
            result is Ok <==> valid_layout(width, height, rgba@.len() as int),
            result matches Ok(bitmap) ==> {
                &&& bitmap@ == (BitmapModel { width, height, rgba: rgba@ })
                &&& final(self)@ == old(self)@.with_page(index as int, bitmap@)
            },
            result matches Err(error) ==> {
                &&& Some(error@) == layout_error(width, height, rgba@.len() as int)
                &&& final(self)@ == old(self)@
            },
            final(self).source_pdf() == old(self).source_pdf(),
    {
        proof {
            use_type_invariant(&*self);
        }
        let bitmap = match Bitmap::from_rgba(width, height, rgba) {
            Ok(bitmap) => Arc::new(bitmap),
            Err(error) => {
                return Err(error);
            },
        };
        let ghost before = self@;
        cache_page(&mut self.source, index, share(&bitmap));
        assert(self@.pages =~= before.pages.update(index as int, Some(bitmap@)));
        Ok(bitmap)
    }
}

/// After a page is rasterized, looking it up gives that bitmap, every other
/// page is looked up as before, and the document keeps its page count.
pub proof fn lemma_rendered_page_is_cached(document: DocumentModel, index: int, bitmap: BitmapModel)
    requires
        document.wf(),
        0 <= index < document.page_count,
    ensures
        document.with_page(index, bitmap).lookup(index) == PageModel::Ready(bitmap),
        forall|other: int|
            other != index ==> #[trigger] document.with_page(index, bitmap).lookup(other)
                == document.lookup(other),
        document.with_page(index, bitmap).page_count == document.page_count,
        document.with_page(index, bitmap).wf(),
{
}

/// Opening the PNG file that a bitmap encodes to (under a name whose
/// extension is not `pdf`) gives back a one-page document of that bitmap.
/// The requirements on `bytes` are what `Bitmap::encode_png` ensures.
pub proof fn lemma_reopening_encoded_png(
    path: Seq<u8>,
    file_name: Option<Seq<char>>,
    extension: Option<Seq<u8>>,
    bitmap: BitmapModel,
    bytes: Seq<u8>,
)
    requires
        valid_layout(bitmap.width, bitmap.height, bitmap.rgba.len() as int),
        has_png_signature(bytes),
        decoded_raster(bytes) == Ok::<(u32, u32, Seq<u8>), Seq<char>>(
            (bitmap.width, bitmap.height, bitmap.rgba),
        ),
        !has_pdf_extension(extension),
    ensures
        opened_document(path, file_name, extension, bytes, decoded_raster(bytes)) == Ok::<
            DocumentModel,
            Seq<char>,
        >(
            DocumentModel {
                path,
                title: document_title(file_name),
                page_count: 1,
                is_pdf: false,
                pages: seq![Some(bitmap)],
            },
        ),
{
}

/// Opening keeps the path and takes the title from the file name, for PDF
/// files and raster images alike; a PDF opens with no page rendered, a
/// raster image with its one page ready.
pub proof fn lemma_opening_keeps_path_and_title(
    path: Seq<u8>,
    file_name: Option<Seq<char>>,
    extension: Option<Seq<u8>>,
    bytes: Seq<u8>,
    decoded: Result<(u32, u32, Seq<u8>), Seq<char>>,
)
    ensures
        opened_document(path, file_name, extension, bytes, decoded) matches Ok(document) ==> {
            &&& document.path == path
            &&& document.title == document_title(file_name)
            &&& document.is_pdf == looks_like_pdf(extension, bytes)
            &&& document.wf()
            &&& document.is_pdf ==> document.nothing_rendered()
            &&& !document.is_pdf ==> document.lookup(0) is Ready
        },
{
}

/// A file that is not read as a PDF opens exactly when it decodes to an
/// image of at least one and at most `MAX_BITMAP_PIXELS` pixels; the pixels
/// themselves play no part in that.
pub proof fn lemma_raster_opens_by_size(
    path: Seq<u8>,
    file_name: Option<Seq<char>>,
    extension: Option<Seq<u8>>,
    bytes: Seq<u8>,
    decoded: Result<(u32, u32, Seq<u8>), Seq<char>>,
)
    requires
        !looks_like_pdf(extension, bytes),
        four_bytes_per_pixel(decoded),
    ensures
        opened_document(path, file_name, extension, bytes, decoded) is Ok <==> (decoded matches Ok(
            (width, height, _),
        ) && 0 < width as int * height as int <= crate::bitmap::MAX_BITMAP_PIXELS),
{
}

/// A page is out of range exactly when its index is not below the page
/// count, and a raster image's only page is always ready.
pub proof fn lemma_lookup_range(document: DocumentModel, index: int)
    requires
        document.wf(),
    ensures
        document.lookup(index) is OutOfRange <==> !(0 <= index < document.page_count),
        !document.is_pdf ==> (document.lookup(0) is Ready && (index != 0
            ==> document.lookup(index) is OutOfRange)),
{
}

} // verus!
