//! Opening, closing and the preparation of renders.
//!
//! Rasterizing is the native engine's work. What is decided here is whether
//! a render may go ahead and with which parameters: the document has to be
//! loaded and the page has to exist. A tile is given in the pixel space of
//! the full-page render at the target width, and is passed on as the box
//! that the engine clips to.

use vstd::prelude::*;
use crate::cache::{CacheModel, DocumentCache};
use crate::document::DocumentId;
use crate::errors::PdfError;

verus! {

/// The width at which previews are rendered, in pixels.
pub const PREVIEW_WIDTH: i32 = 100;

/// A rendered page: its size in pixels and the image bytes.
#[derive(Debug, Clone)]
pub struct RenderedPage {
    pub width: i32,
    pub height: i32,
    pub pixels: Vec<u8>,
}

/// A rendered tile: its place within the full-page render, its size in
/// pixels and the image bytes.
#[derive(Debug, Clone)]
pub struct RenderedTile {
    pub x: i32,
    pub y: i32,
    pub width: i32,
    pub height: i32,
    pub pixels: Vec<u8>,
}

/// A tile as a client asks for it: corner and size, in pixels of the
/// full-page render.
#[derive(Debug, Clone, Copy, PartialEq, Eq, Structural)]
pub struct TileRect {
    pub x: i32,
    pub y: i32,
    pub width: i32,
    pub height: i32,
}

/// The box that a render is clipped to, in pixels of the full-page render.
#[derive(Debug, Clone, Copy, PartialEq, Eq, Structural)]
pub struct ClipBox {
    pub left: i64,
    pub top: i64,
    pub right: i64,
    pub bottom: i64,
}

/// A render that may go ahead.
#[derive(Debug, Clone, Copy, PartialEq, Eq, Structural)]
pub struct RenderJob {
    pub page_index: u16,
    pub target_width: i32,
    pub clip: Option<ClipBox>,
}

/// The box of a tile: from its corner to its corner plus its size.
pub open spec fn clip_of(tile: TileRect) -> ClipBox {
    ClipBox {
        left: tile.x as i64,
        top: tile.y as i64,
        right: (tile.x + tile.width) as i64,
        bottom: (tile.y + tile.height) as i64,
    }
}

/// What a request to render a page of a document comes to: the job, where
/// the document is loaded and has the page.
pub open spec fn render_plan<H>(
    cache: CacheModel<H>,
    id: Seq<char>,
    page_index: u16,
    target_width: i32,
    clip: Option<ClipBox>,
) -> Result<RenderJob, PdfError> {
    if !cache.is_open(id) {
        Err(PdfError::NotFound)
    } else if page_index as int >= cache.content[id].spec_pages().len() {
        Err(PdfError::InvalidArgument)
    } else {
        Ok(RenderJob { page_index, target_width, clip })
    }
}

/// What opening a document under `id` comes to.
pub open spec fn open_result(path: Seq<char>) -> Result<(), PdfError> {
    if path.len() == 0 {
        Err(PdfError::InvalidArgument)
    } else {
        Ok(())
    }
}

/// Records a newly opened document in a worker's cache. The document is
/// not loaded yet: that happens when the first request for it arrives. An
/// empty path is refused and leaves the cache as it was.
pub fn open<H>(id: DocumentId, path: String, documents: &mut DocumentCache<H>) -> (result: Result<
    (),
    PdfError,
>)
    requires
        old(documents).wf(),
    ensures
        final(documents).wf(),
        result == open_result(path@),
        final(documents)@ == if path@.len() == 0 {
            old(documents)@
        } else {
            old(documents)@.registered(id@, path@)
        },
{
    if path.as_str().is_empty() {
        return Err(PdfError::InvalidArgument);
    }
    documents.register(id, path);
    Ok(())
}

/// Forgets a document. Closing a document that the cache does not know is
/// not an error and changes nothing.
pub fn close<H>(documents: &mut DocumentCache<H>, id: &DocumentId) -> (result: Result<
    (),
    PdfError,
>)
    requires
        old(documents).wf(),
    ensures
        final(documents).wf(),
        result == Ok::<(), PdfError>(()),
        final(documents)@ == old(documents)@.closed(id@),
{
    let _ = documents.evict(id);
    Ok(())
}

/// Checks a render of a page, possibly clipped, against the cache.
fn plan<H>(
    documents: &DocumentCache<H>,
    id: &DocumentId,
    page_index: u16,
    target_width: i32,
    clip: Option<ClipBox>,
) -> (result: Result<RenderJob, PdfError>)
    requires
        documents.wf(),
    ensures
        result == render_plan(documents@, id@, page_index, target_width, clip),
{
    match documents.document(id) {
        None => Err(PdfError::NotFound),
        Some(document) => {
            if page_index >= document.page_count() {
                Err(PdfError::InvalidArgument)
            } else {
                Ok(RenderJob { page_index, target_width, clip })
            }
        },
    }
}

/// Prepares the render of a whole page at the given width.
pub fn render_page<H>(
    documents: &DocumentCache<H>,
    id: &DocumentId,
    page_index: u16,
    target_width: i32,
) -> (result: Result<RenderJob, PdfError>)
    requires
        documents.wf(),
    ensures
        result == render_plan(documents@, id@, page_index, target_width, None),
{
    plan(documents, id, page_index, target_width, None)
}

/// Prepares the render of one tile of a page. The page is scaled as for a
/// full render at the given width, and the tile is cut out of that.
pub fn render_tile<H>(
    documents: &DocumentCache<H>,
    id: &DocumentId,
    page_index: u16,
    target_width: i32,
    tile: TileRect,
) -> (result: Result<RenderJob, PdfError>)
    requires
        documents.wf(),
    ensures
        result == render_plan(documents@, id@, page_index, target_width, Some(clip_of(tile))),
{
    let clip = ClipBox {
        left: tile.x as i64,
        top: tile.y as i64,
        right: tile.x as i64 + tile.width as i64,
        bottom: tile.y as i64 + tile.height as i64,
    };
    plan(documents, id, page_index, target_width, Some(clip))
}

/// Prepares the render of a document's preview: its first page, at
/// [`PREVIEW_WIDTH`].
pub fn preview<H>(documents: &DocumentCache<H>, id: &DocumentId) -> (result: Result<
    RenderJob,
    PdfError,
>)
    requires
        documents.wf(),
    ensures
        result == render_plan(documents@, id@, 0, PREVIEW_WIDTH, None),
{
    plan(documents, id, 0, PREVIEW_WIDTH, None)
}

/// The four bytes of a number, the most significant first.
pub open spec fn big_endian(n: u32) -> Seq<u8> {
    seq![
        (n / 0x100_0000) as u8,
        ((n / 0x1_0000) % 0x100) as u8,
        ((n / 0x100) % 0x100) as u8,
        (n % 0x100) as u8,
    ]
}

/// A rendered page as a single blob: width, then height, each as four
/// bytes with the most significant first, then the image bytes.
pub open spec fn transport_bytes(width: u32, height: u32, pixels: Seq<u8>) -> Seq<u8> {
    big_endian(width) + big_endian(height) + pixels
}

fn push_big_endian(out: &mut Vec<u8>, n: u32)
    ensures
        final(out)@ == old(out)@ + big_endian(n),
{
    out.push((n / 0x100_0000) as u8);
    out.push(((n / 0x1_0000) % 0x100) as u8);
    out.push(((n / 0x100) % 0x100) as u8);
    out.push((n % 0x100) as u8);
    assert(out@ =~= old(out)@ + big_endian(n));
}

/// Packs a rendered page into a single blob. A page with a negative width
/// or height cannot be packed.
pub fn pack_rendered(page: &RenderedPage) -> (result: Result<Vec<u8>, PdfError>)
    ensures
        page.width < 0 || page.height < 0 ==> result == Err::<Vec<u8>, PdfError>(
            PdfError::EncodeFailure,
        ),
        page.width >= 0 && page.height >= 0 ==> result is Ok && result->Ok_0@ == transport_bytes(
            page.width as u32,
            page.height as u32,
            page.pixels@,
        ),
{
    if page.width < 0 || page.height < 0 {
        return Err(PdfError::EncodeFailure);
    }
    let mut out: Vec<u8> = Vec::new();
    push_big_endian(&mut out, page.width as u32);
    push_big_endian(&mut out, page.height as u32);
    let mut i: usize = 0;
    let ghost head = out@;
    while i < page.pixels.len()
        invariant
            i <= page.pixels@.len(),
            out@ == head + page.pixels@.take(i as int),
        decreases page.pixels@.len() - i,
    {
        out.push(page.pixels[i]);
        assert(out@ =~= head + page.pixels@.take(i + 1));
        i += 1;
    }
    assert(page.pixels@.take(i as int) =~= page.pixels@);
    assert(head =~= big_endian(page.width as u32) + big_endian(page.height as u32));
    Ok(out)
}

} // verus!
