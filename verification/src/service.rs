//! The operations that clients call.
//!
//! Each operation on a document has two halves. The first builds the
//! request with a fresh reply channel and puts it into the queue of the
//! document's worker; it hands out the receiving end of the reply channel,
//! or a dispatch failure where the queue did not take the request. The
//! second waits on that end for the worker's answer. The operation itself
//! is the one after the other. What the answer is, is the worker's to
//! decide.

use vstd::prelude::*;
use flume::Receiver;
use crate::annotation::Annotation;
use crate::channel::bounded_channel;
use crate::document::{Bookmark, DocumentId, PdfInfo};
use crate::errors::PdfError;
use crate::ident::is_document_id;
use crate::manager::{await_reply, DocumentManager, REPLY_CAPACITY};
use crate::render::{RenderedPage, RenderedTile, TileRect};
use crate::text::search::SearchHit;
use crate::text::selection::PageText;
use crate::worker::{
    add_annotation_request,
    annotations_request,
    bookmarks_request,
    close_request,
    info_request,
    preview_request,
    remove_annotation_request,
    render_request,
    render_tile_request,
    search_request,
    text_request,
};

verus! {

/// Opens the document at `path` and hands out its id. `reachable` tells
/// whether the caller found a readable file there.
pub fn open_pdf(manager: &mut DocumentManager, path: String, reachable: bool) -> (result: Result<
    DocumentId,
    PdfError,
>)
    ensures
        final(manager).pool() == old(manager).pool(),
        path@.len() == 0 || !reachable ==> result is Err && result->Err_0
            == PdfError::InvalidArgument,
        result is Ok ==> is_document_id(result->Ok_0@),
{
    manager.open(path, reachable)
}

/// Waits for the answer to a request whose submitting half has ended:
/// the dispatch failure where the request was not taken, else what
/// [`await_reply`] makes of the reply channel.
fn finish<T>(begun: Result<Receiver<Result<T, PdfError>>, PdfError>) -> (result: Result<
    T,
    PdfError,
>)
    ensures
        begun matches Err(e) ==> result is Err && result->Err_0 == e,
{
    match begun {
        Ok(receiver) => await_reply(true, &receiver),
        Err(e) => Err(e),
    }
}

/// Submits the request to render a page at the given width.
pub fn begin_render(
    manager: &DocumentManager,
    id: DocumentId,
    page_index: u16,
    target_width: i32,
) -> (result: Result<Receiver<Result<RenderedPage, PdfError>>, PdfError>)
    ensures
        result matches Err(e) ==> e == PdfError::DispatchFailure,
{
    let (reply, receiver) = bounded_channel::<Result<RenderedPage, PdfError>>(REPLY_CAPACITY);
    match manager.submit(render_request(id, page_index, target_width, reply)) {
        Ok(()) => Ok(receiver),
        Err(_) => Err(PdfError::DispatchFailure),
    }
}

/// Renders a page at the given width.
pub fn render_page(
    manager: &DocumentManager,
    id: DocumentId,
    page_index: u16,
    target_width: i32,
) -> (result: Result<RenderedPage, PdfError>) {
    finish(begin_render(manager, id, page_index, target_width))
}

/// Submits the request to render one tile of a page scaled to the given
/// width.
pub fn begin_render_tile(
    manager: &DocumentManager,
    id: DocumentId,
    page_index: u16,
    target_width: i32,
    tile: TileRect,
) -> (result: Result<Receiver<Result<RenderedTile, PdfError>>, PdfError>)
    ensures
        result matches Err(e) ==> e == PdfError::DispatchFailure,
{
    let (reply, receiver) = bounded_channel::<Result<RenderedTile, PdfError>>(REPLY_CAPACITY);
    match manager.submit(render_tile_request(id, page_index, target_width, tile, reply)) {
        Ok(()) => Ok(receiver),
        Err(_) => Err(PdfError::DispatchFailure),
    }
}

/// Renders one tile of a page scaled to the given width.
pub fn render_tile(
    manager: &DocumentManager,
    id: DocumentId,
    page_index: u16,
    target_width: i32,
    tile: TileRect,
) -> (result: Result<RenderedTile, PdfError>) {
    finish(begin_render_tile(manager, id, page_index, target_width, tile))
}

/// Submits the request for the summary of a document.
pub fn begin_info(
    manager: &DocumentManager,
    id: DocumentId,
) -> (result: Result<Receiver<Result<PdfInfo, PdfError>>, PdfError>)
    ensures
        result matches Err(e) ==> e == PdfError::DispatchFailure,
{
    let (reply, receiver) = bounded_channel::<Result<PdfInfo, PdfError>>(REPLY_CAPACITY);
    match manager.submit(info_request(id, reply)) {
        Ok(()) => Ok(receiver),
        Err(_) => Err(PdfError::DispatchFailure),
    }
}

/// The summary of a document.
pub fn get_pdf_info(
    manager: &DocumentManager,
    id: DocumentId,
) -> (result: Result<PdfInfo, PdfError>) {
    finish(begin_info(manager, id))
}

/// Submits the request for the outline of a document.
pub fn begin_bookmarks(
    manager: &DocumentManager,
    id: DocumentId,
) -> (result: Result<Receiver<Result<Vec<Bookmark>, PdfError>>, PdfError>)
    ensures
        result matches Err(e) ==> e == PdfError::DispatchFailure,
{
    let (reply, receiver) = bounded_channel::<Result<Vec<Bookmark>, PdfError>>(REPLY_CAPACITY);
    match manager.submit(bookmarks_request(id, reply)) {
        Ok(()) => Ok(receiver),
        Err(_) => Err(PdfError::DispatchFailure),
    }
}

/// The outline of a document.
pub fn get_pdf_bookmarks(
    manager: &DocumentManager,
    id: DocumentId,
) -> (result: Result<Vec<Bookmark>, PdfError>) {
    finish(begin_bookmarks(manager, id))
}

/// Submits the request for the text of one page.
pub fn begin_text(
    manager: &DocumentManager,
    id: DocumentId,
    page_index: u16,
) -> (result: Result<Receiver<Result<PageText, PdfError>>, PdfError>)
    ensures
        result matches Err(e) ==> e == PdfError::DispatchFailure,
{
    let (reply, receiver) = bounded_channel::<Result<PageText, PdfError>>(REPLY_CAPACITY);
    match manager.submit(text_request(id, page_index, reply)) {
        Ok(()) => Ok(receiver),
        Err(_) => Err(PdfError::DispatchFailure),
    }
}

/// The text of one page.
pub fn get_page_text(
    manager: &DocumentManager,
    id: DocumentId,
    page_index: u16,
) -> (result: Result<PageText, PdfError>) {
    finish(begin_text(manager, id, page_index))
}

/// Submits the request for the hits of a query in a document.
pub fn begin_search(
    manager: &DocumentManager,
    id: DocumentId,
    query: String,
) -> (result: Result<Receiver<Result<Vec<SearchHit>, PdfError>>, PdfError>)
    ensures
        result matches Err(e) ==> e == PdfError::DispatchFailure,
{
    let (reply, receiver) = bounded_channel::<Result<Vec<SearchHit>, PdfError>>(REPLY_CAPACITY);
    match manager.submit(search_request(id, query, reply)) {
        Ok(()) => Ok(receiver),
        Err(_) => Err(PdfError::DispatchFailure),
    }
}

/// The hits of a query in a document.
pub fn search_pdf(
    manager: &DocumentManager,
    id: DocumentId,
    query: String,
) -> (result: Result<Vec<SearchHit>, PdfError>) {
    finish(begin_search(manager, id, query))
}

/// Submits the request for the encoded preview of a document, to be
/// stored at `save_path` where one is given.
pub fn begin_preview(
    manager: &DocumentManager,
    id: DocumentId,
    save_path: Option<String>,
) -> (result: Result<Receiver<Result<Vec<u8>, PdfError>>, PdfError>)
    ensures
        result matches Err(e) ==> e == PdfError::DispatchFailure,
{
    let (reply, receiver) = bounded_channel::<Result<Vec<u8>, PdfError>>(REPLY_CAPACITY);
    match manager.submit(preview_request(id, save_path, reply)) {
        Ok(()) => Ok(receiver),
        Err(_) => Err(PdfError::DispatchFailure),
    }
}

/// The encoded preview of a document, stored at `save_path` where one is
/// given.
pub fn get_pdf_preview(
    manager: &DocumentManager,
    id: DocumentId,
    save_path: Option<String>,
) -> (result: Result<Vec<u8>, PdfError>) {
    finish(begin_preview(manager, id, save_path))
}

/// Submits the request for the markup annotations of a document.
pub fn begin_annotations(
    manager: &DocumentManager,
    id: DocumentId,
) -> (result: Result<Receiver<Result<Vec<Annotation>, PdfError>>, PdfError>)
    ensures
        result matches Err(e) ==> e == PdfError::DispatchFailure,
{
    let (reply, receiver) = bounded_channel::<Result<Vec<Annotation>, PdfError>>(REPLY_CAPACITY);
    match manager.submit(annotations_request(id, reply)) {
        Ok(()) => Ok(receiver),
        Err(_) => Err(PdfError::DispatchFailure),
    }
}

/// The markup annotations of a document.
pub fn get_pdf_annotations(
    manager: &DocumentManager,
    id: DocumentId,
) -> (result: Result<Vec<Annotation>, PdfError>) {
    finish(begin_annotations(manager, id))
}

/// Submits the request that hands an annotation to a document's worker,
/// which checks it and writes nothing.
pub fn begin_add_annotation(
    manager: &DocumentManager,
    id: DocumentId,
    annotation: Annotation,
) -> (result: Result<Receiver<Result<(), PdfError>>, PdfError>)
    ensures
        result matches Err(e) ==> e == PdfError::DispatchFailure,
{
    let (reply, receiver) = bounded_channel::<Result<(), PdfError>>(REPLY_CAPACITY);
    match manager.submit(add_annotation_request(id, annotation, reply)) {
        Ok(()) => Ok(receiver),
        Err(_) => Err(PdfError::DispatchFailure),
    }
}

/// Hands an annotation to a document's worker, which checks it and writes
/// nothing.
pub fn add_pdf_annotation(
    manager: &DocumentManager,
    id: DocumentId,
    annotation: Annotation,
) -> (result: Result<(), PdfError>) {
    finish(begin_add_annotation(manager, id, annotation))
}

/// Submits the request that hands the removal of an annotation to a
/// document's worker, which checks it and writes nothing.
pub fn begin_remove_annotation(
    manager: &DocumentManager,
    id: DocumentId,
    page_index: u16,
    annotation_id: String,
) -> (result: Result<Receiver<Result<(), PdfError>>, PdfError>)
    ensures
        result matches Err(e) ==> e == PdfError::DispatchFailure,
{
    let (reply, receiver) = bounded_channel::<Result<(), PdfError>>(REPLY_CAPACITY);
    match manager.submit(remove_annotation_request(id, page_index, annotation_id, reply)) {
        Ok(()) => Ok(receiver),
        Err(_) => Err(PdfError::DispatchFailure),
    }
}

/// Hands the removal of an annotation to a document's worker, which checks
/// it and writes nothing.
pub fn remove_pdf_annotation(
    manager: &DocumentManager,
    id: DocumentId,
    page_index: u16,
    annotation_id: String,
) -> (result: Result<(), PdfError>) {
    finish(begin_remove_annotation(manager, id, page_index, annotation_id))
}

/// Submits the request that closes a document.
pub fn begin_close(
    manager: &DocumentManager,
    id: DocumentId,
) -> (result: Result<Receiver<Result<(), PdfError>>, PdfError>)
    ensures
        result matches Err(e) ==> e == PdfError::DispatchFailure,
{
    let (reply, receiver) = bounded_channel::<Result<(), PdfError>>(REPLY_CAPACITY);
    match manager.submit(close_request(id, reply)) {
        Ok(()) => Ok(receiver),
        Err(_) => Err(PdfError::DispatchFailure),
    }
}

/// Closes a document. Closing a document that is not open is not an error.
pub fn close_pdf(
    manager: &DocumentManager,
    id: DocumentId,
) -> (result: Result<(), PdfError>) {
    finish(begin_close(manager, id))
}

} // verus!
