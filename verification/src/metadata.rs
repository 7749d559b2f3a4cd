//! Document summaries.

use vstd::prelude::*;
use crate::cache::{CacheModel, DocumentCache};
use crate::document::{copy_outline, outline_model, Bookmark, BookmarkModel, DocumentId, PdfInfo};
use crate::errors::PdfError;

verus! {

/// What `info` answers for `id`: the summary of the loaded document.
pub open spec fn info_result<H>(cache: CacheModel<H>, id: Seq<char>) -> Result<PdfInfo, PdfError> {
    if cache.is_open(id) {
        Ok(cache.content[id].spec_info())
    } else {
        Err(PdfError::NotFound)
    }
}

/// The summary of a loaded document.
pub fn get_info<H>(documents: &DocumentCache<H>, id: &DocumentId) -> (result: Result<
    PdfInfo,
    PdfError,
>)
    requires
        documents.wf(),
    ensures
        result == info_result(documents@, id@),
{
    match documents.document(id) {
        None => Err(PdfError::NotFound),
        Some(document) => Ok(document.info()),
    }
}

/// What `bookmarks` answers for `id`: the outline of the loaded document.
pub open spec fn bookmarks_result<H>(cache: CacheModel<H>, id: Seq<char>) -> Result<
    Seq<BookmarkModel>,
    PdfError,
> {
    if cache.is_open(id) {
        Ok(outline_model(cache.content[id].spec_bookmarks()))
    } else {
        Err(PdfError::NotFound)
    }
}

/// Whether `result` is what `bookmarks` answers.
pub open spec fn bookmarks_answer<H>(
    result: Result<Vec<Bookmark>, PdfError>,
    cache: CacheModel<H>,
    id: Seq<char>,
) -> bool {
    match bookmarks_result(cache, id) {
        Ok(outline) => result is Ok && outline_model(result->Ok_0@) == outline,
        Err(e) => result is Err && result->Err_0 == e,
    }
}

/// The outline of a loaded document.
pub fn get_bookmarks<H>(documents: &DocumentCache<H>, id: &DocumentId) -> (result: Result<
    Vec<Bookmark>,
    PdfError,
>)
    requires
        documents.wf(),
    ensures
        bookmarks_answer(result, documents@, id@),
{
    match documents.document(id) {
        None => Err(PdfError::NotFound),
        Some(document) => Ok(copy_outline(document.bookmarks())),
    }
}

} // verus!
