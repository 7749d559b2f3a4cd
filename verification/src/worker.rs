//! The request protocol and a worker's handling of one request.
//!
//! A request names its operation, carries the operands and the sending end
//! of the channel that the reply goes to. A worker takes one request at a
//! time. For a request on a document it first sees to it that the document
//! is loaded; then it either computes the reply from what it read of the
//! document, or hands the request on as native work where the engine is
//! needed. Loading and rasterizing are done by the caller, which runs the
//! engine; everything that is decided is decided here.

use vstd::prelude::*;
use flume::Sender;
use crate::annotation::{
    add_annotation,
    annotations_answer,
    delete_annotation,
    get_annotations,
    mutation_result,
    Annotation,
};
use crate::cache::{CacheModel, DocumentCache, LoadDecision, LoadDecisionModel};
use crate::channel::{another_sender, send_message};
use crate::document::{Bookmark, Document, DocumentId, PdfInfo};
use crate::errors::PdfError;
use crate::metadata::{bookmarks_answer, get_bookmarks, get_info, info_result};
use crate::render::{
    clip_of,
    close,
    open,
    open_result,
    preview,
    render_page,
    render_plan,
    render_tile,
    RenderJob,
    RenderedPage,
    RenderedTile,
    TileRect,
    PREVIEW_WIDTH,
};
use crate::text::search::{search_answer, search_document, SearchHit};
use crate::text::selection::{get_text_by_page, text_answer, PageText};

verus! {

/// A request to a worker.
#[allow(inconsistent_fields)]
pub enum PdfEvent {
    Open { id: DocumentId, path: String, reply: Sender<Result<(), PdfError>> },
    Render {
        id: DocumentId,
        page_index: u16,
        target_width: i32,
        reply: Sender<Result<RenderedPage, PdfError>>,
    },
    RenderTile {
        id: DocumentId,
        page_index: u16,
        target_width: i32,
        tile: TileRect,
        reply: Sender<Result<RenderedTile, PdfError>>,
    },
    Info { id: DocumentId, reply: Sender<Result<PdfInfo, PdfError>> },
    Bookmarks { id: DocumentId, reply: Sender<Result<Vec<Bookmark>, PdfError>> },
    Text { id: DocumentId, page_index: u16, reply: Sender<Result<PageText, PdfError>> },
    Search { id: DocumentId, query: String, reply: Sender<Result<Vec<SearchHit>, PdfError>> },
    Preview { id: DocumentId, save_path: Option<String>, reply: Sender<Result<Vec<u8>, PdfError>> },
    GetAnnotations { id: DocumentId, reply: Sender<Result<Vec<Annotation>, PdfError>> },
    AddAnnotation { id: DocumentId, annotation: Annotation, reply: Sender<Result<(), PdfError>> },
    RemoveAnnotation {
        id: DocumentId,
        page_index: u16,
        annotation_id: String,
        reply: Sender<Result<(), PdfError>>,
    },
    Close { id: DocumentId, reply: Sender<Result<(), PdfError>> },
}

/// A reply that is ready to be sent: the result and the channel it goes to.
#[verifier::reject_recursive_types(T)]
pub struct Answer<T> {
    pub result: Result<T, PdfError>,
    pub reply: Sender<Result<T, PdfError>>,
}

impl<T> Answer<T> {
    /// Sends the result down its channel. It is not taken when the caller
    /// has stopped waiting; the answer then comes back as it was.
    pub fn deliver(self) -> (outcome: Result<(), Answer<T>>)
        ensures
            outcome matches Err(back) ==> back == self,
    {
        match send_message(&self.reply, self.result) {
            Ok(()) => Ok(()),
            Err(result) => Err(Answer { result, reply: self.reply }),
        }
    }
}

/// A reply of any of the operations.
pub enum Reply {
    Unit(Answer<()>),
    Info(Answer<PdfInfo>),
    Bookmarks(Answer<Vec<Bookmark>>),
    Text(Answer<PageText>),
    Search(Answer<Vec<SearchHit>>),
    Annotations(Answer<Vec<Annotation>>),
    Page(Answer<RenderedPage>),
    Tile(Answer<RenderedTile>),
    Preview(Answer<Vec<u8>>),
}

impl Reply {
    /// Sends the reply down its channel. It is not taken when the caller
    /// has stopped waiting; the reply then comes back as it was.
    pub fn deliver(self) -> (outcome: Result<(), Reply>)
        ensures
            outcome matches Err(back) ==> back == self,
    {
        match self {
            Reply::Unit(a) => match a.deliver() {
                Ok(()) => Ok(()),
                Err(back) => Err(Reply::Unit(back)),
            },
            Reply::Info(a) => match a.deliver() {
                Ok(()) => Ok(()),
                Err(back) => Err(Reply::Info(back)),
            },
            Reply::Bookmarks(a) => match a.deliver() {
                Ok(()) => Ok(()),
                Err(back) => Err(Reply::Bookmarks(back)),
            },
            Reply::Text(a) => match a.deliver() {
                Ok(()) => Ok(()),
                Err(back) => Err(Reply::Text(back)),
            },
            Reply::Search(a) => match a.deliver() {
                Ok(()) => Ok(()),
                Err(back) => Err(Reply::Search(back)),
            },
            Reply::Annotations(a) => match a.deliver() {
                Ok(()) => Ok(()),
                Err(back) => Err(Reply::Annotations(back)),
            },
            Reply::Page(a) => match a.deliver() {
                Ok(()) => Ok(()),
                Err(back) => Err(Reply::Page(back)),
            },
            Reply::Tile(a) => match a.deliver() {
                Ok(()) => Ok(()),
                Err(back) => Err(Reply::Tile(back)),
            },
            Reply::Preview(a) => match a.deliver() {
                Ok(()) => Ok(()),
                Err(back) => Err(Reply::Preview(back)),
            },
        }
    }
}

/// Work that needs the native engine.
#[allow(inconsistent_fields)]
pub enum NativeWork {
    /// Load the document from `path`, record it in the cache, and hand the
    /// request to the worker again.
    Load { path: String, event: PdfEvent },
    /// Rasterize a page and reply with it.
    Render { id: DocumentId, job: RenderJob, reply: Sender<Result<RenderedPage, PdfError>> },
    /// Rasterize a tile of a page and reply with it.
    RenderTile {
        id: DocumentId,
        job: RenderJob,
        tile: TileRect,
        reply: Sender<Result<RenderedTile, PdfError>>,
    },
    /// Rasterize the preview, store it where a path is given, and reply
    /// with the encoded bytes.
    Preview {
        id: DocumentId,
        job: RenderJob,
        save_path: Option<String>,
        reply: Sender<Result<Vec<u8>, PdfError>>,
    },
}

/// What a worker makes of a request.
pub enum Decision {
    /// The reply is known.
    Reply(Reply),
    /// The engine has work to do first.
    Native(NativeWork),
}

impl PdfEvent {
    /// The id of the document that the request is about.
    pub open spec fn target(self) -> Seq<char> {
        match self {
            PdfEvent::Open { id, .. } => id@,
            PdfEvent::Render { id, .. } => id@,
            PdfEvent::RenderTile { id, .. } => id@,
            PdfEvent::Info { id, .. } => id@,
            PdfEvent::Bookmarks { id, .. } => id@,
            PdfEvent::Text { id, .. } => id@,
            PdfEvent::Search { id, .. } => id@,
            PdfEvent::Preview { id, .. } => id@,
            PdfEvent::GetAnnotations { id, .. } => id@,
            PdfEvent::AddAnnotation { id, .. } => id@,
            PdfEvent::RemoveAnnotation { id, .. } => id@,
            PdfEvent::Close { id, .. } => id@,
        }
    }

    /// Whether the request opens or closes a document. Such a request is
    /// served without loading anything.
    pub open spec fn is_lifecycle(self) -> bool {
        self is Open || self is Close
    }

    /// Whether `reply` answers the request with `error`, down the
    /// request's own channel.
    pub open spec fn refused_with(self, reply: Reply, error: PdfError) -> bool {
        match self {
            PdfEvent::Open { reply: r, .. }
            | PdfEvent::AddAnnotation { reply: r, .. }
            | PdfEvent::RemoveAnnotation { reply: r, .. }
            | PdfEvent::Close { reply: r, .. } => reply matches Reply::Unit(a) && a.reply == r
                && a.result == Err::<(), PdfError>(error),
            PdfEvent::Render { reply: r, .. } => reply matches Reply::Page(a) && a.reply == r
                && a.result is Err && a.result->Err_0 == error,
            PdfEvent::RenderTile { reply: r, .. } => reply matches Reply::Tile(a) && a.reply == r
                && a.result is Err && a.result->Err_0 == error,
            PdfEvent::Info { reply: r, .. } => reply matches Reply::Info(a) && a.reply == r
                && a.result == Err::<PdfInfo, PdfError>(error),
            PdfEvent::Bookmarks { reply: r, .. } => reply matches Reply::Bookmarks(a) && a.reply
                == r && a.result is Err && a.result->Err_0 == error,
            PdfEvent::Text { reply: r, .. } => reply matches Reply::Text(a) && a.reply == r
                && a.result is Err && a.result->Err_0 == error,
            PdfEvent::Search { reply: r, .. } => reply matches Reply::Search(a) && a.reply == r
                && a.result is Err && a.result->Err_0 == error,
            PdfEvent::Preview { reply: r, .. } => reply matches Reply::Preview(a) && a.reply == r
                && a.result is Err && a.result->Err_0 == error,
            PdfEvent::GetAnnotations { reply: r, .. } => reply matches Reply::Annotations(a)
                && a.reply == r && a.result is Err && a.result->Err_0 == error,
        }
    }

    /// The id of the document that the request is about.
    pub fn id(&self) -> (id: &DocumentId)
        ensures
            id@ == self.target(),
    {
        match self {
            PdfEvent::Open { id, .. } => id,
            PdfEvent::Render { id, .. } => id,
            PdfEvent::RenderTile { id, .. } => id,
            PdfEvent::Info { id, .. } => id,
            PdfEvent::Bookmarks { id, .. } => id,
            PdfEvent::Text { id, .. } => id,
            PdfEvent::Search { id, .. } => id,
            PdfEvent::Preview { id, .. } => id,
            PdfEvent::GetAnnotations { id, .. } => id,
            PdfEvent::AddAnnotation { id, .. } => id,
            PdfEvent::RemoveAnnotation { id, .. } => id,
            PdfEvent::Close { id, .. } => id,
        }
    }

    /// Whether the request opens or closes a document.
    pub fn opens_or_closes(&self) -> (b: bool)
        ensures
            b == self.is_lifecycle(),
    {
        match self {
            PdfEvent::Open { .. } => true,
            PdfEvent::Close { .. } => true,
            _ => false,
        }
    }

    /// The reply that answers the request with an error.
    pub fn refuse(self, error: PdfError) -> (reply: Reply)
        ensures
            self.refused_with(reply, error),
    {
        match self {
            PdfEvent::Open { reply, .. } => Reply::Unit(Answer { result: Err(error), reply }),
            PdfEvent::Render { reply, .. } => Reply::Page(Answer { result: Err(error), reply }),
            PdfEvent::RenderTile { reply, .. } => Reply::Tile(
                Answer { result: Err(error), reply },
            ),
            PdfEvent::Info { reply, .. } => Reply::Info(Answer { result: Err(error), reply }),
            PdfEvent::Bookmarks { reply, .. } => Reply::Bookmarks(
                Answer { result: Err(error), reply },
            ),
            PdfEvent::Text { reply, .. } => Reply::Text(Answer { result: Err(error), reply }),
            PdfEvent::Search { reply, .. } => Reply::Search(Answer { result: Err(error), reply }),
            PdfEvent::Preview { reply, .. } => Reply::Preview(
                Answer { result: Err(error), reply },
            ),
            PdfEvent::GetAnnotations { reply, .. } => Reply::Annotations(
                Answer { result: Err(error), reply },
            ),
            PdfEvent::AddAnnotation { reply, .. } => Reply::Unit(
                Answer { result: Err(error), reply },
            ),
            PdfEvent::RemoveAnnotation { reply, .. } => Reply::Unit(
                Answer { result: Err(error), reply },
            ),
            PdfEvent::Close { reply, .. } => Reply::Unit(Answer { result: Err(error), reply }),
        }
    }
}

/// The request that opens a document.
pub fn open_request(id: DocumentId, path: String, reply: Sender<Result<(), PdfError>>) -> (event:
    PdfEvent)
    ensures
        event == (PdfEvent::Open { id, path, reply }),
{
    PdfEvent::Open { id, path, reply }
}

/// The request that renders a page at a width.
pub fn render_request(
    id: DocumentId,
    page_index: u16,
    target_width: i32,
    reply: Sender<Result<RenderedPage, PdfError>>,
) -> (event: PdfEvent)
    ensures
        event == (PdfEvent::Render { id, page_index, target_width, reply }),
{
    PdfEvent::Render { id, page_index, target_width, reply }
}

/// The request that renders one tile of a page scaled to a width.
pub fn render_tile_request(
    id: DocumentId,
    page_index: u16,
    target_width: i32,
    tile: TileRect,
    reply: Sender<Result<RenderedTile, PdfError>>,
) -> (event: PdfEvent)
    ensures
        event == (PdfEvent::RenderTile { id, page_index, target_width, tile, reply }),
{
    PdfEvent::RenderTile { id, page_index, target_width, tile, reply }
}

/// The request for a document's summary.
pub fn info_request(id: DocumentId, reply: Sender<Result<PdfInfo, PdfError>>) -> (event: PdfEvent)
    ensures
        event == (PdfEvent::Info { id, reply }),
{
    PdfEvent::Info { id, reply }
}

/// The request for a document's outline.
pub fn bookmarks_request(id: DocumentId, reply: Sender<Result<Vec<Bookmark>, PdfError>>) -> (event:
    PdfEvent)
    ensures
        event == (PdfEvent::Bookmarks { id, reply }),
{
    PdfEvent::Bookmarks { id, reply }
}

/// The request for the text of a page.
pub fn text_request(id: DocumentId, page_index: u16, reply: Sender<Result<PageText, PdfError>>)
    -> (event: PdfEvent)
    ensures
        event == (PdfEvent::Text { id, page_index, reply }),
{
    PdfEvent::Text { id, page_index, reply }
}

/// The request for the hits of a query.
pub fn search_request(
    id: DocumentId,
    query: String,
    reply: Sender<Result<Vec<SearchHit>, PdfError>>,
) -> (event: PdfEvent)
    ensures
        event == (PdfEvent::Search { id, query, reply }),
{
    PdfEvent::Search { id, query, reply }
}

/// The request for a document's preview.
pub fn preview_request(
    id: DocumentId,
    save_path: Option<String>,
    reply: Sender<Result<Vec<u8>, PdfError>>,
) -> (event: PdfEvent)
    ensures
        event == (PdfEvent::Preview { id, save_path, reply }),
{
    PdfEvent::Preview { id, save_path, reply }
}

/// The request for a document's markup annotations.
pub fn annotations_request(id: DocumentId, reply: Sender<Result<Vec<Annotation>, PdfError>>)
    -> (event: PdfEvent)
    ensures
        event == (PdfEvent::GetAnnotations { id, reply }),
{
    PdfEvent::GetAnnotations { id, reply }
}

/// The request that hands an annotation to a document.
pub fn add_annotation_request(
    id: DocumentId,
    annotation: Annotation,
    reply: Sender<Result<(), PdfError>>,
) -> (event: PdfEvent)
    ensures
        event == (PdfEvent::AddAnnotation { id, annotation, reply }),
{
    PdfEvent::AddAnnotation { id, annotation, reply }
}

/// The request that removes an annotation from a page.
pub fn remove_annotation_request(
    id: DocumentId,
    page_index: u16,
    annotation_id: String,
    reply: Sender<Result<(), PdfError>>,
) -> (event: PdfEvent)
    ensures
        event == (PdfEvent::RemoveAnnotation { id, page_index, annotation_id, reply }),
{
    PdfEvent::RemoveAnnotation { id, page_index, annotation_id, reply }
}

/// The request that closes a document.
pub fn close_request(id: DocumentId, reply: Sender<Result<(), PdfError>>) -> (event: PdfEvent)
    ensures
        event == (PdfEvent::Close { id, reply }),
{
    PdfEvent::Close { id, reply }
}

/// The cache after a request was decided: opening records the path,
/// closing forgets the document, and nothing else changes the cache.
pub open spec fn cache_after<H>(cache: CacheModel<H>, event: PdfEvent) -> CacheModel<H> {
    match event {
        PdfEvent::Open { id, path, .. } => if path@.len() == 0 {
            cache
        } else {
            cache.registered(id@, path@)
        },
        PdfEvent::Close { id, .. } => cache.closed(id@),
        _ => cache,
    }
}

/// Whether a request has to wait for its document to be loaded.
pub open spec fn waits_for_load<H>(cache: CacheModel<H>, event: PdfEvent) -> bool {
    !event.is_lifecycle() && cache.decision(event.target()) is Load
}

/// Whether `work` is the right one for a request that waits for its
/// document: to load from the path recorded for it, with the request
/// itself handed back.
pub open spec fn load_first<H>(cache: CacheModel<H>, event: PdfEvent, work: NativeWork) -> bool {
    work matches NativeWork::Load { path, event: e } && e == event && LoadDecisionModel::Load(
        path@,
    ) == cache.decision(event.target())
}

/// Whether `decision` is the right one for a request that needs no load:
/// the reply of the operation, down the request's own channel, or the
/// native work of a render that may go ahead.
pub open spec fn decided<H>(cache: CacheModel<H>, event: PdfEvent, decision: Decision) -> bool {
    match event {
        PdfEvent::Open { path, reply, .. } => decision matches Decision::Reply(Reply::Unit(a))
            && a.reply == reply && a.result == open_result(path@),
        PdfEvent::Close { reply, .. } => decision matches Decision::Reply(Reply::Unit(a))
            && a.reply == reply && a.result == Ok::<(), PdfError>(()),
        PdfEvent::Info { id, reply } => decision matches Decision::Reply(Reply::Info(a))
            && a.reply == reply && a.result == info_result(cache, id@),
        PdfEvent::Bookmarks { id, reply } => decision matches Decision::Reply(Reply::Bookmarks(a))
            && a.reply == reply && bookmarks_answer(a.result, cache, id@),
        PdfEvent::Text { id, page_index, reply } => decision matches Decision::Reply(
            Reply::Text(a),
        ) && a.reply == reply && text_answer(a.result, cache, id@, page_index),
        PdfEvent::Search { id, query, reply } => decision matches Decision::Reply(
            Reply::Search(a),
        ) && a.reply == reply && search_answer(a.result, cache, id@, query@),
        PdfEvent::GetAnnotations { id, reply } => decision matches Decision::Reply(
            Reply::Annotations(a),
        ) && a.reply == reply && annotations_answer(a.result, cache, id@),
        PdfEvent::AddAnnotation { id, annotation, reply } => decision matches Decision::Reply(
            Reply::Unit(a),
        ) && a.reply == reply && a.result == mutation_result(cache, id@, annotation.page_index),
        PdfEvent::RemoveAnnotation { id, page_index, reply, .. } => decision matches Decision::Reply(
            Reply::Unit(a),
        ) && a.reply == reply && a.result == mutation_result(cache, id@, page_index),
        PdfEvent::Render { id, page_index, target_width, reply } => match render_plan(
            cache,
            id@,
            page_index,
            target_width,
            None,
        ) {
            Ok(planned) => decision matches Decision::Native(
                NativeWork::Render { id: i, job, reply: r },
            ) && i == id && job == planned && r == reply,
            Err(e) => decision matches Decision::Reply(Reply::Page(a)) && a.reply == reply
                && a.result is Err && a.result->Err_0 == e,
        },
        PdfEvent::RenderTile { id, page_index, target_width, tile, reply } => match render_plan(
            cache,
            id@,
            page_index,
            target_width,
            Some(clip_of(tile)),
        ) {
            Ok(planned) => decision matches Decision::Native(
                NativeWork::RenderTile { id: i, job, tile: t, reply: r },
            ) && i == id && job == planned && t == tile && r == reply,
            Err(e) => decision matches Decision::Reply(Reply::Tile(a)) && a.reply == reply
                && a.result is Err && a.result->Err_0 == e,
        },
        PdfEvent::Preview { id, save_path, reply } => match render_plan(
            cache,
            id@,
            0,
            PREVIEW_WIDTH,
            None,
        ) {
            Ok(planned) => decision matches Decision::Native(
                NativeWork::Preview { id: i, job, save_path: s, reply: r },
            ) && i == id && job == planned && s == save_path && r == reply,
            Err(e) => decision matches Decision::Reply(Reply::Preview(a)) && a.reply == reply
                && a.result is Err && a.result->Err_0 == e,
        },
    }
}

/// Decides one request against a worker's cache.
///
/// A request on a document that was opened but is not loaded yet comes
/// back as it is, with the path to load from. Every other request is
/// decided: opening and closing change the cache, the rest is answered
/// from the cache, with `NotFound` where the worker does not know the
/// document.
pub fn decide<H>(cache: &mut DocumentCache<H>, event: PdfEvent) -> (decision: Decision)
    requires
        old(cache).wf(),
    ensures
        final(cache).wf(),
        final(cache)@ == cache_after(old(cache)@, event),
        waits_for_load(old(cache)@, event) ==> (decision matches Decision::Native(w)
            && load_first(old(cache)@, event, w)),
        !waits_for_load(old(cache)@, event) ==> decided(old(cache)@, event, decision),
{
    if !event.opens_or_closes() {
        match cache.load_decision(event.id()) {
            LoadDecision::Load(path) => {
                return Decision::Native(NativeWork::Load { path, event });
            },
            _ => {},
        }
    }
    match event {
        PdfEvent::Open { id, path, reply } => {
            let result = open(id, path, cache);
            Decision::Reply(Reply::Unit(Answer { result, reply }))
        },
        PdfEvent::Close { id, reply } => {
            let result = close(cache, &id);
            Decision::Reply(Reply::Unit(Answer { result, reply }))
        },
        PdfEvent::Info { id, reply } => {
            let result = get_info(cache, &id);
            Decision::Reply(Reply::Info(Answer { result, reply }))
        },
        PdfEvent::Bookmarks { id, reply } => {
            let result = get_bookmarks(cache, &id);
            Decision::Reply(Reply::Bookmarks(Answer { result, reply }))
        },
        PdfEvent::Text { id, page_index, reply } => {
            let result = get_text_by_page(cache, &id, page_index);
            Decision::Reply(Reply::Text(Answer { result, reply }))
        },
        PdfEvent::Search { id, query, reply } => {
            let result = search_document(cache, &id, query.as_str());
            Decision::Reply(Reply::Search(Answer { result, reply }))
        },
        PdfEvent::GetAnnotations { id, reply } => {
            let result = get_annotations(cache, &id);
            Decision::Reply(Reply::Annotations(Answer { result, reply }))
        },
        PdfEvent::AddAnnotation { id, annotation, reply } => {
            let result = add_annotation(cache, &id, annotation);
            Decision::Reply(Reply::Unit(Answer { result, reply }))
        },
        PdfEvent::RemoveAnnotation { id, page_index, annotation_id, reply } => {
            let result = delete_annotation(cache, &id, page_index, annotation_id);
            Decision::Reply(Reply::Unit(Answer { result, reply }))
        },
        PdfEvent::Render { id, page_index, target_width, reply } => {
            match render_page(cache, &id, page_index, target_width) {
                Ok(job) => Decision::Native(NativeWork::Render { id, job, reply }),
                Err(e) => Decision::Reply(Reply::Page(Answer { result: Err(e), reply })),
            }
        },
        PdfEvent::RenderTile { id, page_index, target_width, tile, reply } => {
            match render_tile(cache, &id, page_index, target_width, tile) {
                Ok(job) => Decision::Native(NativeWork::RenderTile { id, job, tile, reply }),
                Err(e) => Decision::Reply(Reply::Tile(Answer { result: Err(e), reply })),
            }
        },
        PdfEvent::Preview { id, save_path, reply } => {
            match preview(cache, &id) {
                Ok(job) => Decision::Native(NativeWork::Preview { id, job, save_path, reply }),
                Err(e) => Decision::Reply(Reply::Preview(Answer { result: Err(e), reply })),
            }
        },
    }
}

/// Serves one request as far as it can be served without the engine: the
/// request is decided, and a reply that is known is sent. What is left for
/// the engine is handed back.
pub fn worker_step<H>(cache: &mut DocumentCache<H>, event: PdfEvent) -> (work: Option<NativeWork>)
    requires
        old(cache).wf(),
    ensures
        final(cache).wf(),
        final(cache)@ == cache_after(old(cache)@, event),
        waits_for_load(old(cache)@, event) ==> (work matches Some(w) && load_first(
            old(cache)@,
            event,
            w,
        )),
        !waits_for_load(old(cache)@, event) ==> match work {
            Some(w) => decided(old(cache)@, event, Decision::Native(w)),
            None => exists|r: Reply| decided(old(cache)@, event, Decision::Reply(r)),
        },
{
    match decide(cache, event) {
        Decision::Reply(reply) => {
            let _ = reply.deliver();
            None
        },
        Decision::Native(work) => Some(work),
    }
}

/// The cache after a load that was asked for on behalf of a request has
/// ended: as it was where the load failed, and with the document recorded
/// and the request decided against it where the load succeeded.
pub open spec fn cache_after_load<H>(
    cache: CacheModel<H>,
    event: PdfEvent,
    loaded: Result<(H, Document), PdfError>,
) -> CacheModel<H> {
    match loaded {
        Ok(got) => cache_after(cache.loaded(event.target(), got.0, got.1), event),
        Err(_) => cache,
    }
}

/// Decides the request that waited for a load, once the load has ended.
///
/// Where the load failed, the request is refused with the load's error
/// and the cache stays as it was. Where it succeeded, the document is
/// recorded under the request's id and the request is decided against
/// the cache that now holds it; it never waits for a load again.
pub fn decide_after_load<H>(
    cache: &mut DocumentCache<H>,
    event: PdfEvent,
    loaded: Result<(H, Document), PdfError>,
) -> (decision: Decision)
    requires
        old(cache).wf(),
    ensures
        final(cache).wf(),
        final(cache)@ == cache_after_load(old(cache)@, event, loaded),
        loaded matches Err(error) ==> (decision matches Decision::Reply(reply)
            && event.refused_with(reply, error)),
        loaded matches Ok(got) ==> decided(
            old(cache)@.loaded(event.target(), got.0, got.1),
            event,
            decision,
        ),
{
    match loaded {
        Err(error) => Decision::Reply(event.refuse(error)),
        Ok((handle, content)) => {
            cache.complete_load(event.id().clone(), handle, content);
            decide(cache, event)
        },
    }
}

/// Goes on with the request that waited for a load, once the load has
/// ended: the request is decided as [`decide_after_load`] says, and a
/// reply that is known is sent. What is left for the engine is handed
/// back; after a failed load nothing is.
pub fn after_load<H>(
    cache: &mut DocumentCache<H>,
    event: PdfEvent,
    loaded: Result<(H, Document), PdfError>,
) -> (work: Option<NativeWork>)
    requires
        old(cache).wf(),
    ensures
        final(cache).wf(),
        final(cache)@ == cache_after_load(old(cache)@, event, loaded),
        loaded is Err ==> work is None,
        loaded matches Ok(got) ==> match work {
            Some(w) => decided(
                old(cache)@.loaded(event.target(), got.0, got.1),
                event,
                Decision::Native(w),
            ),
            None => exists|r: Reply|
                decided(
                    old(cache)@.loaded(event.target(), got.0, got.1),
                    event,
                    Decision::Reply(r),
                ),
        },
{
    match decide_after_load(cache, event, loaded) {
        Decision::Reply(reply) => {
            let _ = reply.deliver();
            None
        },
        Decision::Native(work) => Some(work),
    }
}

/// The sending end of a worker's request queue.
pub struct PdfWorker {
    sender: Sender<PdfEvent>,
}

impl PdfWorker {
    /// A handle on the worker that reads the other end of `sender`.
    pub fn new(sender: Sender<PdfEvent>) -> (worker: Self)
        ensures
            worker.queue() == sender,
    {
        PdfWorker { sender }
    }

    /// The channel that requests to this worker go down.
    pub closed spec fn queue(&self) -> Sender<PdfEvent> {
        self.sender
    }

    /// Another sending end of the worker's request queue.
    pub fn sender(&self) -> (sender: Sender<PdfEvent>)
        ensures
            sender == self.queue(),
    {
        another_sender(&self.sender)
    }

    /// Puts a request into the worker's queue. It is not taken when the
    /// worker is gone; the request then comes back as it was.
    pub fn submit(&self, event: PdfEvent) -> (outcome: Result<(), PdfEvent>)
        ensures
            outcome matches Err(back) ==> back == event,
    {
        send_message(&self.sender, event)
    }
}

} // verus!
