//! What holds of a document over its life in a worker's cache: from the
//! request that opens it, through its load, to the request that closes it.

use vstd::prelude::*;
use crate::annotation::{annotations_result, mutation_result};
use crate::cache::{CacheModel, LoadDecisionModel};
use crate::document::{Document, PdfInfo};
use crate::errors::PdfError;
use crate::manager::route_index;
use crate::metadata::{bookmarks_result, info_result};
use crate::render::{render_plan, ClipBox, RenderJob};
use crate::text::search::search_result;
use crate::text::selection::text_result;
use crate::worker::{
    cache_after,
    decided,
    waits_for_load,
    Decision,
    NativeWork,
    PdfEvent,
    Reply,
};

verus! {

/// A document that was opened under an id which the cache does not hold as
/// loaded is to be loaded from the path it was opened with. Once it is
/// loaded, `info` answers with its summary, whose page count is the
/// number of its pages and so never negative.
pub proof fn law_open_then_info<H>(
    cache: CacheModel<H>,
    id: Seq<char>,
    path: Seq<char>,
    handle: H,
    document: Document,
)
    requires
        document.wf(),
    ensures
        !cache.is_open(id) ==> cache.registered(id, path).decision(id) == LoadDecisionModel::Load(
            path,
        ),
        cache.is_open(id) ==> cache.registered(id, path).decision(id) == LoadDecisionModel::Ready,
        info_result(cache.registered(id, path).loaded(id, handle, document), id) == Ok::<
            PdfInfo,
            PdfError,
        >(document.spec_info()),
        0 <= document.spec_info().page_count == document.spec_pages().len(),
{
}

/// After a document was closed, every operation on its id answers
/// `NotFound`, and there is nothing to load it from.
pub proof fn law_closed_is_not_found<H>(
    cache: CacheModel<H>,
    id: Seq<char>,
    page_index: u16,
    target_width: i32,
    clip: Option<ClipBox>,
    query: Seq<char>,
)
    ensures
        !cache.closed(id).knows(id),
        cache.closed(id).decision(id) == LoadDecisionModel::Missing,
        info_result(cache.closed(id), id) == Err::<PdfInfo, PdfError>(PdfError::NotFound),
        bookmarks_result(cache.closed(id), id) is Err,
        bookmarks_result(cache.closed(id), id)->Err_0 == PdfError::NotFound,
        text_result(cache.closed(id), id, page_index) is Err,
        text_result(cache.closed(id), id, page_index)->Err_0 == PdfError::NotFound,
        search_result(cache.closed(id), id, query) is Err,
        search_result(cache.closed(id), id, query)->Err_0 == PdfError::NotFound,
        annotations_result(cache.closed(id), id) is Err,
        annotations_result(cache.closed(id), id)->Err_0 == PdfError::NotFound,
        mutation_result(cache.closed(id), id, page_index) == Err::<(), PdfError>(
            PdfError::NotFound,
        ),
        render_plan(cache.closed(id), id, page_index, target_width, clip) is Err,
        render_plan(cache.closed(id), id, page_index, target_width, clip)->Err_0
            == PdfError::NotFound,
{
}

/// After a document was closed, a worker refuses every request on its id,
/// other than opening or closing it, with `NotFound`.
pub proof fn law_closed_is_refused<H>(
    cache: CacheModel<H>,
    id: Seq<char>,
    event: PdfEvent,
    decision: Decision,
)
    requires
        event.target() == id,
        !event.is_lifecycle(),
        decided(cache.closed(id), event, decision),
    ensures
        !waits_for_load(cache.closed(id), event),
        decision matches Decision::Reply(reply) && event.refused_with(reply, PdfError::NotFound),
{
}

/// Closing a document twice leaves the cache as closing it once does, and
/// a worker answers either request with success.
pub proof fn law_close_twice<H>(
    cache: CacheModel<H>,
    event: PdfEvent,
    first: Decision,
    second: Decision,
)
    requires
        event is Close,
        decided(cache, event, first),
        decided(cache_after(cache, event), event, second),
    ensures
        cache_after(cache_after(cache, event), event) == cache_after(cache, event),
        first matches Decision::Reply(Reply::Unit(a)) && a.result == Ok::<(), PdfError>(()),
        second matches Decision::Reply(Reply::Unit(a)) && a.result == Ok::<(), PdfError>(()),
{
    let id = event.target();
    let once = cache.closed(id);
    let twice = once.closed(id);
    assert(twice.pending =~= once.pending);
    assert(twice.content =~= once.content);
    assert(twice.handles =~= once.handles);
}

/// A page index at or past the number of pages of a loaded document is
/// refused with `InvalidArgument` by every operation that takes one; on a
/// document that is not loaded the answer is `NotFound`. No such request
/// reaches the engine.
pub proof fn law_page_out_of_range<H>(
    cache: CacheModel<H>,
    id: Seq<char>,
    page_index: u16,
    target_width: i32,
    clip: Option<ClipBox>,
)
    requires
        cache.is_open(id) ==> page_index as int >= cache.content[id].spec_pages().len(),
    ensures
        render_plan(cache, id, page_index, target_width, clip) is Err,
        render_plan(cache, id, page_index, target_width, clip)->Err_0 == if cache.is_open(id) {
            PdfError::InvalidArgument
        } else {
            PdfError::NotFound
        },
        text_result(cache, id, page_index) is Err,
        text_result(cache, id, page_index)->Err_0 == if cache.is_open(id) {
            PdfError::InvalidArgument
        } else {
            PdfError::NotFound
        },
        mutation_result(cache, id, page_index) is Err,
        mutation_result(cache, id, page_index)->Err_0 == if cache.is_open(id) {
            PdfError::InvalidArgument
        } else {
            PdfError::NotFound
        },
{
}

/// A render or a text request for a page that a loaded document does not
/// have is answered by the worker itself, with `InvalidArgument`.
pub proof fn law_bad_page_is_refused<H>(
    cache: CacheModel<H>,
    event: PdfEvent,
    decision: Decision,
)
    requires
        cache.is_open(event.target()),
        match event {
            PdfEvent::Render { page_index, .. } => page_index as int
                >= cache.content[event.target()].spec_pages().len(),
            PdfEvent::RenderTile { page_index, .. } => page_index as int
                >= cache.content[event.target()].spec_pages().len(),
            PdfEvent::Text { page_index, .. } => page_index as int
                >= cache.content[event.target()].spec_pages().len(),
            _ => false,
        },
        decided(cache, event, decision),
    ensures
        !waits_for_load(cache, event),
        decision matches Decision::Reply(reply) && event.refused_with(
            reply,
            PdfError::InvalidArgument,
        ),
{
}

/// The worker that serves a document is one of the pool.
pub proof fn law_route_in_pool(id: Seq<char>, workers: nat)
    requires
        workers > 0,
    ensures
        route_index(id, workers) < workers,
{
    assert(crate::manager::checksum(id) % workers < workers) by (nonlinear_arith)
        requires
            workers > 0,
    ;
}

/// The caches of a pool after a request: the request goes to the worker
/// that its id selects, and only that worker's cache can change.
pub open spec fn pool_after<H>(pool: Seq<CacheModel<H>>, event: PdfEvent) -> Seq<CacheModel<H>> {
    let worker = route_index(event.target(), pool.len()) as int;
    pool.update(worker, cache_after(pool[worker], event))
}

/// Requests for one id always reach the worker that holds the document:
/// once the worker that an id selects has loaded the document, it still
/// holds it, unchanged, after any request to the pool that does not close
/// that document, whichever worker the request goes to.
pub proof fn law_routing_is_sticky<H>(pool: Seq<CacheModel<H>>, id: Seq<char>, event: PdfEvent)
    requires
        pool.len() > 0,
        pool[route_index(id, pool.len()) as int].is_open(id),
        !(event is Close && event.target() == id),
    ensures
        pool_after(pool, event).len() == pool.len(),
        pool_after(pool, event)[route_index(id, pool.len()) as int].is_open(id),
        pool_after(pool, event)[route_index(id, pool.len()) as int].content[id]
            == pool[route_index(id, pool.len()) as int].content[id],
{
    law_route_in_pool(id, pool.len());
    law_route_in_pool(event.target(), pool.len());
}

/// Once a worker has loaded a document, the document stays loaded, with
/// the same content and handle, through every request that the worker
/// decides, until a request closes that very document.
pub proof fn law_loaded_stays_loaded<H>(cache: CacheModel<H>, id: Seq<char>, event: PdfEvent)
    requires
        cache.wf(),
        cache.is_open(id),
        !(event is Close && event.target() == id),
    ensures
        cache_after(cache, event).wf(),
        cache_after(cache, event).is_open(id),
        cache_after(cache, event).content[id] == cache.content[id],
        cache_after(cache, event).handles[id] == cache.handles[id],
{
    match event {
        PdfEvent::Close { id: closed, .. } => {
            assert(cache.closed(closed@).content.dom() =~= cache.closed(closed@).handles.dom());
        },
        _ => {},
    }
}

/// A request on a document that its worker has loaded never waits for a
/// load and is never refused with `NotFound`.
pub proof fn law_loaded_is_found<H>(cache: CacheModel<H>, event: PdfEvent, decision: Decision)
    requires
        cache.is_open(event.target()),
        !event.is_lifecycle(),
        decided(cache, event, decision),
    ensures
        !waits_for_load(cache, event),
        !(decision matches Decision::Reply(reply) && event.refused_with(
            reply,
            PdfError::NotFound,
        )),
{
}

/// The job of a render that a worker hands to the engine.
pub open spec fn render_job_of(decision: Decision) -> Option<RenderJob> {
    match decision {
        Decision::Native(NativeWork::Render { job, .. }) => Some(job),
        _ => None,
    }
}

/// Two requests to render the same page of the same document at the same
/// width, decided against the same cache, give the engine the same job or
/// are both refused. What the engine makes of the job is its own.
pub proof fn law_same_render_same_job<H>(
    cache: CacheModel<H>,
    first: PdfEvent,
    second: PdfEvent,
    first_decision: Decision,
    second_decision: Decision,
)
    requires
        first matches PdfEvent::Render { id: id1, page_index: page1, target_width: width1, .. }
            && second matches PdfEvent::Render {
            id: id2,
            page_index: page2,
            target_width: width2,
            ..
        } && id1@ == id2@ && page1 == page2 && width1 == width2,
        !waits_for_load(cache, first),
        decided(cache, first, first_decision),
        decided(cache_after(cache, first), second, second_decision),
    ensures
        !waits_for_load(cache_after(cache, first), second),
        render_job_of(first_decision) == render_job_of(second_decision),
{
}

} // verus!
