use pdf_reader::annotation::{
    Annotation, AnnotationAppearance, AnnotationFlags, AnnotationGeometry, AnnotationMetadata,
    AnnotationType,
};
use pdf_reader::cache::{DocumentCache, LoadDecision};
use pdf_reader::geometry::PdfRect;
use pdf_reader::document::{Document, PageContent, PdfInfo};
use pdf_reader::errors::PdfError;
use pdf_reader::manager::{await_reply, open_outcome, route, settle_reply, DocumentManager};
use pdf_reader::service::{
    begin_add_annotation, begin_annotations, begin_bookmarks, begin_close, begin_info,
    begin_preview, begin_remove_annotation, begin_render, begin_render_tile, begin_search,
    begin_text, close_pdf, get_page_text, get_pdf_annotations, get_pdf_bookmarks, get_pdf_info,
    get_pdf_preview, open_pdf, add_pdf_annotation, remove_pdf_annotation, render_page,
    render_tile, search_pdf,
};
use pdf_reader::worker::{worker_step, NativeWork, PdfEvent, PdfWorker};

fn is_lower_hex(c: char) -> bool {
    c.is_ascii_digit() || ('a'..='f').contains(&c)
}

fn assert_document_id(id: &str) {
    let chars: Vec<char> = id.chars().collect();
    assert_eq!(chars.len(), 36);
    for (i, c) in chars.iter().enumerate() {
        if i == 8 || i == 13 || i == 18 || i == 23 {
            assert_eq!(*c, '-');
        } else {
            assert!(is_lower_hex(*c), "{} at {}", c, i);
        }
    }
    assert_eq!(chars[14], '4');
}

/// Serves, on the spot, every request that waits in the queues of a pool.
/// Loading gives every document two blank pages.
fn pump(queues: &[flume::Receiver<PdfEvent>], caches: &mut [DocumentCache<u32>]) {
    for (requests, cache) in queues.iter().zip(caches.iter_mut()) {
        while let Ok(event) = requests.try_recv() {
            let mut work = worker_step(cache, event);
            while let Some(NativeWork::Load { event, .. }) = work {
                let page = PageContent {
                    width: 1,
                    height: 1,
                    chars: Vec::new(),
                    annotations: Vec::new(),
                };
                let id = event.id().clone();
                cache.complete_load(id, 0, Document::new(vec![page; 2], Vec::new()).unwrap());
                work = worker_step(cache, event);
            }
        }
    }
}

#[test]
fn routing_depends_on_the_id_alone() {
    let id = "0b0e6f0e-8f4e-4c1f-9d53-0123456789ab".to_string();
    let again = id.clone();
    for workers in 1..9 {
        let index = route(&id, workers);
        assert!(index < workers);
        assert_eq!(index, route(&again, workers));
    }
}

#[test]
fn routing_is_the_checksum_modulo_the_pool() {
    // 'a' is 97 and 'b' is 98.
    assert_eq!(route(&"ab".to_string(), 4), 195 % 4);
    assert_eq!(route(&"ab".to_string(), 7), 195 % 7);
    assert_eq!(route(&String::new(), 3), 0);
    assert_eq!(route(&"a".to_string(), 1), 0);
    assert_eq!(route(&"\u{10FFFF}".to_string(), 1000), 0x10FFFF % 1000);
}

#[test]
fn settling_a_reply() {
    assert_eq!(settle_reply(Some(Ok(PdfInfo::new(3)))), Ok(PdfInfo::new(3)));
    assert_eq!(settle_reply::<PdfInfo>(Some(Err(PdfError::NotFound))), Err(PdfError::NotFound));
    assert_eq!(settle_reply::<PdfInfo>(None), Err(PdfError::DispatchFailure));
}

#[test]
fn outcome_of_open() {
    let id = "some-id".to_string();
    assert_eq!(open_outcome(id.clone(), Some(Ok(()))), Ok(id.clone()));
    assert_eq!(
        open_outcome(id.clone(), Some(Err(PdfError::InvalidArgument))),
        Err(PdfError::InvalidArgument)
    );
    assert_eq!(open_outcome(id, None), Err(PdfError::DispatchFailure));
}

#[test]
fn unsent_request_is_a_dispatch_failure() {
    let (_reply, answers) = flume::bounded::<Result<PdfInfo, PdfError>>(1);
    assert_eq!(await_reply(false, &answers), Err(PdfError::DispatchFailure));
}

#[test]
fn reply_that_never_comes_is_a_dispatch_failure() {
    let (reply, answers) = flume::bounded::<Result<PdfInfo, PdfError>>(1);
    drop(reply);
    assert_eq!(await_reply(true, &answers), Err(PdfError::DispatchFailure));
}

#[test]
fn reply_that_came_is_handed_out() {
    let (reply, answers) = flume::bounded::<Result<PdfInfo, PdfError>>(1);
    reply.send(Ok(PdfInfo::new(8))).unwrap();
    assert_eq!(await_reply(true, &answers), Ok(PdfInfo::new(8)));
}

#[test]
fn empty_pool_makes_no_manager() {
    assert!(DocumentManager::with_pool(Vec::new()).is_none());
}

#[test]
fn open_refuses_empty_or_unreachable_paths() {
    let (queue, requests) = flume::unbounded();
    let mut manager = DocumentManager::new(PdfWorker::new(queue));
    assert_eq!(manager.open(String::new(), true), Err(PdfError::InvalidArgument));
    assert_eq!(manager.open("a.pdf".to_string(), false), Err(PdfError::InvalidArgument));
    assert_eq!(open_pdf(&mut manager, String::new(), false), Err(PdfError::InvalidArgument));
    // Nothing was sent to the worker.
    assert!(requests.try_recv().is_err());
}

#[test]
fn requests_to_a_dead_worker_fail_to_dispatch() {
    let (queue, requests) = flume::unbounded();
    drop(requests);
    let mut manager = DocumentManager::new(PdfWorker::new(queue));
    assert_eq!(manager.worker_count(), 1);
    assert_eq!(manager.open("a.pdf".to_string(), true), Err(PdfError::DispatchFailure));
    assert_eq!(get_pdf_info(&manager, "x".to_string()), Err(PdfError::DispatchFailure));
    assert_eq!(close_pdf(&manager, "x".to_string()), Err(PdfError::DispatchFailure));
    assert_eq!(
        render_page(&manager, "x".to_string(), 0, 100).err(),
        Some(PdfError::DispatchFailure)
    );
}

fn info(
    manager: &DocumentManager,
    queues: &[flume::Receiver<PdfEvent>],
    caches: &mut [DocumentCache<u32>],
    id: &str,
) -> Result<PdfInfo, PdfError> {
    let (reply, answers) = flume::bounded(1);
    let sent = manager.submit(PdfEvent::Info { id: id.to_string(), reply }).is_ok();
    pump(queues, caches);
    await_reply(sent, &answers)
}

fn close(
    manager: &DocumentManager,
    queues: &[flume::Receiver<PdfEvent>],
    caches: &mut [DocumentCache<u32>],
    id: &str,
) -> Result<(), PdfError> {
    let (reply, answers) = flume::bounded(1);
    let sent = manager.submit(PdfEvent::Close { id: id.to_string(), reply }).is_ok();
    pump(queues, caches);
    await_reply(sent, &answers)
}

#[test]
fn open_info_close_through_a_pool() {
    let mut workers = Vec::new();
    let mut queues = Vec::new();
    let mut caches: Vec<DocumentCache<u32>> = Vec::new();
    for _ in 0..3 {
        let (queue, requests) = flume::unbounded();
        workers.push(PdfWorker::new(queue));
        queues.push(requests);
        caches.push(DocumentCache::new());
    }
    let manager = DocumentManager::with_pool(workers).unwrap();
    assert_eq!(manager.worker_count(), 3);
    let mut ids: Vec<String> = Vec::new();
    for n in 0..8 {
        let (id, answers) = manager.begin_open(format!("{}.pdf", n), true).unwrap();
        assert_document_id(&id);
        assert!(!ids.contains(&id));
        // The request waits in the queue of the worker that the id selects.
        let selected = route(&id, 3);
        for (index, requests) in queues.iter().enumerate() {
            assert_eq!(requests.len(), if index == selected { 1 } else { 0 });
        }
        pump(&queues, &mut caches);
        assert_eq!(open_outcome(id.clone(), answers.try_recv().ok()), Ok(id.clone()));
        // Only that worker knows the document.
        for (index, cache) in caches.iter().enumerate() {
            let known = !matches!(cache.load_decision(&id), LoadDecision::Missing);
            assert_eq!(known, index == selected);
        }
        ids.push(id);
    }
    for id in &ids {
        // Whichever worker the id selects, it is the one that has the path.
        assert_eq!(info(&manager, &queues, &mut caches, id), Ok(PdfInfo::with_page_size(2, 1, 1)));
        assert_eq!(info(&manager, &queues, &mut caches, id), Ok(PdfInfo::with_page_size(2, 1, 1)));
    }
    for id in &ids {
        assert_eq!(close(&manager, &queues, &mut caches, id), Ok(()));
        assert_eq!(close(&manager, &queues, &mut caches, id), Ok(()));
        assert_eq!(info(&manager, &queues, &mut caches, id), Err(PdfError::NotFound));
    }
    assert_eq!(info(&manager, &queues, &mut caches, "never-opened"), Err(PdfError::NotFound));
}

#[test]
fn two_opens_of_one_path_get_two_ids() {
    let (queue, _requests) = flume::unbounded();
    let manager = DocumentManager::new(PdfWorker::new(queue));
    let (first, _) = manager.begin_open("same.pdf".to_string(), true).unwrap();
    let (second, _) = manager.begin_open("same.pdf".to_string(), true).unwrap();
    assert_document_id(&first);
    assert_document_id(&second);
    assert_ne!(first, second);
}

#[test]
fn request_that_is_not_taken_comes_back() {
    let (queue, requests) = flume::unbounded();
    drop(requests);
    let manager = DocumentManager::new(PdfWorker::new(queue));
    let (reply, answers) = flume::bounded(1);
    let event = PdfEvent::Text { id: "doc-7".to_string(), page_index: 3, reply };
    match manager.submit(event) {
        Err(PdfEvent::Text { id, page_index, reply }) => {
            assert_eq!(id, "doc-7");
            assert_eq!(page_index, 3);
            // It is the request that was given: its reply channel is the one
            // that the caller still listens on.
            reply.send(Err(PdfError::DispatchFailure)).unwrap();
            assert_eq!(answers.try_recv().unwrap().err(), Some(PdfError::DispatchFailure));
        }
        _ => panic!("the request should come back"),
    }
}

fn one_worker() -> (DocumentManager, Vec<flume::Receiver<PdfEvent>>, Vec<DocumentCache<u32>>) {
    let (queue, requests) = flume::unbounded();
    (DocumentManager::new(PdfWorker::new(queue)), vec![requests], vec![DocumentCache::new()])
}

#[test]
fn each_submitting_half_sends_its_own_request() {
    let (manager, queues, _caches) = one_worker();
    let id = || "doc".to_string();
    let tile = pdf_reader::render::TileRect { x: 1, y: 2, width: 3, height: 4 };
    assert!(begin_render(&manager, id(), 1, 640).is_ok());
    assert!(matches!(
        queues[0].try_recv(),
        Ok(PdfEvent::Render { ref id, page_index: 1, target_width: 640, .. }) if id == "doc"
    ));
    assert!(begin_render_tile(&manager, id(), 1, 640, tile).is_ok());
    assert!(matches!(
        queues[0].try_recv(),
        Ok(PdfEvent::RenderTile { ref id, page_index: 1, target_width: 640, tile: t, .. })
            if id == "doc" && t == tile
    ));
    assert!(begin_info(&manager, id()).is_ok());
    assert!(matches!(queues[0].try_recv(), Ok(PdfEvent::Info { ref id, .. }) if id == "doc"));
    assert!(begin_bookmarks(&manager, id()).is_ok());
    assert!(matches!(queues[0].try_recv(), Ok(PdfEvent::Bookmarks { ref id, .. }) if id == "doc"));
    assert!(begin_text(&manager, id(), 4).is_ok());
    assert!(matches!(
        queues[0].try_recv(),
        Ok(PdfEvent::Text { ref id, page_index: 4, .. }) if id == "doc"
    ));
    assert!(begin_search(&manager, id(), "cat".to_string()).is_ok());
    assert!(matches!(
        queues[0].try_recv(),
        Ok(PdfEvent::Search { ref id, ref query, .. }) if id == "doc" && query == "cat"
    ));
    assert!(begin_preview(&manager, id(), None).is_ok());
    assert!(matches!(
        queues[0].try_recv(),
        Ok(PdfEvent::Preview { ref id, save_path: None, .. }) if id == "doc"
    ));
    assert!(begin_annotations(&manager, id()).is_ok());
    assert!(matches!(
        queues[0].try_recv(),
        Ok(PdfEvent::GetAnnotations { ref id, .. }) if id == "doc"
    ));
    assert!(begin_remove_annotation(&manager, id(), 2, "hl-2-0".to_string()).is_ok());
    assert!(matches!(
        queues[0].try_recv(),
        Ok(PdfEvent::RemoveAnnotation { ref id, page_index: 2, ref annotation_id, .. })
            if id == "doc" && annotation_id == "hl-2-0"
    ));
    assert!(begin_close(&manager, id()).is_ok());
    assert!(matches!(queues[0].try_recv(), Ok(PdfEvent::Close { ref id, .. }) if id == "doc"));
    assert!(queues[0].try_recv().is_err());
}

#[test]
fn begun_open_sends_an_open_request_with_the_path() {
    let (manager, queues, _caches) = one_worker();
    let (id, _answers) = manager.begin_open("some/file.pdf".to_string(), true).unwrap();
    match queues[0].try_recv() {
        Ok(PdfEvent::Open { id: sent, path, .. }) => {
            assert_eq!(sent, id);
            assert_eq!(path, "some/file.pdf");
        }
        _ => panic!("an open request should wait in the queue"),
    }
    assert!(queues[0].try_recv().is_err());
}

#[test]
fn both_halves_make_the_operation() {
    let (manager, queues, mut caches) = one_worker();
    let (id, answers) = manager.begin_open("a.pdf".to_string(), true).unwrap();
    pump(&queues, &mut caches);
    assert_eq!(open_outcome(id.clone(), answers.try_recv().ok()), Ok(id.clone()));

    let waiting = begin_info(&manager, id.clone()).unwrap();
    pump(&queues, &mut caches);
    assert_eq!(await_reply(true, &waiting), Ok(PdfInfo::with_page_size(2, 1, 1)));

    let waiting = begin_text(&manager, id.clone(), 5).unwrap();
    pump(&queues, &mut caches);
    assert_eq!(await_reply(true, &waiting).err(), Some(PdfError::InvalidArgument));

    let waiting = begin_search(&manager, id.clone(), "x".to_string()).unwrap();
    pump(&queues, &mut caches);
    assert!(await_reply(true, &waiting).unwrap().is_empty());

    let waiting = begin_bookmarks(&manager, id.clone()).unwrap();
    pump(&queues, &mut caches);
    assert!(await_reply(true, &waiting).unwrap().is_empty());

    let waiting = begin_annotations(&manager, id.clone()).unwrap();
    pump(&queues, &mut caches);
    assert!(await_reply(true, &waiting).unwrap().is_empty());

    let waiting = begin_close(&manager, id.clone()).unwrap();
    pump(&queues, &mut caches);
    assert_eq!(await_reply(true, &waiting), Ok(()));

    let waiting = begin_info(&manager, id).unwrap();
    pump(&queues, &mut caches);
    assert_eq!(await_reply(true, &waiting), Err(PdfError::NotFound));
}

#[test]
fn every_operation_on_a_dead_pool_fails_to_dispatch() {
    let (queue, requests) = flume::unbounded();
    drop(requests);
    let manager = DocumentManager::new(PdfWorker::new(queue));
    let id = || "doc".to_string();
    let tile = pdf_reader::render::TileRect { x: 0, y: 0, width: 1, height: 1 };
    assert_eq!(begin_info(&manager, id()).err(), Some(PdfError::DispatchFailure));
    assert_eq!(begin_close(&manager, id()).err(), Some(PdfError::DispatchFailure));
    assert_eq!(begin_render(&manager, id(), 0, 1).err(), Some(PdfError::DispatchFailure));
    assert_eq!(
        begin_add_annotation(&manager, id(), sample_annotation()).err(),
        Some(PdfError::DispatchFailure)
    );
    assert_eq!(render_tile(&manager, id(), 0, 1, tile).err(), Some(PdfError::DispatchFailure));
    assert_eq!(get_pdf_bookmarks(&manager, id()).err(), Some(PdfError::DispatchFailure));
    assert_eq!(get_page_text(&manager, id(), 0).err(), Some(PdfError::DispatchFailure));
    assert_eq!(search_pdf(&manager, id(), "x".to_string()).err(), Some(PdfError::DispatchFailure));
    assert_eq!(get_pdf_preview(&manager, id(), None).err(), Some(PdfError::DispatchFailure));
    assert_eq!(get_pdf_annotations(&manager, id()).err(), Some(PdfError::DispatchFailure));
    assert_eq!(
        add_pdf_annotation(&manager, id(), sample_annotation()),
        Err(PdfError::DispatchFailure)
    );
    assert_eq!(
        remove_pdf_annotation(&manager, id(), 0, "hl-0-0".to_string()),
        Err(PdfError::DispatchFailure)
    );
}

fn sample_annotation() -> Annotation {
    Annotation {
        id: "hl-0-0".to_string(),
        page_index: 0,
        subtype: AnnotationType::Highlight,
        rect: PdfRect { left: 0, top: 1, right: 1, bottom: 0 },
        geometry: AnnotationGeometry::Rect(PdfRect { left: 0, top: 1, right: 1, bottom: 0 }),
        appearance: AnnotationAppearance {
            color: "#FF0000".to_string(),
            opacity: 150,
            border_width: None,
        },
        metadata: AnnotationMetadata {
            author: None,
            contents: None,
            creation_date: None,
            modified_date: None,
        },
        flags: AnnotationFlags::default(),
    }
}
