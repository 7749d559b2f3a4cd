use pdf_reader::cache::{DocumentCache, LoadDecision};
use pdf_reader::document::{
    copy_outline, Bookmark, Document, PageChar, PageContent, PdfInfo, MAX_PAGES,
};
use pdf_reader::errors::PdfError;
use pdf_reader::geometry::PdfRect;
use pdf_reader::metadata::{get_bookmarks, get_info};
use pdf_reader::render::{close, open};
use pdf_reader::text::search::search_document;
use pdf_reader::text::selection::get_text_by_page;

fn blank_page() -> PageContent {
    PageContent { width: 612_000, height: 792_000, chars: Vec::new(), annotations: Vec::new() }
}

fn text_page(text: &str) -> PageContent {
    let mut page = blank_page();
    for (i, c) in text.chars().enumerate() {
        let left = 5_000 * i as i32;
        page.chars.push(PageChar {
            unicode: Some(c),
            bounds: Some(PdfRect { left, top: 100_000, right: left + 5_000, bottom: 90_000 }),
        });
    }
    page
}

fn document(pages: usize) -> Document {
    Document::new((0..pages).map(|_| blank_page()).collect(), Vec::new()).unwrap()
}

fn decision_text(decision: LoadDecision) -> String {
    match decision {
        LoadDecision::Ready => "ready".to_string(),
        LoadDecision::Load(path) => format!("load {}", path),
        LoadDecision::Missing => "missing".to_string(),
    }
}

#[test]
fn open_then_load_then_info() {
    let mut cache: DocumentCache<u32> = DocumentCache::new();
    let id = "doc-1".to_string();
    assert_eq!(decision_text(cache.load_decision(&id)), "missing");
    assert_eq!(open(id.clone(), "/tmp/a.pdf".to_string(), &mut cache), Ok(()));
    // Opening does not load.
    assert!(!cache.is_open(&id));
    assert_eq!(get_info(&cache, &id), Err(PdfError::NotFound));
    assert_eq!(decision_text(cache.load_decision(&id)), "load /tmp/a.pdf");
    cache.complete_load(id.clone(), 42, document(3));
    assert!(cache.is_open(&id));
    assert_eq!(decision_text(cache.load_decision(&id)), "ready");
    assert_eq!(get_info(&cache, &id), Ok(PdfInfo::with_page_size(3, 612_000, 792_000)));
    assert_eq!(cache.handle(&id), Some(&42));
    assert_eq!(cache.document(&id).unwrap().page_count(), 3);
}

#[test]
fn info_of_a_document_without_pages() {
    let mut cache: DocumentCache<u32> = DocumentCache::new();
    let id = "empty".to_string();
    cache.complete_load(id.clone(), 1, Document::empty());
    assert_eq!(get_info(&cache, &id), Ok(PdfInfo::new(0)));
    assert_eq!(PdfInfo::new(0), PdfInfo { page_count: 0, page_width: 0, page_height: 0 });
}

#[test]
fn open_refuses_an_empty_path() {
    let mut cache: DocumentCache<u32> = DocumentCache::new();
    let id = "doc".to_string();
    assert_eq!(open(id.clone(), String::new(), &mut cache), Err(PdfError::InvalidArgument));
    assert_eq!(decision_text(cache.load_decision(&id)), "missing");
}

#[test]
fn opening_again_replaces_the_path() {
    let mut cache: DocumentCache<u32> = DocumentCache::new();
    let id = "doc".to_string();
    open(id.clone(), "first.pdf".to_string(), &mut cache).unwrap();
    open("other".to_string(), "other.pdf".to_string(), &mut cache).unwrap();
    open(id.clone(), "second.pdf".to_string(), &mut cache).unwrap();
    assert_eq!(decision_text(cache.load_decision(&id)), "load second.pdf");
    assert_eq!(decision_text(cache.load_decision(&"other".to_string())), "load other.pdf");
}

#[test]
fn close_then_everything_is_not_found() {
    let mut cache: DocumentCache<u32> = DocumentCache::new();
    let id = "doc".to_string();
    open(id.clone(), "a.pdf".to_string(), &mut cache).unwrap();
    cache.complete_load(id.clone(), 7, Document::new(vec![text_page("cat")], Vec::new()).unwrap());
    assert!(get_text_by_page(&cache, &id, 0).is_ok());
    assert_eq!(close(&mut cache, &id), Ok(()));
    assert!(!cache.is_open(&id));
    assert_eq!(decision_text(cache.load_decision(&id)), "missing");
    assert_eq!(get_info(&cache, &id), Err(PdfError::NotFound));
    assert_eq!(get_text_by_page(&cache, &id, 0).err(), Some(PdfError::NotFound));
    assert_eq!(search_document(&cache, &id, "cat").err(), Some(PdfError::NotFound));
    assert_eq!(get_bookmarks(&cache, &id).err(), Some(PdfError::NotFound));
    assert_eq!(cache.handle(&id), None);
    assert!(cache.document(&id).is_none());
}

#[test]
fn close_twice_is_not_an_error() {
    let mut cache: DocumentCache<u32> = DocumentCache::new();
    let id = "doc".to_string();
    cache.complete_load(id.clone(), 7, document(1));
    assert_eq!(close(&mut cache, &id), Ok(()));
    assert_eq!(close(&mut cache, &id), Ok(()));
    assert_eq!(close(&mut cache, &"never-opened".to_string()), Ok(()));
}

#[test]
fn close_forgets_a_pending_path() {
    let mut cache: DocumentCache<u32> = DocumentCache::new();
    let id = "doc".to_string();
    open(id.clone(), "a.pdf".to_string(), &mut cache).unwrap();
    close(&mut cache, &id).unwrap();
    assert_eq!(decision_text(cache.load_decision(&id)), "missing");
}

#[test]
fn evict_hands_back_the_handle() {
    let mut cache: DocumentCache<String> = DocumentCache::new();
    let id = "doc".to_string();
    cache.complete_load(id.clone(), "native".to_string(), document(1));
    cache.complete_load("other".to_string(), "second".to_string(), document(2));
    assert_eq!(cache.evict(&id), Some("native".to_string()));
    assert_eq!(cache.evict(&id), None);
    assert_eq!(cache.handle(&"other".to_string()), Some(&"second".to_string()));
    assert_eq!(
        get_info(&cache, &"other".to_string()),
        Ok(PdfInfo::with_page_size(2, 612_000, 792_000))
    );
}

#[test]
fn loading_again_replaces_the_document() {
    let mut cache: DocumentCache<u32> = DocumentCache::new();
    let id = "doc".to_string();
    cache.complete_load(id.clone(), 1, document(1));
    cache.complete_load(id.clone(), 2, document(5));
    assert_eq!(cache.handle(&id), Some(&2));
    assert_eq!(get_info(&cache, &id), Ok(PdfInfo::with_page_size(5, 612_000, 792_000)));
    assert_eq!(cache.evict(&id), Some(2));
    assert!(!cache.is_open(&id));
}

#[test]
fn documents_do_not_disturb_each_other() {
    let mut cache: DocumentCache<u32> = DocumentCache::new();
    for n in 0..5u32 {
        cache.complete_load(format!("doc-{}", n), n, document(n as usize + 1));
    }
    close(&mut cache, &"doc-2".to_string()).unwrap();
    for n in 0..5u32 {
        let id = format!("doc-{}", n);
        if n == 2 {
            assert_eq!(get_info(&cache, &id), Err(PdfError::NotFound));
        } else {
            assert_eq!(
                get_info(&cache, &id),
                Ok(PdfInfo::with_page_size(n as u16 + 1, 612_000, 792_000))
            );
            assert_eq!(cache.handle(&id), Some(&n));
        }
    }
}

#[test]
fn text_of_a_page_past_the_end_is_refused() {
    let mut cache: DocumentCache<u32> = DocumentCache::new();
    let id = "doc".to_string();
    cache.complete_load(
        id.clone(),
        1,
        Document::new(vec![text_page("Hi"), text_page("yo")], Vec::new()).unwrap(),
    );
    let text = get_text_by_page(&cache, &id, 1).unwrap();
    assert_eq!(text.items.len(), 1);
    assert_eq!(text.items[0].text, "yo");
    assert_eq!(text.width, 612_000);
    assert_eq!(text.height, 792_000);
    assert_eq!(get_text_by_page(&cache, &id, 2).err(), Some(PdfError::InvalidArgument));
    assert_eq!(get_text_by_page(&cache, &id, u16::MAX).err(), Some(PdfError::InvalidArgument));
    assert_eq!(
        get_text_by_page(&cache, &"other".to_string(), 0).err(),
        Some(PdfError::NotFound)
    );
}

#[test]
fn search_through_the_cache() {
    let mut cache: DocumentCache<u32> = DocumentCache::new();
    let id = "doc".to_string();
    cache.complete_load(
        id.clone(),
        1,
        Document::new(vec![text_page("the cat sat")], Vec::new()).unwrap(),
    );
    let hits = search_document(&cache, &id, "at").unwrap();
    let spans: Vec<(usize, usize)> = hits.iter().map(|h| (h.start, h.end)).collect();
    assert_eq!(spans, vec![(5, 7), (9, 11)]);
    assert!(search_document(&cache, &id, "").unwrap().is_empty());
}

#[test]
fn document_keeps_its_bound_on_pages() {
    assert!(Document::new(vec![blank_page(); MAX_PAGES], Vec::new()).is_some());
    assert!(Document::new(vec![blank_page(); MAX_PAGES + 1], Vec::new()).is_none());
    let full = Document::new(vec![blank_page(); MAX_PAGES], Vec::new()).unwrap();
    assert_eq!(full.page_count(), 65535);
    assert!(full.page(65534).is_some());
    assert!(full.page(65535).is_none());
    assert_eq!(full.pages().len(), MAX_PAGES);
}

fn outline() -> Vec<Bookmark> {
    vec![
        Bookmark {
            title: "One".to_string(),
            page_index: Some(0),
            children: vec![
                Bookmark { title: "One.a".to_string(), page_index: Some(1), children: Vec::new() },
                Bookmark {
                    title: "One.b".to_string(),
                    page_index: None,
                    children: vec![Bookmark {
                        title: "deep".to_string(),
                        page_index: Some(2),
                        children: Vec::new(),
                    }],
                },
            ],
        },
        Bookmark { title: "Two".to_string(), page_index: Some(3), children: Vec::new() },
    ]
}

fn flatten(entries: &[Bookmark], depth: usize, out: &mut Vec<(usize, String, Option<u16>)>) {
    for entry in entries {
        out.push((depth, entry.title.clone(), entry.page_index));
        flatten(&entry.children, depth + 1, out);
    }
}

#[test]
fn bookmarks_are_copied_whole() {
    let mut expected = Vec::new();
    flatten(&outline(), 0, &mut expected);
    let mut copied = Vec::new();
    flatten(&copy_outline(&outline()), 0, &mut copied);
    assert_eq!(copied, expected);
    assert_eq!(expected.len(), 5);

    let mut cache: DocumentCache<u32> = DocumentCache::new();
    let id = "doc".to_string();
    cache.complete_load(id.clone(), 1, Document::new(vec![blank_page()], outline()).unwrap());
    let mut answered = Vec::new();
    flatten(&get_bookmarks(&cache, &id).unwrap(), 0, &mut answered);
    assert_eq!(answered, expected);
    assert_eq!(cache.document(&id).unwrap().bookmarks().len(), 2);
}
