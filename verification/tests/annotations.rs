use pdf_reader::annotation::{
    add_annotation, delete_annotation, document_markup, get_annotation_type, get_annotations,
    is_markup_annotation, make_stable_id, process_markup_annotation, Annotation,
    AnnotationAppearance, AnnotationFlags, AnnotationGeometry, AnnotationMetadata, AnnotationType,
    MARKUP_OPACITY,
};
use pdf_reader::cache::DocumentCache;
use pdf_reader::document::{Document, NativeAnnotation, PageContent};
use pdf_reader::errors::PdfError;
use pdf_reader::geometry::{PdfRect, Point, Quad};
use pdf_reader::strings::decimal_string;

fn quad(n: i32) -> Quad {
    Quad {
        p1: Point { x: n, y: n + 1 },
        p2: Point { x: n + 2, y: n + 3 },
        p3: Point { x: n + 4, y: n + 5 },
        p4: Point { x: n + 6, y: n + 7 },
    }
}

fn native(kind: AnnotationType, quads: Vec<Quad>) -> NativeAnnotation {
    NativeAnnotation {
        kind,
        bounds: Some(PdfRect { left: 10, top: 40, right: 30, bottom: 20 }),
        attachment_points: quads,
        name: Some("ann".to_string()),
        contents: None,
        creation_date: Some("D:2024".to_string()),
        modification_date: None,
        hidden: false,
        locked: true,
        printed: true,
        read_only: false,
    }
}

fn page(annotations: Vec<NativeAnnotation>) -> PageContent {
    PageContent { width: 600_000, height: 800_000, chars: Vec::new(), annotations }
}

#[test]
fn highlight_becomes_an_annotation() {
    let mut out = Vec::new();
    let source = native(AnnotationType::Highlight, vec![quad(1), quad(100)]);
    assert_eq!(process_markup_annotation(&mut out, &source, 3, 12), Ok(()));
    assert_eq!(out.len(), 1);
    let made = &out[0];
    assert_eq!(made.id, "hl-3-12");
    assert_eq!(made.page_index, 3);
    assert_eq!(made.subtype, AnnotationType::Highlight);
    assert_eq!(made.rect, PdfRect { left: 10, top: 40, right: 30, bottom: 20 });
    match &made.geometry {
        AnnotationGeometry::QuadPoints(quads) => assert_eq!(quads, &vec![quad(1), quad(100)]),
        other => panic!("unexpected geometry {:?}", other),
    }
    assert_eq!(made.appearance.color, "#FF0000");
    assert_eq!(made.appearance.opacity, 150);
    assert_eq!(MARKUP_OPACITY, 150);
    assert_eq!(made.appearance.border_width, None);
    assert_eq!(made.metadata.author, Some("ann".to_string()));
    assert_eq!(made.metadata.contents, None);
    assert_eq!(made.metadata.creation_date, Some("D:2024".to_string()));
    assert_eq!(made.metadata.modified_date, None);
    assert_eq!(
        made.flags,
        AnnotationFlags { hidden: false, locked: true, printable: true, read_only: false }
    );
}

#[test]
fn annotation_without_attachment_points_is_skipped() {
    let mut out = Vec::new();
    let source = native(AnnotationType::Underline, Vec::new());
    assert_eq!(process_markup_annotation(&mut out, &source, 0, 0), Ok(()));
    assert!(out.is_empty());
}

#[test]
fn annotation_without_bounds_fails() {
    let mut out = Vec::new();
    let mut source = native(AnnotationType::Underline, vec![quad(1)]);
    source.bounds = None;
    assert_eq!(
        process_markup_annotation(&mut out, &source, 0, 0),
        Err(PdfError::LoadFailure)
    );
    assert!(out.is_empty());
    // The bounds are asked for before the attachment points are looked at.
    source.attachment_points.clear();
    assert_eq!(
        process_markup_annotation(&mut out, &source, 0, 0),
        Err(PdfError::LoadFailure)
    );
}

#[test]
fn stable_ids_by_subtype() {
    assert_eq!(make_stable_id(AnnotationType::Highlight, 0, 0), "hl-0-0");
    assert_eq!(make_stable_id(AnnotationType::Underline, 1, 2), "ul-1-2");
    assert_eq!(make_stable_id(AnnotationType::Squiggly, 10, 305), "sq-10-305");
    assert_eq!(make_stable_id(AnnotationType::Strikeout, 65535, 9), "so-65535-9");
    assert_eq!(make_stable_id(AnnotationType::Unknown, 7, 70), "ann-7-70");
    assert_eq!(make_stable_id(AnnotationType::Ink, 7, 70), "ann-7-70");
}

#[test]
fn decimal_matches_standard_formatting() {
    for n in [0usize, 1, 9, 10, 11, 99, 100, 101, 12345, 65535, 1_000_000, usize::MAX] {
        assert_eq!(decimal_string(n), format!("{}", n));
    }
}

#[test]
fn subtype_mapping() {
    for kind in [
        AnnotationType::Highlight,
        AnnotationType::Underline,
        AnnotationType::Squiggly,
        AnnotationType::Strikeout,
    ] {
        let source = native(kind, vec![quad(0)]);
        assert_eq!(get_annotation_type(&source), kind);
        assert!(is_markup_annotation(&source));
    }
    for kind in [
        AnnotationType::Unknown,
        AnnotationType::Text,
        AnnotationType::Link,
        AnnotationType::Ink,
        AnnotationType::Redacted,
    ] {
        let source = native(kind, vec![quad(0)]);
        assert_eq!(get_annotation_type(&source), AnnotationType::Unknown);
        assert!(!is_markup_annotation(&source));
    }
}

#[test]
fn document_markup_walks_pages_in_order() {
    let document = Document::new(
        vec![
            page(vec![
                native(AnnotationType::Link, vec![quad(0)]),
                native(AnnotationType::Highlight, vec![quad(1)]),
                native(AnnotationType::Squiggly, Vec::new()),
            ]),
            page(Vec::new()),
            page(vec![
                native(AnnotationType::Strikeout, vec![quad(2)]),
                native(AnnotationType::Underline, vec![quad(3)]),
            ]),
        ],
        Vec::new(),
    )
    .unwrap();
    let found = document_markup(&document).unwrap();
    let ids: Vec<&str> = found.iter().map(|a| a.id.as_str()).collect();
    assert_eq!(ids, vec!["hl-0-1", "so-2-0", "ul-2-1"]);
    let pages: Vec<u16> = found.iter().map(|a| a.page_index).collect();
    assert_eq!(pages, vec![0, 2, 2]);
}

#[test]
fn markup_without_bounds_fails_the_document() {
    let mut broken = native(AnnotationType::Highlight, vec![quad(1)]);
    broken.bounds = None;
    let document = Document::new(
        vec![page(vec![native(AnnotationType::Underline, vec![quad(0)]), broken])],
        Vec::new(),
    )
    .unwrap();
    assert_eq!(document_markup(&document).err(), Some(PdfError::LoadFailure));
}

#[test]
fn other_kinds_without_bounds_do_not_matter() {
    let mut link = native(AnnotationType::Link, vec![quad(1)]);
    link.bounds = None;
    let document = Document::new(vec![page(vec![link])], Vec::new()).unwrap();
    assert!(document_markup(&document).unwrap().is_empty());
}

fn sample_annotation(page_index: u16) -> Annotation {
    Annotation {
        id: "hl-0-0".to_string(),
        page_index,
        subtype: AnnotationType::Highlight,
        rect: PdfRect { left: 0, top: 1, right: 1, bottom: 0 },
        geometry: AnnotationGeometry::QuadPoints(vec![quad(0)]),
        appearance: AnnotationAppearance {
            color: "#FF0000".to_string(),
            opacity: 150,
            border_width: None,
        },
        metadata: AnnotationMetadata {
            author: None,
            contents: None,
            creation_date: None,
            modified_date: None,
        },
        flags: AnnotationFlags::default(),
    }
}

#[test]
fn annotation_requests_through_the_cache() {
    let mut cache: DocumentCache<u32> = DocumentCache::new();
    let id = "doc".to_string();
    assert_eq!(get_annotations(&cache, &id).err(), Some(PdfError::NotFound));
    assert_eq!(add_annotation(&cache, &id, sample_annotation(0)), Err(PdfError::NotFound));
    assert_eq!(
        delete_annotation(&cache, &id, 0, "hl-0-0".to_string()),
        Err(PdfError::NotFound)
    );
    let document = Document::new(
        vec![page(vec![native(AnnotationType::Highlight, vec![quad(1)])])],
        Vec::new(),
    )
    .unwrap();
    cache.complete_load(id.clone(), 1, document);
    let found = get_annotations(&cache, &id).unwrap();
    assert_eq!(found.len(), 1);
    assert_eq!(found[0].id, "hl-0-0");
    assert_eq!(add_annotation(&cache, &id, sample_annotation(0)), Ok(()));
    assert_eq!(add_annotation(&cache, &id, sample_annotation(1)), Err(PdfError::InvalidArgument));
    assert_eq!(delete_annotation(&cache, &id, 0, "hl-0-0".to_string()), Ok(()));
    assert_eq!(
        delete_annotation(&cache, &id, 1, "hl-0-0".to_string()),
        Err(PdfError::InvalidArgument)
    );
    // Nothing was written: the document still has its one annotation.
    assert_eq!(get_annotations(&cache, &id).unwrap().len(), 1);
}

#[test]
fn default_flags_are_all_clear() {
    assert_eq!(
        AnnotationFlags::default(),
        AnnotationFlags { hidden: false, locked: false, printable: false, read_only: false }
    );
}
