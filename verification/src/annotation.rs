//! Markup annotations: the types a client sees and their extraction from
//! what the native engine reports.

use vstd::prelude::*;
use crate::cache::{CacheModel, DocumentCache};
use crate::document::{Document, DocumentId, NativeAnnotation, PageContent};
use crate::errors::PdfError;
use crate::geometry::{PdfRect, Point, Quad};
use crate::strings::{clone_optional_text, decimal, decimal_string, optional_text};

verus! {

/// PDF annotation subtypes.
#[derive(Debug, Clone, Copy, PartialEq, Eq, Structural)]
pub enum AnnotationType {
    Unknown,
    Text,
    Link,
    FreeText,
    Line,
    Square,
    Circle,
    Polygon,
    Polyline,
    Highlight,
    Underline,
    Squiggly,
    Strikeout,
    Stamp,
    Caret,
    Ink,
    Popup,
    FileAttachment,
    Sound,
    Movie,
    Widget,
    Screen,
    PrinterMark,
    TrapNet,
    Watermark,
    ThreeD,
    RichMedia,
    XfaWidget,
    Redacted,
}

/// The shape of an annotation, by subtype.
#[derive(Debug, Clone)]
pub enum AnnotationGeometry {
    /// Used by simple rectangle-based annotations (text, square, circle).
    Rect(PdfRect),
    /// Used by text markup annotations (highlight, underline and the like).
    QuadPoints(Vec<Quad>),
    /// Used by ink annotations (freehand drawing).
    InkPaths(Vec<Vec<Point>>),
    /// Used by line annotations.
    Line { start: Point, end: Point },
    /// Used by polygon and polyline annotations.
    Points(Vec<Point>),
}

/// Visual styling. `opacity` is an alpha value: 0 is transparent, 255 is
/// opaque. `border_width` is in fixed-point units.
#[derive(Debug, Clone)]
pub struct AnnotationAppearance {
    pub color: String,
    pub opacity: u8,
    pub border_width: Option<i32>,
}

/// Author, comment and timestamps.
#[derive(Debug, Clone)]
pub struct AnnotationMetadata {
    pub author: Option<String>,
    pub contents: Option<String>,
    pub creation_date: Option<String>,
    pub modified_date: Option<String>,
}

/// Behaviour flags.
#[derive(Debug, Clone, Copy, PartialEq, Eq, Structural)]
pub struct AnnotationFlags {
    pub hidden: bool,
    pub locked: bool,
    pub printable: bool,
    pub read_only: bool,
}

impl Default for AnnotationFlags {
    fn default() -> (flags: Self)
        ensures
            !flags.hidden,
            !flags.locked,
            !flags.printable,
            !flags.read_only,
    {
        AnnotationFlags { hidden: false, locked: false, printable: false, read_only: false }
    }
}

/// An annotation as a client sees it.
#[derive(Debug, Clone)]
pub struct Annotation {
    pub id: String,
    pub page_index: u16,
    /// PDF annotation subtype.
    pub subtype: AnnotationType,
    /// Bounding box in page space.
    pub rect: PdfRect,
    /// Actual geometry (depends on the subtype).
    pub geometry: AnnotationGeometry,
    /// Visual styling.
    pub appearance: AnnotationAppearance,
    /// Metadata and comments.
    pub metadata: AnnotationMetadata,
    /// Behaviour flags.
    pub flags: AnnotationFlags,
}

/// A geometry as a mathematical value.
pub enum GeometryModel {
    Rect(PdfRect),
    QuadPoints(Seq<Quad>),
    InkPaths(Seq<Seq<Point>>),
    Line { start: Point, end: Point },
    Points(Seq<Point>),
}

/// An annotation as a mathematical value.
pub struct AnnotationModel {
    pub id: Seq<char>,
    pub page_index: u16,
    pub subtype: AnnotationType,
    pub rect: PdfRect,
    pub geometry: GeometryModel,
    pub color: Seq<char>,
    pub opacity: u8,
    pub border_width: Option<i32>,
    pub author: Option<Seq<char>>,
    pub contents: Option<Seq<char>>,
    pub creation_date: Option<Seq<char>>,
    pub modified_date: Option<Seq<char>>,
    pub flags: AnnotationFlags,
}

impl View for AnnotationGeometry {
    type V = GeometryModel;

    open spec fn view(&self) -> GeometryModel {
        match *self {
            AnnotationGeometry::Rect(r) => GeometryModel::Rect(r),
            AnnotationGeometry::QuadPoints(q) => GeometryModel::QuadPoints(q@),
            AnnotationGeometry::InkPaths(paths) => GeometryModel::InkPaths(
                Seq::new(paths@.len(), |i: int| paths@[i]@),
            ),
            AnnotationGeometry::Line { start, end } => GeometryModel::Line { start, end },
            AnnotationGeometry::Points(points) => GeometryModel::Points(points@),
        }
    }
}

impl View for Annotation {
    type V = AnnotationModel;

    open spec fn view(&self) -> AnnotationModel {
        AnnotationModel {
            id: self.id@,
            page_index: self.page_index,
            subtype: self.subtype,
            rect: self.rect,
            geometry: self.geometry@,
            color: self.appearance.color@,
            opacity: self.appearance.opacity,
            border_width: self.appearance.border_width,
            author: optional_text(self.metadata.author),
            contents: optional_text(self.metadata.contents),
            creation_date: optional_text(self.metadata.creation_date),
            modified_date: optional_text(self.metadata.modified_date),
            flags: self.flags,
        }
    }
}

/// The annotations held by a vector.
pub open spec fn annotations_of(items: Seq<Annotation>) -> Seq<AnnotationModel> {
    Seq::new(items.len(), |i: int| items[i]@)
}

/// The alpha value given to every markup annotation.
pub const MARKUP_OPACITY: u8 = 150;

/// The colour given to every markup annotation. The engine is not asked
/// for the colour of a markup annotation.
pub open spec fn markup_color() -> Seq<char> {
    "#FF0000"@
}

/// Whether a subtype is one of the text-markup kinds.
pub open spec fn is_markup(kind: AnnotationType) -> bool {
    kind == AnnotationType::Highlight || kind == AnnotationType::Underline || kind
        == AnnotationType::Squiggly || kind == AnnotationType::Strikeout
}

/// The subtype under which an annotation is handed out: its own where it is
/// a text-markup kind, `Unknown` otherwise.
pub open spec fn markup_type(kind: AnnotationType) -> AnnotationType {
    if is_markup(kind) {
        kind
    } else {
        AnnotationType::Unknown
    }
}

/// The first part of an annotation's id.
pub open spec fn id_prefix(subtype: AnnotationType) -> Seq<char> {
    match subtype {
        AnnotationType::Highlight => "hl"@,
        AnnotationType::Underline => "ul"@,
        AnnotationType::Squiggly => "sq"@,
        AnnotationType::Strikeout => "so"@,
        _ => "ann"@,
    }
}

/// The id of the annotation with index `annot_index` on page `page_index`:
/// the prefix of its subtype and the two indices in decimal, joined by
/// hyphens.
pub open spec fn stable_id(subtype: AnnotationType, page_index: nat, annot_index: nat) -> Seq<
    char,
> {
    id_prefix(subtype) + seq!['-'] + decimal(page_index) + seq!['-'] + decimal(annot_index)
}

/// What a native annotation with a bounding box becomes.
pub open spec fn markup_model(a: NativeAnnotation, page_index: u16, annot_index: usize)
    -> AnnotationModel {
    AnnotationModel {
        id: stable_id(markup_type(a.kind), page_index as nat, annot_index as nat),
        page_index,
        subtype: markup_type(a.kind),
        rect: a.bounds->0,
        geometry: GeometryModel::QuadPoints(a.attachment_points@),
        color: markup_color(),
        opacity: MARKUP_OPACITY,
        border_width: None,
        author: optional_text(a.name),
        contents: optional_text(a.contents),
        creation_date: optional_text(a.creation_date),
        modified_date: optional_text(a.modification_date),
        flags: AnnotationFlags {
            hidden: a.hidden,
            locked: a.locked,
            printable: a.printed,
            read_only: a.read_only,
        },
    }
}

/// The list after one native annotation has been looked at, or `None`
/// where the engine gave no bounding box for it. An annotation without
/// attachment points adds nothing.
pub open spec fn with_markup(
    list: Seq<AnnotationModel>,
    a: NativeAnnotation,
    page_index: u16,
    annot_index: usize,
) -> Option<Seq<AnnotationModel>> {
    if a.bounds is None {
        None
    } else if a.attachment_points@.len() == 0 {
        Some(list)
    } else {
        Some(list.push(markup_model(a, page_index, annot_index)))
    }
}

/// The list after the annotations of one page: each text-markup annotation
/// is looked at in order, the others are passed over. `None` as soon as one
/// fails.
pub open spec fn with_page(
    list: Option<Seq<AnnotationModel>>,
    annots: Seq<NativeAnnotation>,
    page_index: u16,
) -> Option<Seq<AnnotationModel>>
    decreases annots.len(),
{
    if annots.len() == 0 {
        list
    } else {
        match with_page(list, annots.drop_last(), page_index) {
            None => None,
            Some(sofar) => if is_markup(annots.last().kind) {
                with_markup(sofar, annots.last(), page_index, (annots.len() - 1) as usize)
            } else {
                Some(sofar)
            },
        }
    }
}

/// The markup annotations of a document, page by page, or `None` where one
/// of them fails.
pub open spec fn document_annotations(pages: Seq<PageContent>) -> Option<Seq<AnnotationModel>>
    decreases pages.len(),
{
    if pages.len() == 0 {
        Some(Seq::empty())
    } else {
        with_page(
            document_annotations(pages.drop_last()),
            pages.last().annotations@,
            (pages.len() - 1) as u16,
        )
    }
}

/// The subtype under which a native annotation is handed out.
pub fn get_annotation_type(annotation: &NativeAnnotation) -> (subtype: AnnotationType)
    ensures
        subtype == markup_type(annotation.kind),
{
    match annotation.kind {
        AnnotationType::Highlight => AnnotationType::Highlight,
        AnnotationType::Underline => AnnotationType::Underline,
        AnnotationType::Squiggly => AnnotationType::Squiggly,
        AnnotationType::Strikeout => AnnotationType::Strikeout,
        _ => AnnotationType::Unknown,
    }
}

/// Whether a native annotation is of a text-markup kind.
pub fn is_markup_annotation(annotation: &NativeAnnotation) -> (markup: bool)
    ensures
        markup == is_markup(annotation.kind),
{
    match annotation.kind {
        AnnotationType::Highlight => true,
        AnnotationType::Underline => true,
        AnnotationType::Squiggly => true,
        AnnotationType::Strikeout => true,
        _ => false,
    }
}

/// The id of an annotation.
pub fn make_stable_id(subtype: AnnotationType, page_index: u16, annot_index: usize) -> (id:
    String)
    ensures
        id@ == stable_id(subtype, page_index as nat, annot_index as nat),
{
    let mut id = match subtype {
        AnnotationType::Highlight => "hl".to_owned(),
        AnnotationType::Underline => "ul".to_owned(),
        AnnotationType::Squiggly => "sq".to_owned(),
        AnnotationType::Strikeout => "so".to_owned(),
        _ => "ann".to_owned(),
    };
    id.push('-');
    let page = decimal_string(page_index as usize);
    id.append(page.as_str());
    id.push('-');
    let index = decimal_string(annot_index);
    id.append(index.as_str());
    id
}

/// Looks at one native annotation and, where it has a bounding box and
/// attachment points, appends what it becomes to `annotations`.
pub fn process_markup_annotation(
    annotations: &mut Vec<Annotation>,
    annotation: &NativeAnnotation,
    page_index: u16,
    annot_index: usize,
) -> (result: Result<(), PdfError>)
    ensures
        match with_markup(annotations_of(old(annotations)@), *annotation, page_index, annot_index) {
            Some(list) => result == Ok::<(), PdfError>(()) && annotations_of(final(annotations)@)
                == list,
            None => result == Err::<(), PdfError>(PdfError::LoadFailure) && final(annotations)@
                == old(annotations)@,
        },
{
    let annotation_type = get_annotation_type(annotation);
    let rect = match annotation.bounds {
        Some(r) => r,
        None => {
            return Err(PdfError::LoadFailure);
        },
    };
    let mut quads: Vec<Quad> = Vec::new();
    let mut i: usize = 0;
    while i < annotation.attachment_points.len()
        invariant
            i <= annotation.attachment_points@.len(),
            quads@ == annotation.attachment_points@.take(i as int),
        decreases annotation.attachment_points@.len() - i,
    {
        quads.push(annotation.attachment_points[i]);
        assert(quads@ =~= annotation.attachment_points@.take(i + 1));
        i += 1;
    }
    assert(annotation.attachment_points@.take(i as int) =~= annotation.attachment_points@);
    if quads.len() == 0 {
        assert(annotations_of(annotations@) =~= annotations_of(old(annotations)@));
        return Ok(());
    }
    let appearance = AnnotationAppearance {
        color: "#FF0000".to_owned(),
        opacity: MARKUP_OPACITY,
        border_width: None,
    };
    let metadata = AnnotationMetadata {
        author: clone_optional_text(&annotation.name),
        contents: clone_optional_text(&annotation.contents),
        creation_date: clone_optional_text(&annotation.creation_date),
        modified_date: clone_optional_text(&annotation.modification_date),
    };
    let flags = AnnotationFlags {
        hidden: annotation.hidden,
        locked: annotation.locked,
        printable: annotation.printed,
        read_only: annotation.read_only,
    };
    let id = make_stable_id(annotation_type, page_index, annot_index);
    let ghost before = annotations_of(annotations@);
    let made = Annotation {
        id,
        page_index,
        subtype: annotation_type,
        rect,
        geometry: AnnotationGeometry::QuadPoints(quads),
        appearance,
        metadata,
        flags,
    };
    assert(made@ == markup_model(*annotation, page_index, annot_index));
    annotations.push(made);
    assert(annotations_of(annotations@) =~= before.push(
        markup_model(*annotation, page_index, annot_index),
    ));
    Ok(())
}

/// The markup annotations of a document.
pub fn document_markup(document: &Document) -> (result: Result<Vec<Annotation>, PdfError>)
    ensures
        match document_annotations(document.spec_pages()) {
            Some(list) => result is Ok && annotations_of(result->Ok_0@) == list,
            None => result == Err::<Vec<Annotation>, PdfError>(PdfError::LoadFailure),
        },
{
    let pages = document.pages();
    let mut annotations: Vec<Annotation> = Vec::new();
    let mut p: usize = 0;
    proof {
        assert(pages@.take(0) =~= Seq::<PageContent>::empty());
        assert(annotations_of(annotations@) =~= Seq::<AnnotationModel>::empty());
    }
    while p < pages.len()
        invariant
            p <= pages@.len(),
            pages@.len() <= crate::document::MAX_PAGES,
            pages@ == document.spec_pages(),
            document_annotations(pages@.take(p as int)) == Some(annotations_of(annotations@)),
        decreases pages@.len() - p,
    {
        let page = &pages[p];
        let page_index = p as u16;
        let mut a: usize = 0;
        proof {
            assert(pages@.take(p + 1).drop_last() =~= pages@.take(p as int));
            assert(pages@.take(p + 1).last() == *page);
            assert(page.annotations@.take(0) =~= Seq::<NativeAnnotation>::empty());
        }
        while a < page.annotations.len()
            invariant
                a <= page.annotations@.len(),
                p < pages@.len(),
                pages@ == document.spec_pages(),
                *page == pages@[p as int],
                page_index == p,
                with_page(
                    document_annotations(pages@.take(p as int)),
                    page.annotations@.take(a as int),
                    page_index,
                ) == Some(annotations_of(annotations@)),
            decreases page.annotations@.len() - a,
        {
            let annotation = &page.annotations[a];
            proof {
                assert(page.annotations@.take(a + 1).drop_last() =~= page.annotations@.take(
                    a as int,
                ));
                assert(page.annotations@.take(a + 1).last() == *annotation);
            }
            if is_markup_annotation(annotation) {
                match process_markup_annotation(&mut annotations, annotation, page_index, a) {
                    Ok(()) => {},
                    Err(e) => {
                        proof {
                            assert(pages@.take(p + 1).drop_last() =~= pages@.take(p as int));
                            assert(pages@.take(p + 1).last() == *page);
                            lemma_page_failure_stays(
                                document_annotations(pages@.take(p as int)),
                                page.annotations@,
                                page_index,
                                a + 1,
                            );
                            lemma_document_failure_stays(pages@, p + 1);
                        }
                        return Err(e);
                    },
                }
            }
            a += 1;
        }
        proof {
            assert(page.annotations@.take(a as int) =~= page.annotations@);
        }
        p += 1;
    }
    proof {
        assert(pages@.take(p as int) =~= pages@);
    }
    Ok(annotations)
}

/// Once the walk over a page has failed, it has failed for every longer
/// part of the page.
proof fn lemma_page_failure_stays(
    list: Option<Seq<AnnotationModel>>,
    annots: Seq<NativeAnnotation>,
    page_index: u16,
    upto: int,
)
    requires
        0 <= upto <= annots.len(),
        with_page(list, annots.take(upto), page_index) is None,
    ensures
        with_page(list, annots, page_index) is None,
    decreases annots.len() - upto,
{
    if upto == annots.len() {
        assert(annots.take(upto) =~= annots);
    } else {
        assert(annots.take(upto + 1).drop_last() =~= annots.take(upto));
        lemma_page_failure_stays(list, annots, page_index, upto + 1);
    }
}

/// A page walked from a failure is a failure.
proof fn lemma_page_from_failure(annots: Seq<NativeAnnotation>, page_index: u16)
    ensures
        with_page(None, annots, page_index) is None,
    decreases annots.len(),
{
    if annots.len() > 0 {
        lemma_page_from_failure(annots.drop_last(), page_index);
    }
}

/// Once the walk over a document has failed, it has failed for every longer
/// part of the document.
proof fn lemma_document_failure_stays(pages: Seq<PageContent>, upto: int)
    requires
        0 <= upto <= pages.len(),
        document_annotations(pages.take(upto)) is None,
    ensures
        document_annotations(pages) is None,
    decreases pages.len() - upto,
{
    if upto == pages.len() {
        assert(pages.take(upto) =~= pages);
    } else {
        assert(pages.take(upto + 1).drop_last() =~= pages.take(upto));
        lemma_page_from_failure(pages.take(upto + 1).last().annotations@, upto as u16);
        lemma_document_failure_stays(pages, upto + 1);
    }
}

/// What `getAnnotations` answers: the markup annotations of the loaded
/// document, or a failure where the engine gave no bounding box for one.
pub open spec fn annotations_result<H>(cache: CacheModel<H>, id: Seq<char>) -> Result<
    Seq<AnnotationModel>,
    PdfError,
> {
    if !cache.is_open(id) {
        Err(PdfError::NotFound)
    } else {
        match document_annotations(cache.content[id].spec_pages()) {
            Some(list) => Ok(list),
            None => Err(PdfError::LoadFailure),
        }
    }
}

/// What adding or removing an annotation on a page answers. Neither
/// changes anything: both only check that the document is loaded and has
/// the page.
pub open spec fn mutation_result<H>(cache: CacheModel<H>, id: Seq<char>, page_index: u16)
    -> Result<(), PdfError> {
    if !cache.is_open(id) {
        Err(PdfError::NotFound)
    } else if page_index as int >= cache.content[id].spec_pages().len() {
        Err(PdfError::InvalidArgument)
    } else {
        Ok(())
    }
}

/// Whether `result` is what `getAnnotations` answers.
pub open spec fn annotations_answer<H>(
    result: Result<Vec<Annotation>, PdfError>,
    cache: CacheModel<H>,
    id: Seq<char>,
) -> bool {
    match annotations_result(cache, id) {
        Ok(list) => result is Ok && annotations_of(result->Ok_0@) == list,
        Err(e) => result is Err && result->Err_0 == e,
    }
}

/// The markup annotations of a loaded document.
pub fn get_annotations<H>(documents: &DocumentCache<H>, id: &DocumentId) -> (result: Result<
    Vec<Annotation>,
    PdfError,
>)
    requires
        documents.wf(),
    ensures
        annotations_answer(result, documents@, id@),
{
    match documents.document(id) {
        None => Err(PdfError::NotFound),
        Some(document) => document_markup(document),
    }
}

/// Whether the document is loaded and has the page.
fn check_page<H>(documents: &DocumentCache<H>, id: &DocumentId, page_index: u16) -> (result:
    Result<(), PdfError>)
    requires
        documents.wf(),
    ensures
        result == mutation_result(documents@, id@, page_index),
{
    match documents.document(id) {
        None => Err(PdfError::NotFound),
        Some(document) => {
            if page_index >= document.page_count() {
                Err(PdfError::InvalidArgument)
            } else {
                Ok(())
            }
        },
    }
}

/// Accepts an annotation for a page of a loaded document. The annotation
/// is checked and then dropped: nothing is written to the document.
pub fn add_annotation<H>(documents: &DocumentCache<H>, id: &DocumentId, annotation: Annotation)
    -> (result: Result<(), PdfError>)
    requires
        documents.wf(),
    ensures
        result == mutation_result(documents@, id@, annotation.page_index),
{
    check_page(documents, id, annotation.page_index)
}

/// Accepts the removal of an annotation from a page of a loaded document.
/// The request is checked and then dropped: nothing is written to the
/// document.
pub fn delete_annotation<H>(
    documents: &DocumentCache<H>,
    id: &DocumentId,
    page_index: u16,
    annot_id: String,
) -> (result: Result<(), PdfError>)
    requires
        documents.wf(),
    ensures
        result == mutation_result(documents@, id@, page_index),
{
    check_page(documents, id, page_index)
}

/// Whether annotation `a` comes from the text-markup annotation with index
/// `annot_index` among `annots`, on the page with index `page_index`: that
/// one has a bounding box and attachment points, and `a` is what it
/// becomes.
pub open spec fn made_from(
    a: AnnotationModel,
    annots: Seq<NativeAnnotation>,
    page_index: u16,
    annot_index: int,
) -> bool {
    &&& 0 <= annot_index < annots.len()
    &&& is_markup(annots[annot_index].kind)
    &&& annots[annot_index].bounds is Some
    &&& annots[annot_index].attachment_points@.len() > 0
    &&& a == markup_model(annots[annot_index], page_index, annot_index as usize)
}

/// Whether annotation `a` comes from one of `annots`, the annotations of
/// the page with index `page_index`.
pub open spec fn made_on_page(a: AnnotationModel, annots: Seq<NativeAnnotation>, page_index: u16)
    -> bool {
    exists|k: int| made_from(a, annots, page_index, k)
}

/// Walking a page keeps what the list held and adds only annotations that
/// come from that page.
proof fn lemma_page_adds_markup(
    list: Seq<AnnotationModel>,
    annots: Seq<NativeAnnotation>,
    page_index: u16,
)
    requires
        with_page(Some(list), annots, page_index) is Some,
    ensures
        list.len() <= with_page(Some(list), annots, page_index)->0.len(),
        forall|i: int|
            0 <= i < list.len() ==> with_page(Some(list), annots, page_index)->0[i] == list[i],
        forall|i: int|
            list.len() <= i < with_page(Some(list), annots, page_index)->0.len()
                ==> made_on_page(
                #[trigger] with_page(Some(list), annots, page_index)->0[i],
                annots,
                page_index,
            ),
    decreases annots.len(),
{
    if annots.len() > 0 {
        let shorter = annots.drop_last();
        let sofar = with_page(Some(list), shorter, page_index)->0;
        let result = with_page(Some(list), annots, page_index)->0;
        lemma_page_adds_markup(list, shorter, page_index);
        assert forall|i: int| list.len() <= i < result.len() implies made_on_page(
            #[trigger] result[i],
            annots,
            page_index,
        ) by {
            if i < sofar.len() {
                assert(result[i] == sofar[i]);
                assert(made_on_page(sofar[i], shorter, page_index));
                let k = choose|k: int| made_from(sofar[i], shorter, page_index, k);
                assert(shorter[k] == annots[k]);
                assert(made_from(result[i], annots, page_index, k));
            } else {
                assert(made_from(result[i], annots, page_index, annots.len() - 1));
            }
        }
    }
}

/// Every annotation that a document hands out comes from a text-markup
/// annotation of one of its pages: it has that page's index, one of the
/// four markup subtypes, the id made of its subtype, page and place on
/// the page, the bounding box and attachment points of its source, of
/// which there is at least one, and the fixed colour and opacity.
pub proof fn law_annotations_come_from_markup(pages: Seq<PageContent>)
    requires
        pages.len() <= crate::document::MAX_PAGES,
        document_annotations(pages) is Some,
    ensures
        forall|i: int|
            0 <= i < document_annotations(pages)->0.len() ==> {
                let a = #[trigger] document_annotations(pages)->0[i];
                &&& (a.page_index as int) < pages.len()
                &&& is_markup(a.subtype)
                &&& a.color == markup_color()
                &&& a.opacity == MARKUP_OPACITY
                &&& a.border_width is None
                &&& made_on_page(a, pages[a.page_index as int].annotations@, a.page_index)
            },
    decreases pages.len(),
{
    if pages.len() > 0 {
        let shorter = pages.drop_last();
        let last = (pages.len() - 1) as u16;
        lemma_page_from_failure(pages.last().annotations@, last);
        let sofar = document_annotations(shorter)->0;
        let result = document_annotations(pages)->0;
        law_annotations_come_from_markup(shorter);
        lemma_page_adds_markup(sofar, pages.last().annotations@, last);
        assert forall|i: int| 0 <= i < result.len() implies {
            let a = #[trigger] result[i];
            &&& (a.page_index as int) < pages.len()
            &&& is_markup(a.subtype)
            &&& a.color == markup_color()
            &&& a.opacity == MARKUP_OPACITY
            &&& a.border_width is None
            &&& made_on_page(a, pages[a.page_index as int].annotations@, a.page_index)
        } by {
            let a = result[i];
            if i < sofar.len() {
                assert(a == sofar[i]);
                assert(shorter[a.page_index as int] == pages[a.page_index as int]);
            } else {
                assert(made_on_page(a, pages.last().annotations@, last));
                let k = choose|k: int| made_from(a, pages.last().annotations@, last, k);
                assert(made_from(a, pages[last as int].annotations@, a.page_index, k));
            }
        }
    }
}

} // verus!
