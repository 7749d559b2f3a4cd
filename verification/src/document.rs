//! Document identities and the plain-data picture of a loaded document.
//!
//! A worker reads a document through the native engine once, when it loads
//! it, and keeps what it read as a [`Document`]: page sizes, the characters
//! of each page with their bounds, and the raw annotations. Text layout,
//! search and annotation access are computed from that picture alone.

use vstd::prelude::*;
use crate::annotation::AnnotationType;
use crate::geometry::{PdfRect, Quad};

verus! {

/// Unique identifier for an opened PDF document.
pub type DocumentId = String;

/// The largest number of pages a document can hold: page indices are `u16`.
pub const MAX_PAGES: usize = 65535;

/// What a client learns about an open document: the number of its pages
/// and the size of its first page, in fixed-point units. A document
/// without pages has size zero.
#[derive(Debug, Clone, Copy, PartialEq, Eq, Structural)]
pub struct PdfInfo {
    pub page_count: u16,
    pub page_width: i32,
    pub page_height: i32,
}

impl PdfInfo {
    /// The summary of a document of `page_count` pages whose page size is
    /// not known.
    pub fn new(page_count: u16) -> (info: Self)
        ensures
            info == (PdfInfo { page_count, page_width: 0, page_height: 0 }),
    {
        Self { page_count, page_width: 0, page_height: 0 }
    }

    /// The summary of a document of `page_count` pages of the given size.
    pub fn with_page_size(page_count: u16, page_width: i32, page_height: i32) -> (info: Self)
        ensures
            info == (PdfInfo { page_count, page_width, page_height }),
    {
        Self { page_count, page_width, page_height }
    }
}

/// One character of a page as the native engine reports it.
///
/// `unicode` is `None` where the engine cannot resolve a Unicode scalar and
/// `bounds` is `None` where it cannot compute the character's box.
#[derive(Debug, Clone, Copy, PartialEq, Eq, Structural)]
pub struct PageChar {
    pub unicode: Option<char>,
    pub bounds: Option<PdfRect>,
}

impl PageChar {
    /// The character's box, or the zero-sized box where it has none.
    pub open spec fn spec_rect(self) -> PdfRect {
        match self.bounds {
            Some(r) => r,
            None => PdfRect::spec_zero(),
        }
    }

    pub fn rect(&self) -> (r: PdfRect)
        ensures
            r == self.spec_rect(),
    {
        match self.bounds {
            Some(r) => r,
            None => PdfRect::zero(),
        }
    }
}

/// One annotation of a page as the native engine reports it.
///
/// `bounds` is `None` where the engine fails to give the bounding box.
#[derive(Debug, Clone)]
pub struct NativeAnnotation {
    pub kind: AnnotationType,
    pub bounds: Option<PdfRect>,
    pub attachment_points: Vec<Quad>,
    pub name: Option<String>,
    pub contents: Option<String>,
    pub creation_date: Option<String>,
    pub modification_date: Option<String>,
    pub hidden: bool,
    pub locked: bool,
    pub printed: bool,
    pub read_only: bool,
}

/// One entry of a document's outline.
#[derive(Debug)]
pub struct Bookmark {
    pub title: String,
    pub page_index: Option<u16>,
    pub children: Vec<Bookmark>,
}

/// What was read of one page.
#[derive(Debug, Clone)]
pub struct PageContent {
    pub width: i32,
    pub height: i32,
    pub chars: Vec<PageChar>,
    pub annotations: Vec<NativeAnnotation>,
}

/// What was read of a loaded document. It never holds more than
/// [`MAX_PAGES`] pages, so every page has a `u16` index.
#[derive(Debug)]
pub struct Document {
    pages: Vec<PageContent>,
    bookmarks: Vec<Bookmark>,
}

impl Document {
    #[verifier::type_invariant]
    spec fn bounded(&self) -> bool {
        self.pages@.len() <= MAX_PAGES
    }

    /// The pages of the document, in order.
    pub closed spec fn spec_pages(&self) -> Seq<PageContent> {
        self.pages@
    }

    /// The outline of the document.
    pub closed spec fn spec_bookmarks(&self) -> Seq<Bookmark> {
        self.bookmarks@
    }

    /// Whether the document respects its bound on the number of pages.
    /// Every document that the constructor hands out does.
    pub open spec fn wf(&self) -> bool {
        self.spec_pages().len() <= MAX_PAGES
    }

    /// A document of the given pages and outline, or `None` where there
    /// are more pages than a `u16` can index.
    pub fn new(pages: Vec<PageContent>, bookmarks: Vec<Bookmark>) -> (doc: Option<Document>)
        ensures
            doc is Some <==> pages@.len() <= MAX_PAGES,
            doc is Some ==> doc->0.spec_pages() == pages@ && doc->0.spec_bookmarks()
                == bookmarks@ && doc->0.wf(),
    {
        if pages.len() <= MAX_PAGES {
            Some(Document { pages, bookmarks })
        } else {
            None
        }
    }

    /// A document without pages.
    pub fn empty() -> (doc: Document)
        ensures
            doc.spec_pages() == Seq::<PageContent>::empty(),
            doc.spec_bookmarks() == Seq::<Bookmark>::empty(),
            doc.wf(),
    {
        Document { pages: Vec::new(), bookmarks: Vec::new() }
    }

    pub fn page_count(&self) -> (n: u16)
        ensures
            n as int == self.spec_pages().len(),
            self.wf(),
    {
        proof {
            use_type_invariant(self);
        }
        self.pages.len() as u16
    }

    pub fn pages(&self) -> (pages: &Vec<PageContent>)
        ensures
            pages@ == self.spec_pages(),
            self.wf(),
    {
        proof {
            use_type_invariant(self);
        }
        &self.pages
    }

    /// The page with the given index, or `None` past the last page.
    pub fn page(&self, page_index: u16) -> (page: Option<&PageContent>)
        ensures
            page is Some <==> (page_index as int) < self.spec_pages().len(),
            page is Some ==> *page->0 == self.spec_pages()[page_index as int],
    {
        if (page_index as usize) < self.pages.len() {
            Some(&self.pages[page_index as usize])
        } else {
            None
        }
    }

    /// The summary of the document.
    pub open spec fn spec_info(&self) -> PdfInfo {
        let pages = self.spec_pages();
        if pages.len() == 0 {
            PdfInfo { page_count: 0, page_width: 0, page_height: 0 }
        } else {
            PdfInfo {
                page_count: pages.len() as u16,
                page_width: pages[0].width,
                page_height: pages[0].height,
            }
        }
    }

    /// The summary of the document.
    pub fn info(&self) -> (info: PdfInfo)
        ensures
            info == self.spec_info(),
            info.page_count as int == self.spec_pages().len(),
    {
        proof {
            use_type_invariant(self);
        }
        if self.pages.len() == 0 {
            PdfInfo::new(0)
        } else {
            PdfInfo::with_page_size(
                self.pages.len() as u16,
                self.pages[0].width,
                self.pages[0].height,
            )
        }
    }

    pub fn bookmarks(&self) -> (bookmarks: &Vec<Bookmark>)
        ensures
            bookmarks@ == self.spec_bookmarks(),
    {
        &self.bookmarks
    }
}

/// An outline entry as a mathematical value.
pub struct BookmarkModel {
    pub title: Seq<char>,
    pub page_index: Option<u16>,
    pub children: Seq<BookmarkModel>,
}

/// The value of an outline entry.
pub open spec fn bookmark_model(b: Bookmark) -> BookmarkModel
    decreases b,
{
    BookmarkModel {
        title: b.title@,
        page_index: b.page_index,
        children: Seq::new(
            b.children@.len(),
            |i: int|
                if 0 <= i < b.children@.len() {
                    bookmark_model(b.children@[i])
                } else {
                    arbitrary()
                },
        ),
    }
}

/// The values of a list of outline entries.
pub open spec fn outline_model(entries: Seq<Bookmark>) -> Seq<BookmarkModel> {
    Seq::new(entries.len(), |i: int| bookmark_model(entries[i]))
}

/// A copy of a list of outline entries, children included.
pub fn copy_outline(entries: &Vec<Bookmark>) -> (copy: Vec<Bookmark>)
    ensures
        copy@.len() == entries@.len(),
        outline_model(copy@) == outline_model(entries@),
    decreases entries,
{
    let mut copy: Vec<Bookmark> = Vec::new();
    let mut i: usize = 0;
    while i < entries.len()
        invariant
            i <= entries@.len(),
            copy@.len() == i,
            forall|k: int| 0 <= k < i ==> bookmark_model(#[trigger] copy@[k]) == bookmark_model(
                entries@[k],
            ),
        decreases entries@.len() - i,
    {
        let entry = &entries[i];
        let children = copy_outline(&entry.children);
        let made = Bookmark {
            title: entry.title.clone(),
            page_index: entry.page_index,
            children,
        };
        proof {
            let ours = bookmark_model(made).children;
            let theirs = bookmark_model(*entry).children;
            assert(ours.len() == theirs.len());
            assert forall|k: int| 0 <= k < ours.len() implies ours[k] == theirs[k] by {
                assert(ours[k] == outline_model(made.children@)[k]);
                assert(theirs[k] == outline_model(entry.children@)[k]);
            }
            assert(ours =~= theirs);
        }
        copy.push(made);
        i += 1;
    }
    assert(outline_model(copy@) =~= outline_model(entries@));
    copy
}

} // verus!
