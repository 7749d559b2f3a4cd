//! Reconstruction of word and line fragments from character geometry.
//!
//! The characters of a page are walked in document order. A character joins
//! the fragment before it when it sits on the same line and starts within a
//! small distance of the fragment's right edge; the fragment then widens to
//! the union of the two. Otherwise the character starts a new fragment. Characters without a Unicode scalar are passed over and never
//! end a fragment.

use vstd::prelude::*;
use crate::cache::{CacheModel, DocumentCache};
use crate::document::{DocumentId, PageChar};
use crate::errors::PdfError;
use crate::geometry::PdfRect;
use crate::text::search::linear_text;

verus! {

/// Two characters are on one line when their top edges are closer than this.
pub const LINE_EPSILON: i64 = 100;

/// A character continues a fragment when its left edge is no further than
/// this from the fragment's right edge, on either side.
pub const SPACING_TOLERANCE: i64 = 2000;

/// A reconstructed fragment: its text and its box, measured from the
/// top-left corner of the page with y growing downward.
#[derive(Debug, Clone)]
pub struct TextItem {
    pub text: String,
    pub x: i64,
    pub y: i64,
    pub width: i64,
    pub height: i64,
}

/// The fragments of one page, in document order, and the page's size.
#[derive(Debug, Clone)]
pub struct PageText {
    pub items: Vec<TextItem>,
    pub width: i32,
    pub height: i32,
}

/// A fragment as a mathematical value.
pub struct Fragment {
    pub text: Seq<char>,
    pub x: int,
    pub y: int,
    pub width: int,
    pub height: int,
}

/// A page's text as a mathematical value.
pub struct PageTextModel {
    pub items: Seq<Fragment>,
    pub width: int,
    pub height: int,
}

impl View for TextItem {
    type V = Fragment;

    open spec fn view(&self) -> Fragment {
        Fragment {
            text: self.text@,
            x: self.x as int,
            y: self.y as int,
            width: self.width as int,
            height: self.height as int,
        }
    }
}

/// The fragments held by a vector of items.
pub open spec fn fragments_of(items: Seq<TextItem>) -> Seq<Fragment> {
    Seq::new(items.len(), |i: int| items[i]@)
}

impl View for PageText {
    type V = PageTextModel;

    open spec fn view(&self) -> PageTextModel {
        PageTextModel {
            items: fragments_of(self.items@),
            width: self.width as int,
            height: self.height as int,
        }
    }
}

/// The fragment that a single character makes.
pub open spec fn fragment_from(c: char, r: PdfRect, page_height: int) -> Fragment {
    Fragment {
        text: seq![c],
        x: r.left as int,
        y: r.spec_flipped_top(page_height),
        width: r.spec_width(),
        height: r.spec_height(),
    }
}

/// Whether a character with box `r` continues fragment `f`: same line, and
/// its left edge within the tolerance of the fragment's right edge.
pub open spec fn continues(f: Fragment, r: PdfRect, page_height: int) -> bool {
    let y = r.spec_flipped_top(page_height);
    let edge = f.x + f.width;
    &&& -(LINE_EPSILON as int) < y - f.y < LINE_EPSILON as int
    &&& edge - SPACING_TOLERANCE as int <= r.left <= edge + SPACING_TOLERANCE as int
}

/// The right edge of fragment `f` once it also covers a box whose right
/// edge is `right`: the further right of the two.
pub open spec fn union_edge(f: Fragment, right: int) -> int {
    if right > f.x + f.width {
        right
    } else {
        f.x + f.width
    }
}

/// Fragment `f` grown by a character: the text gains the character and the
/// width grows to the union of the fragment and the character's box, so
/// the fragment's right edge never moves left.
pub open spec fn extended(f: Fragment, c: char, r: PdfRect) -> Fragment {
    Fragment {
        text: f.text.push(c),
        x: f.x,
        y: f.y,
        width: union_edge(f, r.right as int) - f.x,
        height: f.height,
    }
}

/// The walk's state: the fragments that are finished and the one that is
/// still growing.
pub struct Layout {
    pub done: Seq<Fragment>,
    pub current: Option<Fragment>,
}

/// The state after one more character.
pub open spec fn layout_step(state: Layout, ch: PageChar, page_height: int) -> Layout {
    match ch.unicode {
        None => state,
        Some(c) => {
            let r = ch.spec_rect();
            match state.current {
                None => Layout {
                    done: state.done,
                    current: Some(fragment_from(c, r, page_height)),
                },
                Some(f) => if continues(f, r, page_height) {
                    Layout { done: state.done, current: Some(extended(f, c, r)) }
                } else {
                    Layout {
                        done: state.done.push(f),
                        current: Some(fragment_from(c, r, page_height)),
                    }
                },
            }
        },
    }
}

/// The state after all of `chars`.
pub open spec fn layout_after(chars: Seq<PageChar>, page_height: int) -> Layout
    decreases chars.len(),
{
    if chars.len() == 0 {
        Layout { done: Seq::empty(), current: None }
    } else {
        layout_step(layout_after(chars.drop_last(), page_height), chars.last(), page_height)
    }
}

/// All fragments of a state, the growing one last.
pub open spec fn flushed(state: Layout) -> Seq<Fragment> {
    match state.current {
        None => state.done,
        Some(f) => state.done.push(f),
    }
}

/// The fragments of a page.
pub open spec fn page_fragments(chars: Seq<PageChar>, page_height: int) -> Seq<Fragment> {
    flushed(layout_after(chars, page_height))
}

/// The text of a page.
pub open spec fn page_text_model(chars: Seq<PageChar>, page_width: int, page_height: int)
    -> PageTextModel {
    PageTextModel {
        items: page_fragments(chars, page_height),
        width: page_width,
        height: page_height,
    }
}

/// Bounds that hold of a growing fragment and keep the arithmetic on it
/// within `i64`: its left edge and its right edge are edges of characters.
spec fn within_reach(f: Fragment) -> bool {
    &&& i32::MIN <= f.x <= i32::MAX
    &&& i32::MIN <= f.x + f.width <= i32::MAX
    &&& 2 * (i32::MIN as int) <= f.y <= 2 * (i32::MAX as int) + 1
}

/// Reconstructs the fragments of one page from its characters.
pub fn layout_page_text(chars: &Vec<PageChar>, page_width: i32, page_height: i32) -> (page:
    PageText)
    ensures
        page@ == page_text_model(chars@, page_width as int, page_height as int),
{
    let mut items: Vec<TextItem> = Vec::new();
    let mut current: Option<TextItem> = None;
    let mut i: usize = 0;
    proof {
        assert(fragments_of(items@) =~= Seq::<Fragment>::empty());
        assert(chars@.take(0).len() == 0);
    }
    while i < chars.len()
        invariant
            i <= chars.len(),
            layout_after(chars@.take(i as int), page_height as int) == (Layout {
                done: fragments_of(items@),
                current: match current {
                    Some(t) => Some(t@),
                    None => None,
                },
            }),
            current is Some ==> within_reach(current->0@),
        decreases chars.len() - i,
    {
        let ch = chars[i];
        proof {
            assert(chars@.take(i + 1).drop_last() =~= chars@.take(i as int));
            assert(chars@.take(i + 1).last() == ch);
        }
        match ch.unicode {
            None => {},
            Some(c) => {
                let r = ch.rect();
                let x: i64 = r.left as i64;
                let y: i64 = r.flipped_top(page_height);
                let width: i64 = r.width();
                let height: i64 = r.height();
                match current.take() {
                    Some(mut fragment) => {
                        let edge: i64 = fragment.x + fragment.width;
                        let same_line = y - fragment.y < LINE_EPSILON && fragment.y - y
                            < LINE_EPSILON;
                        let is_near = x >= edge - SPACING_TOLERANCE && x <= edge
                            + SPACING_TOLERANCE;
                        if same_line && is_near {
                            let ghost before = fragment@;
                            fragment.text.push(c);
                            let right: i64 = r.right as i64;
                            let reach: i64 = if right > edge {
                                right
                            } else {
                                edge
                            };
                            fragment.width = reach - fragment.x;
                            assert(fragment@ == extended(before, c, r));
                            current = Some(fragment);
                        } else {
                            let ghost before = fragments_of(items@);
                            let ghost f = fragment@;
                            items.push(fragment);
                            assert(fragments_of(items@) =~= before.push(f));
                            let mut text = String::new();
                            text.push(c);
                            assert(text@ =~= seq![c]);
                            current = Some(TextItem { text, x, y, width, height });
                        }
                    },
                    None => {
                        let mut text = String::new();
                        text.push(c);
                        assert(text@ =~= seq![c]);
                        current = Some(TextItem { text, x, y, width, height });
                    },
                }
            },
        }
        i += 1;
    }
    proof {
        assert(chars@.take(i as int) =~= chars@);
    }
    match current {
        Some(fragment) => {
            let ghost before = fragments_of(items@);
            let ghost f = fragment@;
            items.push(fragment);
            assert(fragments_of(items@) =~= before.push(f));
        },
        None => {},
    }
    PageText { items, width: page_width, height: page_height }
}

/// What `textByPage` answers: the text of the page, where the document is
/// loaded and has the page.
pub open spec fn text_result<H>(cache: CacheModel<H>, id: Seq<char>, page_index: u16) -> Result<
    PageTextModel,
    PdfError,
> {
    if !cache.is_open(id) {
        Err(PdfError::NotFound)
    } else if page_index as int >= cache.content[id].spec_pages().len() {
        Err(PdfError::InvalidArgument)
    } else {
        let page = cache.content[id].spec_pages()[page_index as int];
        Ok(page_text_model(page.chars@, page.width as int, page.height as int))
    }
}

/// Whether `result` is what `textByPage` answers.
pub open spec fn text_answer<H>(
    result: Result<PageText, PdfError>,
    cache: CacheModel<H>,
    id: Seq<char>,
    page_index: u16,
) -> bool {
    match text_result(cache, id, page_index) {
        Ok(model) => result is Ok && result->Ok_0@ == model,
        Err(e) => result is Err && result->Err_0 == e,
    }
}

/// The text of one page of a loaded document.
pub fn get_text_by_page<H>(documents: &DocumentCache<H>, id: &DocumentId, page_index: u16) -> (result:
    Result<PageText, PdfError>)
    requires
        documents.wf(),
    ensures
        text_answer(result, documents@, id@, page_index),
{
    let document = match documents.document(id) {
        Some(document) => document,
        None => {
            return Err(PdfError::NotFound);
        },
    };
    match document.page(page_index) {
        None => Err(PdfError::InvalidArgument),
        Some(page) => Ok(layout_page_text(&page.chars, page.width, page.height)),
    }
}

/// The texts of fragments, one after the other.
pub open spec fn joined_text(items: Seq<Fragment>) -> Seq<char>
    decreases items.len(),
{
    if items.len() == 0 {
        Seq::empty()
    } else {
        joined_text(items.drop_last()) + items.last().text
    }
}

/// The text of a walk's state, the growing fragment included.
proof fn lemma_flushed_text(state: Layout)
    ensures
        joined_text(flushed(state)) == match state.current {
            Some(f) => joined_text(state.done) + f.text,
            None => joined_text(state.done),
        },
{
    match state.current {
        Some(f) => {
            assert(state.done.push(f).drop_last() =~= state.done);
        },
        None => {},
    }
}

/// Layout neither loses nor invents nor reorders text: the texts of the
/// fragments of a page, one after the other, are the page's linear text,
/// the string that search runs on. No fragment is empty.
pub proof fn law_layout_keeps_text(chars: Seq<PageChar>, page_height: int)
    ensures
        joined_text(page_fragments(chars, page_height)) == linear_text(chars),
        forall|i: int|
            0 <= i < page_fragments(chars, page_height).len() ==> (
            #[trigger] page_fragments(chars, page_height)[i]).text.len() > 0,
    decreases chars.len(),
{
    if chars.len() == 0 {
    } else {
        let before = layout_after(chars.drop_last(), page_height);
        let after = layout_after(chars, page_height);
        law_layout_keeps_text(chars.drop_last(), page_height);
        lemma_flushed_text(before);
        lemma_flushed_text(after);
        match chars.last().unicode {
            None => {},
            Some(c) => {
                let r = chars.last().spec_rect();
                match before.current {
                    None => {
                        assert(joined_text(before.done) + seq![c] =~= linear_text(
                            chars.drop_last(),
                        ).push(c));
                    },
                    Some(f) => {
                        if continues(f, r, page_height) {
                            assert(joined_text(before.done) + f.text.push(c) =~= (joined_text(
                                before.done,
                            ) + f.text).push(c));
                        } else {
                            assert(before.done.push(f).drop_last() =~= before.done);
                            assert(joined_text(before.done.push(f)) + seq![c] =~= (joined_text(
                                before.done,
                            ) + f.text).push(c));
                        }
                    },
                }
                let old_items = page_fragments(chars.drop_last(), page_height);
                let new_items = page_fragments(chars, page_height);
                assert forall|i: int| 0 <= i < new_items.len() implies (
                #[trigger] new_items[i]).text.len() > 0 by {
                    if i < old_items.len() - 1 {
                        assert(new_items[i] == old_items[i]);
                    } else if i < old_items.len() && i < new_items.len() - 1 {
                        assert(new_items[i] == old_items[i]);
                    }
                }
            },
        }
    }
}

/// Two resolvable characters make one fragment exactly when the second
/// continues the first: when their top edges are closer than
/// [`LINE_EPSILON`] and the second starts no further than
/// [`SPACING_TOLERANCE`] from the right edge of the first. Otherwise they
/// make two fragments, one character each.
pub proof fn law_pair_of_characters(first: PageChar, second: PageChar, page_height: int)
    requires
        first.unicode is Some,
        second.unicode is Some,
    ensures
        ({
            let head = fragment_from(first.unicode->0, first.spec_rect(), page_height);
            let items = page_fragments(seq![first, second], page_height);
            if continues(head, second.spec_rect(), page_height) {
                items == seq![extended(head, second.unicode->0, second.spec_rect())]
            } else {
                items == seq![
                    head,
                    fragment_from(second.unicode->0, second.spec_rect(), page_height),
                ]
            }
        }),
{
    let both = seq![first, second];
    let one = both.drop_last();
    assert(one =~= seq![first]);
    assert(one.drop_last() =~= Seq::<PageChar>::empty());
    assert(layout_after(one.drop_last(), page_height) == Layout {
        done: Seq::empty(),
        current: None,
    });
    assert(one.last() == first);
    assert(both.last() == second);
    let head = fragment_from(first.unicode->0, first.spec_rect(), page_height);
    assert(layout_after(one, page_height) == Layout { done: Seq::empty(), current: Some(head) });
    let items = page_fragments(both, page_height);
    if continues(head, second.spec_rect(), page_height) {
        assert(items =~= seq![extended(head, second.unicode->0, second.spec_rect())]);
    } else {
        assert(items =~= seq![
            head,
            fragment_from(second.unicode->0, second.spec_rect(), page_height),
        ]);
    }
}

} // verus!
