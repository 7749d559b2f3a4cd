//! Search over the linear text of each page.
//!
//! The index holds, for every page, the string of its resolvable characters
//! and, beside it, one entry per character with that character's box. A
//! query is matched case-sensitively from left to right; a match is never
//! allowed to overlap the one before it. Each match becomes a hit that
//! carries one highlight rectangle per matched character.

use vstd::prelude::*;
use crate::cache::{CacheModel, DocumentCache};
use crate::document::{Document, DocumentId, PageChar, PageContent};
use crate::errors::PdfError;
use crate::geometry::PdfRect;
use crate::strings::chars_of;

verus! {

/// Where one character of a page's linear text came from.
#[derive(Debug, Clone, Copy, PartialEq, Eq, Structural)]
pub struct TextCharMeta {
    /// The page that holds the character.
    pub page: u16,
    /// The character's position among all characters of the page, the
    /// unresolvable ones included.
    pub char_index: usize,
    /// The character's box in page space.
    pub rect: PdfRect,
}

/// The searchable text of one page.
#[derive(Debug, Clone)]
pub struct PageSearchText {
    pub page: u16,
    pub text: String,
    pub char_map: Vec<TextCharMeta>,
    pub width: i32,
    pub height: i32,
}

/// The searchable text of a document, page by page.
#[derive(Debug, Clone)]
pub struct SearchIndex {
    pub pages: Vec<PageSearchText>,
}

/// A highlight rectangle, measured from the top-left corner of the page.
#[derive(Debug, Clone, Copy, PartialEq, Eq, Structural)]
pub struct SearchHitRect {
    pub x: i64,
    pub y: i64,
    pub w: i64,
    pub h: i64,
}

/// One match: the page, the range of characters in the page's linear text,
/// and the boxes of those characters.
#[derive(Debug, Clone)]
pub struct SearchHit {
    pub page: u16,
    pub start: usize,
    pub end: usize,
    pub rects: Vec<SearchHitRect>,
}

/// A page's searchable text as a mathematical value.
pub struct PageSearchModel {
    pub page: u16,
    pub text: Seq<char>,
    pub char_map: Seq<TextCharMeta>,
    pub width: int,
    pub height: int,
}

/// A hit as a mathematical value.
pub struct SearchHitModel {
    pub page: u16,
    pub start: int,
    pub end: int,
    pub rects: Seq<SearchHitRect>,
}

impl View for PageSearchText {
    type V = PageSearchModel;

    open spec fn view(&self) -> PageSearchModel {
        PageSearchModel {
            page: self.page,
            text: self.text@,
            char_map: self.char_map@,
            width: self.width as int,
            height: self.height as int,
        }
    }
}

impl View for SearchIndex {
    type V = Seq<PageSearchModel>;

    open spec fn view(&self) -> Seq<PageSearchModel> {
        Seq::new(self.pages@.len(), |i: int| self.pages@[i]@)
    }
}

impl View for SearchHit {
    type V = SearchHitModel;

    open spec fn view(&self) -> SearchHitModel {
        SearchHitModel {
            page: self.page,
            start: self.start as int,
            end: self.end as int,
            rects: self.rects@,
        }
    }
}

/// The hits held by a vector.
pub open spec fn hits_of(hits: Seq<SearchHit>) -> Seq<SearchHitModel> {
    Seq::new(hits.len(), |i: int| hits[i]@)
}

/// The linear text of a page: its resolvable characters, in order.
pub open spec fn linear_text(chars: Seq<PageChar>) -> Seq<char>
    decreases chars.len(),
{
    if chars.len() == 0 {
        Seq::empty()
    } else {
        let before = linear_text(chars.drop_last());
        match chars.last().unicode {
            Some(c) => before.push(c),
            None => before,
        }
    }
}

/// The table that runs beside the linear text: for each of its characters
/// the place and the box of the page character it came from.
pub open spec fn char_table(chars: Seq<PageChar>, page: u16) -> Seq<TextCharMeta>
    decreases chars.len(),
{
    if chars.len() == 0 {
        Seq::empty()
    } else {
        let before = char_table(chars.drop_last(), page);
        match chars.last().unicode {
            Some(c) => before.push(
                TextCharMeta {
                    page,
                    char_index: (chars.len() - 1) as usize,
                    rect: chars.last().spec_rect(),
                },
            ),
            None => before,
        }
    }
}

/// The searchable text of the page with index `page`.
pub open spec fn page_search_model(content: PageContent, page: u16) -> PageSearchModel {
    PageSearchModel {
        page,
        text: linear_text(content.chars@),
        char_map: char_table(content.chars@, page),
        width: content.width as int,
        height: content.height as int,
    }
}

/// The index of a document: the searchable text of each page, in order.
pub open spec fn search_index_model(pages: Seq<PageContent>) -> Seq<PageSearchModel> {
    Seq::new(pages.len(), |i: int| page_search_model(pages[i], i as u16))
}

/// Whether `query` stands in `text` at position `at`.
pub open spec fn occurs_at(text: Seq<char>, query: Seq<char>, at: int) -> bool {
    &&& 0 <= at
    &&& at + query.len() <= text.len()
    &&& text.subrange(at, at + query.len()) == query
}

/// The starts of the matches of `query` in `text` at or after `from`, found
/// from left to right, each match beginning no earlier than the end of the
/// one before. An empty query matches nowhere.
pub open spec fn match_starts(text: Seq<char>, query: Seq<char>, from: int) -> Seq<int>
    decreases text.len() - from,
{
    if query.len() == 0 || from < 0 || from + query.len() > text.len() {
        Seq::empty()
    } else if occurs_at(text, query, from) {
        seq![from] + match_starts(text, query, from + query.len())
    } else {
        match_starts(text, query, from + 1)
    }
}

/// The highlight rectangle of a character box on a page of the given
/// height: the same box, measured from the top of the page.
pub open spec fn highlight_of(r: PdfRect, page_height: int) -> SearchHitRect {
    SearchHitRect {
        x: r.left as i64,
        y: r.spec_flipped_top(page_height) as i64,
        w: r.spec_width() as i64,
        h: r.spec_height() as i64,
    }
}

/// The number of table entries that a match of `count` characters at
/// `start` covers: all of them, unless the table ends before.
pub open spec fn covered(table_len: int, start: int, count: int) -> int {
    if start + count <= table_len {
        count
    } else if start <= table_len {
        table_len - start
    } else {
        0
    }
}

/// The highlight rectangles of a match: one per matched character, in order.
pub open spec fn hit_rects(char_map: Seq<TextCharMeta>, start: int, count: int, page_height: int)
    -> Seq<SearchHitRect> {
    Seq::new(
        covered(char_map.len() as int, start, count) as nat,
        |i: int| highlight_of(char_map[start + i].rect, page_height),
    )
}

/// The hit for a match of `query_len` characters at `start`.
pub open spec fn hit_at(page: PageSearchModel, start: int, query_len: int) -> SearchHitModel {
    SearchHitModel {
        page: page.page,
        start,
        end: start + query_len,
        rects: hit_rects(page.char_map, start, query_len, page.height),
    }
}

/// The hits of `query` on one page.
pub open spec fn page_hits(page: PageSearchModel, query: Seq<char>) -> Seq<SearchHitModel> {
    let starts = match_starts(page.text, query, 0);
    Seq::new(starts.len(), |i: int| hit_at(page, starts[i], query.len() as int))
}

/// The hits of `query` in a document: those of the first page, then those
/// of the second, and so on.
pub open spec fn index_hits(pages: Seq<PageSearchModel>, query: Seq<char>) -> Seq<SearchHitModel>
    decreases pages.len(),
{
    if pages.len() == 0 {
        Seq::empty()
    } else {
        index_hits(pages.drop_last(), query) + page_hits(pages.last(), query)
    }
}

/// Builds the searchable text of one page.
pub fn build_page_search_text(content: &PageContent, page: u16) -> (result: PageSearchText)
    ensures
        result@ == page_search_model(*content, page),
{
    let mut text = String::new();
    let mut char_map: Vec<TextCharMeta> = Vec::new();
    let mut i: usize = 0;
    while i < content.chars.len()
        invariant
            i <= content.chars.len(),
            text@ == linear_text(content.chars@.take(i as int)),
            char_map@ == char_table(content.chars@.take(i as int), page),
        decreases content.chars.len() - i,
    {
        let ch = content.chars[i];
        proof {
            assert(content.chars@.take(i + 1).drop_last() =~= content.chars@.take(i as int));
            assert(content.chars@.take(i + 1).last() == ch);
        }
        match ch.unicode {
            Some(c) => {
                text.push(c);
                char_map.push(TextCharMeta { page, char_index: i, rect: ch.rect() });
            },
            None => {},
        }
        i += 1;
    }
    proof {
        assert(content.chars@.take(i as int) =~= content.chars@);
    }
    PageSearchText { page, text, char_map, width: content.width, height: content.height }
}

/// Builds the search index of a document.
pub fn build_search_index(document: &Document) -> (index: SearchIndex)
    ensures
        index@ == search_index_model(document.spec_pages()),
{
    let pages = document.pages();
    let mut built: Vec<PageSearchText> = Vec::new();
    let mut i: usize = 0;
    while i < pages.len()
        invariant
            i <= pages.len(),
            pages@.len() <= crate::document::MAX_PAGES,
            built@.len() == i,
            forall|k: int| 0 <= k < i ==> (#[trigger] built@[k])@ == page_search_model(
                pages@[k],
                k as u16,
            ),
        decreases pages.len() - i,
    {
        let page = build_page_search_text(&pages[i], i as u16);
        built.push(page);
        i += 1;
    }
    let index = SearchIndex { pages: built };
    assert(index@ =~= search_index_model(document.spec_pages()));
    index
}

/// Whether `query` stands in `text` at position `at`.
fn occurs_here(text: &Vec<char>, query: &Vec<char>, at: usize) -> (found: bool)
    requires
        at + query@.len() <= text@.len(),
    ensures
        found == occurs_at(text@, query@, at as int),
{
    let n = text.len();
    let mut k: usize = 0;
    while k < query.len()
        invariant
            k <= query@.len(),
            n == text@.len(),
            at + query@.len() <= n,
            forall|j: int| 0 <= j < k ==> text@[at + j] == query@[j],
        decreases query@.len() - k,
    {
        if text[at + k] != query[k] {
            proof {
                let part = text@.subrange(at as int, at + query@.len());
                assert(part[k as int] == text@[at + k]);
            }
            return false;
        }
        k += 1;
    }
    assert(text@.subrange(at as int, at + query@.len()) =~= query@);
    true
}

/// The highlight rectangles of a match of `count` characters at `start`.
fn collect_rects(char_map: &Vec<TextCharMeta>, start: usize, count: usize, page_height: i32)
    -> (rects: Vec<SearchHitRect>)
    requires
        start + count <= usize::MAX,
    ensures
        rects@ == hit_rects(char_map@, start as int, count as int, page_height as int),
{
    let mut rects: Vec<SearchHitRect> = Vec::new();
    let mut i: usize = 0;
    while i < count && start + i < char_map.len()
        invariant
            i <= count,
            start + count <= usize::MAX,
            i <= covered(char_map@.len() as int, start as int, count as int),
            rects@.len() == i,
            forall|j: int|
                0 <= j < i ==> rects@[j] == highlight_of(
                    (#[trigger] char_map@[start + j]).rect,
                    page_height as int,
                ),
        decreases count - i,
    {
        let rect = char_map[start + i].rect;
        rects.push(
            SearchHitRect {
                x: rect.left as i64,
                y: rect.flipped_top(page_height),
                w: rect.width(),
                h: rect.height(),
            },
        );
        i += 1;
    }
    assert(rects@ =~= hit_rects(char_map@, start as int, count as int, page_height as int));
    rects
}

/// Appends to `hits` the hits of `query` on one page.
fn search_page(page: &PageSearchText, query: &Vec<char>, hits: &mut Vec<SearchHit>)
    ensures
        hits_of(final(hits)@) == hits_of(old(hits)@) + page_hits(page@, query@),
{
    let ghost before = hits_of(hits@);
    let text = chars_of(page.text.as_str());
    let count = query.len();
    if count == 0 || count > text.len() {
        assert(page_hits(page@, query@) =~= Seq::<SearchHitModel>::empty());
        assert(hits_of(hits@) + page_hits(page@, query@) =~= hits_of(hits@));
        return ;
    }
    let n = text.len();
    let last = n - count;
    let mut at: usize = 0;
    let ghost mut found: Seq<int> = Seq::empty();
    proof {
        assert(found + match_starts(text@, query@, 0) =~= match_starts(text@, query@, 0));
    }
    while at <= last
        invariant
            count == query@.len(),
            count > 0,
            text@ == page@.text,
            n == text@.len(),
            last + count == n,
            at <= n,
            match_starts(text@, query@, 0) == found + match_starts(text@, query@, at as int),
            hits_of(hits@).len() == before.len() + found.len(),
            forall|j: int| 0 <= j < before.len() ==> hits_of(hits@)[j] == before[j],
            forall|j: int|
                0 <= j < found.len() ==> #[trigger] hits_of(hits@)[before.len() + j] == hit_at(
                    page@,
                    found[j],
                    count as int,
                ),
        decreases text@.len() - at,
    {
        if occurs_here(&text, query, at) {
            let rects = collect_rects(&page.char_map, at, count, page.height);
            let ghost old_hits = hits_of(hits@);
            hits.push(SearchHit { page: page.page, start: at, end: at + count, rects });
            proof {
                let rest = match_starts(text@, query@, at + count);
                assert(found + (seq![at as int] + rest) =~= found.push(at as int) + rest);
                assert(hits_of(hits@) =~= old_hits.push(hit_at(page@, at as int, count as int)));
                found = found.push(at as int);
            }
            at = at + count;
        } else {
            at = at + 1;
        }
    }
    proof {
        assert(match_starts(text@, query@, at as int) =~= Seq::<int>::empty());
        assert(found + Seq::<int>::empty() =~= found);
        assert(match_starts(page@.text, query@, 0) == found);
        let on_page = page_hits(page@, query@);
        assert(on_page.len() == found.len());
        assert forall|j: int| 0 <= j < found.len() implies hits_of(hits@)[before.len() + j]
            == on_page[j] by {
            assert(on_page[j] == hit_at(page@, found[j], count as int));
        }
        assert(hits_of(hits@) =~= before + on_page);
    }
}

/// The hits of `query` in an index, page by page.
pub fn search_index(index: &SearchIndex, query: &str) -> (hits: Vec<SearchHit>)
    ensures
        hits_of(hits@) == index_hits(index@, query@),
{
    let needle = chars_of(query);
    let mut hits: Vec<SearchHit> = Vec::new();
    let mut i: usize = 0;
    proof {
        assert(hits_of(hits@) =~= Seq::<SearchHitModel>::empty());
        assert(index@.take(0) =~= Seq::<PageSearchModel>::empty());
    }
    while i < index.pages.len()
        invariant
            i <= index.pages@.len(),
            needle@ == query@,
            hits_of(hits@) == index_hits(index@.take(i as int), query@),
        decreases index.pages@.len() - i,
    {
        proof {
            assert(index@.take(i + 1).drop_last() =~= index@.take(i as int));
            assert(index@.take(i + 1).last() == index.pages@[i as int]@);
        }
        search_page(&index.pages[i], &needle, &mut hits);
        i += 1;
    }
    proof {
        assert(index@.take(i as int) =~= index@);
    }
    hits
}

/// What `search` answers: the hits in the index of the loaded document.
pub open spec fn search_result<H>(cache: CacheModel<H>, id: Seq<char>, query: Seq<char>) -> Result<
    Seq<SearchHitModel>,
    PdfError,
> {
    if !cache.is_open(id) {
        Err(PdfError::NotFound)
    } else {
        Ok(index_hits(search_index_model(cache.content[id].spec_pages()), query))
    }
}

/// Whether `result` is what `search` answers.
pub open spec fn search_answer<H>(
    result: Result<Vec<SearchHit>, PdfError>,
    cache: CacheModel<H>,
    id: Seq<char>,
    query: Seq<char>,
) -> bool {
    match search_result(cache, id, query) {
        Ok(hits) => result is Ok && hits_of(result->Ok_0@) == hits,
        Err(e) => result is Err && result->Err_0 == e,
    }
}

/// The hits of `query` in a loaded document. An empty query has no hits.
pub fn search_document<H>(documents: &DocumentCache<H>, id: &DocumentId, query: &str) -> (result:
    Result<Vec<SearchHit>, PdfError>)
    requires
        documents.wf(),
    ensures
        search_answer(result, documents@, id@, query@),
{
    let document = match documents.document(id) {
        Some(document) => document,
        None => {
            return Err(PdfError::NotFound);
        },
    };
    let index = build_search_index(document);
    Ok(search_index(&index, query))
}

/// Every match that search reports is a place where the query stands in
/// the text; the matches come from left to right, and none begins before
/// the one before it has ended.
pub proof fn law_matches_are_occurrences(text: Seq<char>, query: Seq<char>, from: int)
    ensures
        forall|i: int|
            0 <= i < match_starts(text, query, from).len() ==> from <= (#[trigger] match_starts(
                text,
                query,
                from,
            )[i]) && occurs_at(text, query, match_starts(text, query, from)[i]),
        forall|i: int, j: int|
            0 <= i < j < match_starts(text, query, from).len() ==> (#[trigger] match_starts(
                text,
                query,
                from,
            )[i]) + query.len() <= #[trigger] match_starts(text, query, from)[j],
    decreases text.len() - from,
{
    let starts = match_starts(text, query, from);
    if query.len() == 0 || from < 0 || from + query.len() > text.len() {
        assert(starts =~= Seq::<int>::empty());
    } else if occurs_at(text, query, from) {
        let next = from + query.len();
        let rest = match_starts(text, query, next);
        law_matches_are_occurrences(text, query, next);
        assert(starts =~= seq![from] + rest);
        assert forall|i: int| 0 <= i < starts.len() implies from <= (#[trigger] starts[i])
            && occurs_at(text, query, starts[i]) by {
            if i > 0 {
                assert(starts[i] == rest[i - 1]);
            }
        }
        assert forall|i: int, j: int| 0 <= i < j < starts.len() implies (#[trigger] starts[i])
            + query.len() <= #[trigger] starts[j] by {
            assert(starts[j] == rest[j - 1]);
            if i > 0 {
                assert(starts[i] == rest[i - 1]);
            }
        }
    } else {
        let rest = match_starts(text, query, from + 1);
        law_matches_are_occurrences(text, query, from + 1);
        assert(starts == rest);
        assert forall|i: int| 0 <= i < starts.len() implies from <= (#[trigger] starts[i])
            && occurs_at(text, query, starts[i]) by {
            assert(starts[i] == rest[i]);
        }
        assert forall|i: int, j: int| 0 <= i < j < starts.len() implies (#[trigger] starts[i])
            + query.len() <= #[trigger] starts[j] by {
            assert(starts[i] == rest[i]);
            assert(starts[j] == rest[j]);
        }
    }
}

/// Search misses nothing that it could report: every place at or after
/// `from` where a non-empty query stands in the text lies inside a
/// reported match, that is, it is a reported match or it overlaps one.
pub proof fn law_no_occurrence_is_missed(text: Seq<char>, query: Seq<char>, from: int, at: int)
    requires
        query.len() > 0,
        0 <= from <= at,
        occurs_at(text, query, at),
    ensures
        exists|i: int|
            0 <= i < match_starts(text, query, from).len() && (#[trigger] match_starts(
                text,
                query,
                from,
            )[i]) <= at < match_starts(text, query, from)[i] + query.len(),
    decreases text.len() - from,
{
    let starts = match_starts(text, query, from);
    if occurs_at(text, query, from) {
        let next = from + query.len();
        let rest = match_starts(text, query, next);
        assert(starts =~= seq![from] + rest);
        if at < next {
            assert(starts[0] == from);
        } else {
            law_no_occurrence_is_missed(text, query, next, at);
            let k = choose|i: int|
                0 <= i < rest.len() && (#[trigger] rest[i]) <= at < rest[i] + query.len();
            assert(starts[k + 1] == rest[k]);
        }
    } else {
        law_no_occurrence_is_missed(text, query, from + 1, at);
    }
}

/// An empty query has no hits, and neither has a page without text.
pub proof fn law_nothing_to_find(page: PageSearchModel, query: Seq<char>)
    requires
        query.len() == 0 || page.text.len() == 0,
    ensures
        page_hits(page, query) == Seq::<SearchHitModel>::empty(),
{
    assert(page_hits(page, query) =~= Seq::<SearchHitModel>::empty());
}

/// The table of a page has one entry for each character of its linear
/// text.
pub proof fn law_table_runs_beside_text(chars: Seq<PageChar>, page: u16)
    ensures
        char_table(chars, page).len() == linear_text(chars).len(),
    decreases chars.len(),
{
    if chars.len() > 0 {
        law_table_runs_beside_text(chars.drop_last(), page);
    }
}

/// On a page of a document's index, every hit spans as many characters as
/// the query has and carries exactly one highlight rectangle for each of
/// them: the box of that character, measured from the top of the page.
pub proof fn law_one_rectangle_per_character(content: PageContent, page: u16, query: Seq<char>)
    ensures
        forall|i: int|
            0 <= i < page_hits(page_search_model(content, page), query).len() ==> {
                let hit = #[trigger] page_hits(page_search_model(content, page), query)[i];
                &&& hit.page == page
                &&& hit.end - hit.start == query.len()
                &&& hit.rects.len() == query.len()
                &&& forall|k: int|
                    0 <= k < query.len() ==> #[trigger] hit.rects[k] == highlight_of(
                        char_table(content.chars@, page)[hit.start + k].rect,
                        content.height as int,
                    )
            },
{
    let model = page_search_model(content, page);
    let hits = page_hits(model, query);
    let starts = match_starts(model.text, query, 0);
    law_matches_are_occurrences(model.text, query, 0);
    law_table_runs_beside_text(content.chars@, page);
    assert forall|i: int| 0 <= i < hits.len() implies {
        let hit = #[trigger] hits[i];
        &&& hit.page == page
        &&& hit.end - hit.start == query.len()
        &&& hit.rects.len() == query.len()
        &&& forall|k: int|
            0 <= k < query.len() ==> #[trigger] hit.rects[k] == highlight_of(
                char_table(content.chars@, page)[hit.start + k].rect,
                content.height as int,
            )
    } by {
        assert(occurs_at(model.text, query, starts[i]));
        assert(hits[i] == hit_at(model, starts[i], query.len() as int));
    }
}

} // verus!
