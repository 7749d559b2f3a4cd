//! A worker's private document cache.
//!
//! The cache holds two tables keyed by document id: the paths of documents
//! that were opened but not yet loaded, and the documents that are loaded,
//! each with the native handle it was read through. No id occurs twice in
//! either table.

use vstd::prelude::*;
use crate::document::{Document, DocumentId};

verus! {

/// A document that was opened and waits to be loaded.
#[derive(Debug, Clone)]
pub struct PendingOpen {
    pub id: DocumentId,
    pub path: String,
}

/// A loaded document: what was read of it, and the native handle.
pub struct OpenDocument<H> {
    pub id: DocumentId,
    pub handle: H,
    pub content: Document,
}

/// What a worker has to do before it can serve a request for a document.
#[derive(Debug)]
pub enum LoadDecision {
    /// The document is loaded.
    Ready,
    /// The document was opened and has to be loaded from this path first.
    Load(String),
    /// The worker has never heard of the document.
    Missing,
}

/// The cache as a mathematical value: three maps keyed by the text of the
/// document id. `content` and `handles` have the same domain.
pub struct CacheModel<H> {
    pub pending: Map<Seq<char>, Seq<char>>,
    pub content: Map<Seq<char>, Document>,
    pub handles: Map<Seq<char>, H>,
}

impl<H> CacheModel<H> {
    /// The cache that holds nothing.
    pub open spec fn empty() -> CacheModel<H> {
        CacheModel { pending: Map::empty(), content: Map::empty(), handles: Map::empty() }
    }

    /// Whether the two tables of loaded documents have one domain. The
    /// model of every cache does.
    pub open spec fn wf(self) -> bool {
        self.content.dom() == self.handles.dom()
    }

    /// Whether the document is loaded.
    pub open spec fn is_open(self, id: Seq<char>) -> bool {
        self.content.dom().contains(id)
    }

    /// Whether the cache has a path or a loaded document under the id.
    pub open spec fn knows(self, id: Seq<char>) -> bool {
        self.content.dom().contains(id) || self.pending.dom().contains(id)
    }

    /// The cache after the document was opened under `id`.
    pub open spec fn registered(self, id: Seq<char>, path: Seq<char>) -> CacheModel<H> {
        CacheModel { pending: self.pending.insert(id, path), ..self }
    }

    /// The cache after the document was loaded.
    pub open spec fn loaded(self, id: Seq<char>, handle: H, content: Document) -> CacheModel<H> {
        CacheModel {
            pending: self.pending.remove(id),
            content: self.content.insert(id, content),
            handles: self.handles.insert(id, handle),
        }
    }

    /// The cache after the document was closed.
    pub open spec fn closed(self, id: Seq<char>) -> CacheModel<H> {
        CacheModel {
            pending: self.pending.remove(id),
            content: self.content.remove(id),
            handles: self.handles.remove(id),
        }
    }

    /// What has to be done before a request for `id` can be served.
    pub open spec fn decision(self, id: Seq<char>) -> LoadDecisionModel {
        if self.content.dom().contains(id) {
            LoadDecisionModel::Ready
        } else if self.pending.dom().contains(id) {
            LoadDecisionModel::Load(self.pending[id])
        } else {
            LoadDecisionModel::Missing
        }
    }
}

/// A load decision as a mathematical value.
pub enum LoadDecisionModel {
    Ready,
    Load(Seq<char>),
    Missing,
}

impl View for LoadDecision {
    type V = LoadDecisionModel;

    open spec fn view(&self) -> LoadDecisionModel {
        match self {
            LoadDecision::Ready => LoadDecisionModel::Ready,
            LoadDecision::Load(path) => LoadDecisionModel::Load(path@),
            LoadDecision::Missing => LoadDecisionModel::Missing,
        }
    }
}

/// The ids of the pending entries, in order.
spec fn pending_ids(entries: Seq<PendingOpen>) -> Seq<Seq<char>> {
    Seq::new(entries.len(), |i: int| entries[i].id@)
}

/// The ids of the loaded entries, in order.
spec fn open_ids<H>(entries: Seq<OpenDocument<H>>) -> Seq<Seq<char>> {
    Seq::new(entries.len(), |i: int| entries[i].id@)
}

/// Whether `id` is among `keys`.
spec fn holds(keys: Seq<Seq<char>>, id: Seq<char>) -> bool {
    exists|i: int| 0 <= i < keys.len() && keys[i] == id
}

/// A place of `id` among `keys`.
spec fn place(keys: Seq<Seq<char>>, id: Seq<char>) -> int {
    choose|i: int| 0 <= i < keys.len() && keys[i] == id
}

/// Whether no key occurs twice.
spec fn distinct(keys: Seq<Seq<char>>) -> bool {
    forall|i: int, j: int| 0 <= i < j < keys.len() ==> keys[i] != keys[j]
}

/// In a sequence of distinct keys, the place of a key is where it stands.
proof fn lemma_place(keys: Seq<Seq<char>>, i: int)
    requires
        distinct(keys),
        0 <= i < keys.len(),
    ensures
        holds(keys, keys[i]),
        place(keys, keys[i]) == i,
{
    let j = place(keys, keys[i]);
    assert(0 <= j < keys.len() && keys[j] == keys[i]);
    if j < i {
        assert(keys[j] != keys[i]);
    } else if i < j {
        assert(keys[i] != keys[j]);
    }
}

/// Taking a key out of distinct keys leaves the others, distinct, each one
/// place lower where it stood behind the key.
proof fn lemma_removed(keys: Seq<Seq<char>>, i: int, id: Seq<char>)
    requires
        distinct(keys),
        0 <= i < keys.len(),
    ensures
        distinct(keys.remove(i)),
        holds(keys.remove(i), id) <==> holds(keys, id) && id != keys[i],
        holds(keys.remove(i), id) ==> place(keys, id) == if place(keys.remove(i), id) < i {
            place(keys.remove(i), id)
        } else {
            place(keys.remove(i), id) + 1
        },
{
    let rest = keys.remove(i);
    assert forall|a: int, b: int| 0 <= a < b < rest.len() implies rest[a] != rest[b] by {
        let a0 = if a < i { a } else { a + 1 };
        let b0 = if b < i { b } else { b + 1 };
        assert(rest[a] == keys[a0] && rest[b] == keys[b0]);
    }
    if holds(rest, id) {
        let q = place(rest, id);
        let q0 = if q < i { q } else { q + 1 };
        assert(rest[q] == keys[q0]);
        lemma_place(keys, q0);
        if id == keys[i] {
            lemma_place(keys, i);
        }
    }
    if holds(keys, id) && id != keys[i] {
        let p = place(keys, id);
        let moved = if p < i { p } else { p - 1 };
        assert(rest[moved] == keys[p]);
    }
}

/// Adding a new key to distinct keys leaves them distinct and in place.
proof fn lemma_pushed(keys: Seq<Seq<char>>, k: Seq<char>, id: Seq<char>)
    requires
        distinct(keys),
        !holds(keys, k),
    ensures
        distinct(keys.push(k)),
        holds(keys.push(k), id) <==> holds(keys, id) || id == k,
        holds(keys, id) ==> place(keys.push(k), id) == place(keys, id),
        place(keys.push(k), k) == keys.len(),
{
    let more = keys.push(k);
    assert forall|a: int, b: int| 0 <= a < b < more.len() implies more[a] != more[b] by {
        if b == keys.len() {
            assert(keys[a] != k);
        }
    }
    assert(more[keys.len() as int] == k);
    lemma_place(more, keys.len() as int);
    if holds(keys, id) {
        let p = place(keys, id);
        assert(more[p] == id);
        lemma_place(more, p);
    }
    if holds(more, id) && id != k {
        let q = place(more, id);
        assert(keys[q] == id);
    }
}

/// The cache of one worker.
pub struct DocumentCache<H> {
    pending: Vec<PendingOpen>,
    open: Vec<OpenDocument<H>>,
}

impl<H> View for DocumentCache<H> {
    type V = CacheModel<H>;

    closed spec fn view(&self) -> CacheModel<H> {
        let pending = self.pending@;
        let open = self.open@;
        CacheModel {
            pending: Map::new(
                |id: Seq<char>| holds(pending_ids(pending), id),
                |id: Seq<char>| pending[place(pending_ids(pending), id)].path@,
            ),
            content: Map::new(
                |id: Seq<char>| holds(open_ids(open), id),
                |id: Seq<char>| open[place(open_ids(open), id)].content,
            ),
            handles: Map::new(
                |id: Seq<char>| holds(open_ids(open), id),
                |id: Seq<char>| open[place(open_ids(open), id)].handle,
            ),
        }
    }
}

impl<H> DocumentCache<H> {
    /// Whether no id occurs twice in either table. Every cache that this
    /// module hands out is well formed, and every operation keeps it so.
    pub closed spec fn wf(&self) -> bool {
        &&& distinct(pending_ids(self.pending@))
        &&& distinct(open_ids(self.open@))
    }

    /// The model of a cache is well formed.
    pub proof fn lemma_model_wf(&self)
        ensures
            self@.wf(),
    {
        assert(self@.content.dom() =~= self@.handles.dom());
    }

    /// A cache that holds nothing.
    pub fn new() -> (cache: Self)
        ensures
            cache@ == CacheModel::<H>::empty(),
            cache.wf(),
    {
        let cache = DocumentCache { pending: Vec::new(), open: Vec::new() };
        proof {
            assert(cache@.pending =~= Map::empty());
            assert(cache@.content =~= Map::empty());
            assert(cache@.handles =~= Map::empty());
        }
        cache
    }

    /// The place of `id` in the pending table.
    fn find_pending(&self, id: &DocumentId) -> (found: Option<usize>)
        requires
            self.wf(),
        ensures
            found is Some <==> holds(pending_ids(self.pending@), id@),
            found is Some ==> found->0 < self.pending@.len() && self.pending@[found->0 as int].id@
                == id@ && place(pending_ids(self.pending@), id@) == found->0,
    {
        let mut i: usize = 0;
        while i < self.pending.len()
            invariant
                i <= self.pending@.len(),
                distinct(pending_ids(self.pending@)),
                forall|k: int| 0 <= k < i ==> self.pending@[k].id@ != id@,
            decreases self.pending@.len() - i,
        {
            if self.pending[i].id == *id {
                proof {
                    assert(pending_ids(self.pending@)[i as int] == id@);
                    lemma_place(pending_ids(self.pending@), i as int);
                }
                return Some(i);
            }
            i += 1;
        }
        proof {
            let keys = pending_ids(self.pending@);
            assert forall|k: int| 0 <= k < keys.len() implies keys[k] != id@ by {
                assert(keys[k] == self.pending@[k].id@);
            }
        }
        None
    }

    /// The place of `id` in the table of loaded documents.
    fn find_open(&self, id: &DocumentId) -> (found: Option<usize>)
        requires
            self.wf(),
        ensures
            found is Some <==> holds(open_ids(self.open@), id@),
            found is Some ==> found->0 < self.open@.len() && self.open@[found->0 as int].id@ == id@
                && place(open_ids(self.open@), id@) == found->0,
    {
        let mut i: usize = 0;
        while i < self.open.len()
            invariant
                i <= self.open@.len(),
                distinct(open_ids(self.open@)),
                forall|k: int| 0 <= k < i ==> self.open@[k].id@ != id@,
            decreases self.open@.len() - i,
        {
            if self.open[i].id == *id {
                proof {
                    assert(open_ids(self.open@)[i as int] == id@);
                    lemma_place(open_ids(self.open@), i as int);
                }
                return Some(i);
            }
            i += 1;
        }
        proof {
            let keys = open_ids(self.open@);
            assert forall|k: int| 0 <= k < keys.len() implies keys[k] != id@ by {
                assert(keys[k] == self.open@[k].id@);
            }
        }
        None
    }

    /// Whether the document is loaded.
    pub fn is_open(&self, id: &DocumentId) -> (open: bool)
        requires
            self.wf(),
        ensures
            open == self@.is_open(id@),
    {
        self.find_open(id).is_some()
    }

    /// What has to be done before a request for `id` can be served.
    pub fn load_decision(&self, id: &DocumentId) -> (decision: LoadDecision)
        requires
            self.wf(),
        ensures
            decision@ == self@.decision(id@),
    {
        if self.find_open(id).is_some() {
            return LoadDecision::Ready;
        }
        match self.find_pending(id) {
            Some(i) => LoadDecision::Load(self.pending[i].path.clone()),
            None => LoadDecision::Missing,
        }
    }

    /// What was read of the document, where it is loaded.
    pub fn document(&self, id: &DocumentId) -> (document: Option<&Document>)
        requires
            self.wf(),
        ensures
            document is Some <==> self@.is_open(id@),
            document is Some ==> *document->0 == self@.content[id@],
    {
        match self.find_open(id) {
            Some(i) => Some(&self.open[i].content),
            None => None,
        }
    }

    /// The native handle of the document, where it is loaded.
    pub fn handle(&self, id: &DocumentId) -> (handle: Option<&H>)
        requires
            self.wf(),
        ensures
            handle is Some <==> self@.is_open(id@),
            handle is Some ==> *handle->0 == self@.handles[id@],
    {
        match self.find_open(id) {
            Some(i) => Some(&self.open[i].handle),
            None => None,
        }
    }

    /// Takes `id` out of the pending table.
    fn drop_pending(&mut self, id: &DocumentId)
        requires
            old(self).wf(),
        ensures
            final(self).wf(),
            final(self)@.pending == old(self)@.pending.remove(id@),
            final(self)@.content == old(self)@.content,
            final(self)@.handles == old(self)@.handles,
    {
        let ghost before = self.pending@;
        let ghost was = self@;
        match self.find_pending(id) {
            Some(i) => {
                let _ = self.pending.remove(i);
                proof {
                    let keys0 = pending_ids(before);
                    let keys1 = pending_ids(self.pending@);
                    assert(keys1 =~= keys0.remove(i as int));
                    lemma_removed(keys0, i as int, id@);
                    assert forall|k: Seq<char>|
                        self@.pending.dom().contains(k) <==> was.pending.remove(
                            id@,
                        ).dom().contains(k) by {
                        lemma_removed(keys0, i as int, k);
                    }
                    assert forall|k: Seq<char>| self@.pending.dom().contains(k) implies self@.pending[k]
                        == was.pending.remove(id@)[k] by {
                        lemma_removed(keys0, i as int, k);
                    }
                    assert(self@.pending =~= was.pending.remove(id@));
                }
            },
            None => {
                proof {
                    assert(self@.pending =~= was.pending.remove(id@));
                }
            },
        }
    }

    /// Takes `id` out of the table of loaded documents and hands back what
    /// stood there.
    fn drop_open(&mut self, id: &DocumentId) -> (entry: Option<OpenDocument<H>>)
        requires
            old(self).wf(),
        ensures
            final(self).wf(),
            final(self)@.pending == old(self)@.pending,
            final(self)@.content == old(self)@.content.remove(id@),
            final(self)@.handles == old(self)@.handles.remove(id@),
            entry is Some <==> old(self)@.is_open(id@),
            entry is Some ==> entry->0.handle == old(self)@.handles[id@] && entry->0.content
                == old(self)@.content[id@],
    {
        let ghost before = self.open@;
        let ghost was = self@;
        match self.find_open(id) {
            Some(i) => {
                let entry = self.open.remove(i);
                proof {
                    let keys0 = open_ids(before);
                    let keys1 = open_ids(self.open@);
                    assert(keys1 =~= keys0.remove(i as int));
                    lemma_removed(keys0, i as int, id@);
                    assert forall|k: Seq<char>|
                        self@.content.dom().contains(k) <==> was.content.remove(
                            id@,
                        ).dom().contains(k) by {
                        lemma_removed(keys0, i as int, k);
                    }
                    assert forall|k: Seq<char>| self@.content.dom().contains(k) implies self@.content[k]
                        == was.content.remove(id@)[k] && self@.handles[k] == was.handles.remove(
                        id@,
                    )[k] by {
                        lemma_removed(keys0, i as int, k);
                    }
                    assert(self@.content =~= was.content.remove(id@));
                    assert(self@.handles =~= was.handles.remove(id@));
                }
                Some(entry)
            },
            None => {
                proof {
                    assert(self@.content =~= was.content.remove(id@));
                    assert(self@.handles =~= was.handles.remove(id@));
                }
                None
            },
        }
    }

    /// Records that the document was opened under `id` with the given
    /// path. A path recorded earlier under the same id is replaced.
    pub fn register(&mut self, id: DocumentId, path: String)
        requires
            old(self).wf(),
        ensures
            final(self).wf(),
            final(self)@ == old(self)@.registered(id@, path@),
    {
        let ghost was = self@;
        self.drop_pending(&id);
        let ghost middle = self@;
        let ghost keys1 = pending_ids(self.pending@);
        proof {
            assert(!was.pending.remove(id@).dom().contains(id@));
            assert(!middle.pending.dom().contains(id@));
            assert(!holds(keys1, id@));
        }
        self.pending.push(PendingOpen { id, path });
        proof {
            assert(pending_ids(self.pending@) =~= keys1.push(id@));
            lemma_pushed(keys1, id@, id@);
            assert forall|k: Seq<char>|
                self@.pending.dom().contains(k) <==> middle.pending.insert(
                    id@,
                    path@,
                ).dom().contains(k) by {
                lemma_pushed(keys1, id@, k);
            }
            assert forall|k: Seq<char>| self@.pending.dom().contains(k) implies self@.pending[k]
                == middle.pending.insert(id@, path@)[k] by {
                lemma_pushed(keys1, id@, k);
            }
            assert(self@.pending =~= middle.pending.insert(id@, path@));
            assert(middle.pending.insert(id@, path@) =~= was.pending.insert(id@, path@));
            assert(self@.content =~= was.content);
            assert(self@.handles =~= was.handles);
        }
    }

    /// Records that the document was loaded: it is no longer pending, and
    /// its content and handle stand under `id`. A document loaded earlier
    /// under the same id is replaced.
    pub fn complete_load(&mut self, id: DocumentId, handle: H, content: Document)
        requires
            old(self).wf(),
        ensures
            final(self).wf(),
            final(self)@ == old(self)@.loaded(id@, handle, content),
    {
        let ghost was = self@;
        self.drop_pending(&id);
        let _ = self.drop_open(&id);
        let ghost middle = self@;
        let ghost keys1 = open_ids(self.open@);
        proof {
            assert(!was.content.remove(id@).dom().contains(id@));
            assert(!middle.content.dom().contains(id@));
            assert(!holds(keys1, id@));
        }
        self.open.push(OpenDocument { id, handle, content });
        proof {
            assert(open_ids(self.open@) =~= keys1.push(id@));
            lemma_pushed(keys1, id@, id@);
            assert forall|k: Seq<char>|
                self@.content.dom().contains(k) <==> middle.content.insert(
                    id@,
                    content,
                ).dom().contains(k) by {
                lemma_pushed(keys1, id@, k);
            }
            assert forall|k: Seq<char>| self@.content.dom().contains(k) implies self@.content[k]
                == middle.content.insert(id@, content)[k] && self@.handles[k]
                == middle.handles.insert(id@, handle)[k] by {
                lemma_pushed(keys1, id@, k);
            }
            assert(self@.content =~= middle.content.insert(id@, content));
            assert(self@.handles =~= middle.handles.insert(id@, handle));
            assert(middle.content.insert(id@, content) =~= was.content.insert(id@, content));
            assert(middle.handles.insert(id@, handle) =~= was.handles.insert(id@, handle));
            assert(self@.pending =~= was.pending.remove(id@));
        }
    }

    /// Forgets the document: its path, its content and its handle. The
    /// handle is handed back where the document was loaded. Closing a
    /// document that the cache does not know changes nothing.
    pub fn evict(&mut self, id: &DocumentId) -> (handle: Option<H>)
        requires
            old(self).wf(),
        ensures
            final(self).wf(),
            final(self)@ == old(self)@.closed(id@),
            handle is Some <==> old(self)@.is_open(id@),
            handle is Some ==> handle->0 == old(self)@.handles[id@],
    {
        self.drop_pending(id);
        match self.drop_open(id) {
            Some(entry) => Some(entry.handle),
            None => None,
        }
    }
}

} // verus!
