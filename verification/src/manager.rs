//! The document manager: the one entry point for clients.
//!
//! The manager mints the id of every opened document and owns the sending
//! ends of the workers' request queues. Every request for a document goes
//! to the worker that the document's id selects, so the worker that loaded
//! a document is the one that serves it and the one that closes it.

use vstd::prelude::*;
use flume::Receiver;
use crate::channel::{bounded_channel, wait_for_message};
use crate::document::DocumentId;
use crate::errors::PdfError;
use crate::ident::{is_document_id, random_document_id};
use crate::strings::chars_of;
use crate::worker::{open_request, PdfEvent, PdfWorker};

verus! {

/// The modulus of the checksum that selects a worker.
pub const CHECKSUM_MODULUS: u64 = 0x1_0000_0000;

/// The sum of the code points of an id, modulo [`CHECKSUM_MODULUS`].
pub open spec fn checksum(id: Seq<char>) -> nat
    decreases id.len(),
{
    if id.len() == 0 {
        0
    } else {
        (checksum(id.drop_last()) + id.last() as u32 as nat) % (CHECKSUM_MODULUS as nat)
    }
}

/// The index of the worker that serves a document, among `workers`
/// workers. It depends on the id alone.
pub open spec fn route_index(id: Seq<char>, workers: nat) -> nat
    recommends
        workers > 0,
{
    checksum(id) % workers
}

/// What `open` comes to once the worker's answer is in: the new id where
/// the worker recorded the document, the worker's error where it refused,
/// and a dispatch failure where no answer came.
pub open spec fn open_outcome_of(id: DocumentId, received: Option<Result<(), PdfError>>) -> Result<
    DocumentId,
    PdfError,
> {
    match received {
        Some(Ok(())) => Ok(id),
        Some(Err(e)) => Err(e),
        None => Err(PdfError::DispatchFailure),
    }
}

/// What a forwarded request comes to once the worker's answer is in: the
/// answer itself, or a dispatch failure where none came.
pub open spec fn settled<T>(received: Option<Result<T, PdfError>>) -> Result<T, PdfError> {
    match received {
        Some(answer) => answer,
        None => Err(PdfError::DispatchFailure),
    }
}

/// Turns what was received on a reply channel into the caller's result.
pub fn settle_reply<T>(received: Option<Result<T, PdfError>>) -> (result: Result<T, PdfError>)
    ensures
        result == settled(received),
{
    match received {
        Some(answer) => answer,
        None => Err(PdfError::DispatchFailure),
    }
}

/// Turns what was received in answer to an `Open` request into the result
/// of `open`.
pub fn open_outcome(id: DocumentId, received: Option<Result<(), PdfError>>) -> (result: Result<
    DocumentId,
    PdfError,
>)
    ensures
        result == open_outcome_of(id, received),
{
    match received {
        Some(Ok(())) => Ok(id),
        Some(Err(e)) => Err(e),
        None => Err(PdfError::DispatchFailure),
    }
}

/// Waits for the reply to a request that was submitted, or reports a
/// dispatch failure for one that was not.
pub fn await_reply<T>(sent: bool, receiver: &Receiver<Result<T, PdfError>>) -> (result: Result<
    T,
    PdfError,
>)
    ensures
        !sent ==> result is Err && result->Err_0 == PdfError::DispatchFailure,
{
    if !sent {
        return Err(PdfError::DispatchFailure);
    }
    settle_reply(wait_for_message(receiver))
}

/// The number of messages that a reply channel holds: the one reply.
pub const REPLY_CAPACITY: usize = 1;

/// The index of the worker that serves a document.
pub fn route(id: &DocumentId, workers: usize) -> (index: usize)
    requires
        workers > 0,
    ensures
        index == route_index(id@, workers as nat),
        index < workers,
{
    let chars = chars_of(id.as_str());
    let mut sum: u64 = 0;
    let mut i: usize = 0;
    proof {
        assert(chars@.take(0) =~= Seq::<char>::empty());
    }
    while i < chars.len()
        invariant
            i <= chars@.len(),
            sum < CHECKSUM_MODULUS,
            sum == checksum(chars@.take(i as int)),
        decreases chars@.len() - i,
    {
        proof {
            assert(chars@.take(i + 1).drop_last() =~= chars@.take(i as int));
            assert(chars@.take(i + 1).last() == chars@[i as int]);
        }
        let code: u32 = chars[i] as u32;
        sum = (sum + code as u64) % CHECKSUM_MODULUS;
        i += 1;
    }
    proof {
        assert(chars@.take(i as int) =~= chars@);
    }
    (sum % (workers as u64)) as usize
}

/// The one entry point for clients.
pub struct DocumentManager {
    workers: Vec<PdfWorker>,
}

impl DocumentManager {
    #[verifier::type_invariant]
    spec fn staffed(&self) -> bool {
        self.workers@.len() > 0
    }

    /// The number of workers.
    pub closed spec fn pool_size(&self) -> nat {
        self.workers@.len()
    }

    /// The workers, in the order that routing counts them.
    pub closed spec fn pool(&self) -> Seq<PdfWorker> {
        self.workers@
    }

    /// A manager in front of a single worker.
    pub fn new(worker: PdfWorker) -> (manager: Self)
        ensures
            manager.pool() == seq![worker],
    {
        let mut workers: Vec<PdfWorker> = Vec::new();
        workers.push(worker);
        assert(workers@ =~= seq![worker]);
        DocumentManager { workers }
    }

    /// A manager in front of a pool of workers, or `None` where the pool
    /// is empty.
    pub fn with_pool(workers: Vec<PdfWorker>) -> (manager: Option<Self>)
        ensures
            manager is Some <==> workers@.len() > 0,
            manager is Some ==> manager->0.pool() == workers@,
    {
        if workers.len() == 0 {
            None
        } else {
            Some(DocumentManager { workers })
        }
    }

    /// The number of workers.
    pub fn worker_count(&self) -> (n: usize)
        ensures
            n == self.pool_size(),
            n > 0,
    {
        proof {
            use_type_invariant(self);
        }
        self.workers.len()
    }

    /// The worker that serves the document with the given id: always the
    /// same one for the same id.
    pub fn worker(&self, id: &DocumentId) -> (worker: &PdfWorker)
        ensures
            self.pool_size() > 0,
            *worker == self.pool()[route_index(id@, self.pool_size()) as int],
    {
        proof {
            use_type_invariant(self);
        }
        let index = route(id, self.workers.len());
        &self.workers[index]
    }

    /// Puts a request into the queue of the worker that the request's
    /// document selects. It is not taken when that worker is gone; the
    /// request then comes back as it was.
    pub fn submit(&self, event: PdfEvent) -> (outcome: Result<(), PdfEvent>)
        ensures
            outcome matches Err(back) ==> back == event,
    {
        let worker = self.worker(event.id());
        worker.submit(event)
    }

    /// The first half of `open`: mints the id of a document and submits
    /// the request that has the id's worker record the path. The document
    /// is not loaded yet. `reachable` tells whether the caller found a
    /// readable file at `path`. The receiving end of the reply channel is
    /// handed out with the id.
    ///
    /// An empty or unreachable path is refused before anything is minted
    /// or sent. A request that the worker's queue does not take ends in a
    /// dispatch failure.
    pub fn begin_open(&self, path: String, reachable: bool) -> (result: Result<
        (DocumentId, Receiver<Result<(), PdfError>>),
        PdfError,
    >)
        ensures
            path@.len() == 0 || !reachable ==> result is Err && result->Err_0
                == PdfError::InvalidArgument,
            path@.len() > 0 && reachable ==> match result {
                Ok(started) => is_document_id(started.0@),
                Err(e) => e == PdfError::DispatchFailure,
            },
    {
        if path.as_str().is_empty() || !reachable {
            return Err(PdfError::InvalidArgument);
        }
        let id = random_document_id();
        let (reply, receiver) = bounded_channel::<Result<(), PdfError>>(REPLY_CAPACITY);
        match self.submit(open_request(id.clone(), path, reply)) {
            Ok(()) => Ok((id, receiver)),
            Err(_) => Err(PdfError::DispatchFailure),
        }
    }

    /// Opens a document: mints its id, has the id's worker record the
    /// path, and waits for the worker's answer.
    ///
    /// An empty or unreachable path is refused before anything is minted
    /// or sent. Otherwise the result is decided by the worker's answer, as
    /// [`open_outcome_of`] says, and an id that is handed out has the form
    /// of a document id.
    pub fn open(&mut self, path: String, reachable: bool) -> (result: Result<DocumentId, PdfError>)
        ensures
            final(self).pool() == old(self).pool(),
            path@.len() == 0 || !reachable ==> result is Err && result->Err_0
                == PdfError::InvalidArgument,
            result is Ok ==> is_document_id(result->Ok_0@),
    {
        match self.begin_open(path, reachable) {
            Err(e) => Err(e),
            Ok((id, receiver)) => open_outcome(id, wait_for_message(&receiver)),
        }
    }
}

} // verus!
