//! Best-effort persistence of rollout history.
use vstd::prelude::*;

verus! {

/// One append-only history record; its contents are opaque to this layer.
pub struct RolloutItem {
    pub payload: String,
}

/// A failure reported by a recorder.
pub struct StorageError {
    pub message: String,
}

/// How loudly a swallowed failure is to be logged.
pub enum Severity {
    Error,
    Warning,
}

/// A failure that persistence swallowed, kept for the owner to log.
pub struct StorageFailure {
    pub severity: Severity,
    pub message: String,
}

/// Where rollout items are finally written (a file, workflow state).
///
/// `recorded` is the sequence of batches handed to `record_items`, and
/// `flushes` the number of `flush` calls, so far, whether or not they
/// succeeded; `failed` counts the calls of either that failed.
pub trait RolloutWriter {
    spec fn recorded(&self) -> Seq<Seq<RolloutItem>>;

    spec fn flushes(&self) -> nat;

    spec fn failed(&self) -> nat;

    fn record_items(&mut self, items: &Vec<RolloutItem>) -> (r: Result<(), StorageError>)
        ensures
            final(self).recorded() == old(self).recorded().push(items@),
            final(self).flushes() == old(self).flushes(),
            final(self).failed() == old(self).failed() + if r is Err { 1nat } else { 0nat },
    ;

    fn flush(&mut self) -> (r: Result<(), StorageError>)
        ensures
            final(self).recorded() == old(self).recorded(),
            final(self).flushes() == old(self).flushes() + 1,
            final(self).failed() == old(self).failed() + if r is Err { 1nat } else { 0nat },
    ;
}

/// Writer that keeps every batch in memory, as durable workflow state does.
/// Once closed it refuses every write and flush.
pub struct MemoryRollout {
    batches: Vec<Vec<RolloutItem>>,
    closed: bool,
    attempts: Ghost<Seq<Seq<RolloutItem>>>,
    flush_count: Ghost<nat>,
    fail_count: Ghost<nat>,
}

impl MemoryRollout {
    /// The batches kept, oldest first.
    pub closed spec fn kept(&self) -> Seq<Seq<RolloutItem>> {
        self.batches@.map_values(|b: Vec<RolloutItem>| b@)
    }

    pub closed spec fn is_closed(&self) -> bool {
        self.closed
    }

    pub fn new() -> (r: MemoryRollout)
        ensures
            r.recorded() == Seq::<Seq<RolloutItem>>::empty(),
            r.kept() == Seq::<Seq<RolloutItem>>::empty(),
            r.flushes() == 0,
            r.failed() == 0,
            !r.is_closed(),
    {
        MemoryRollout {
            batches: Vec::new(),
            closed: false,
            attempts: Ghost(Seq::empty()),
            flush_count: Ghost(0),
            fail_count: Ghost(0),
        }
    }

    /// Closes the log; what it kept stays.
    pub fn close(&mut self)
        ensures
            final(self).is_closed(),
            final(self).kept() == old(self).kept(),
            final(self).recorded() == old(self).recorded(),
            final(self).flushes() == old(self).flushes(),
            final(self).failed() == old(self).failed(),
    {
        self.closed = true;
    }

    /// Number of batches kept.
    pub fn len(&self) -> (r: usize)
        ensures
            r == self.kept().len(),
    {
        self.batches.len()
    }

    /// Keeps a copy of `items` unless the log is closed, which is an error.
    pub fn append(&mut self, items: &Vec<RolloutItem>) -> (r: Result<(), StorageError>)
        ensures
            final(self).recorded() == old(self).recorded().push(items@),
            final(self).flushes() == old(self).flushes(),
            final(self).is_closed() == old(self).is_closed(),
            r is Err <==> old(self).is_closed(),
            final(self).failed() == old(self).failed() + if r is Err { 1nat } else { 0nat },
            final(self).kept() == if old(self).is_closed() {
                old(self).kept()
            } else {
                old(self).kept().push(items@)
            },
    {
        self.attempts = Ghost(self.attempts@.push(items@));
        if self.closed {
            self.fail_count = Ghost(self.fail_count@ + 1);
            return Err(StorageError { message: String::from_str("rollout is closed") });
        }
        let mut copy: Vec<RolloutItem> = Vec::new();
        let mut i: usize = 0;
        while i < items.len()
            invariant
                i <= items@.len(),
                copy@ == items@.subrange(0, i as int),
            decreases items@.len() - i,
        {
            let it = RolloutItem { payload: items[i].payload.clone() };
            copy.push(it);
            assert(items@.subrange(0, i + 1) == items@.subrange(0, i as int).push(items@[i as int]));
            i = i + 1;
        }
        assert(items@.subrange(0, i as int) == items@);
        self.batches.push(copy);
        assert(self.kept() =~= old(self).kept().push(items@));
        Ok(())
    }

    /// Counts the flush; fails once the log is closed.
    pub fn sync(&mut self) -> (r: Result<(), StorageError>)
        ensures
            final(self).recorded() == old(self).recorded(),
            final(self).kept() == old(self).kept(),
            final(self).flushes() == old(self).flushes() + 1,
            final(self).is_closed() == old(self).is_closed(),
            r is Err <==> old(self).is_closed(),
            final(self).failed() == old(self).failed() + if r is Err { 1nat } else { 0nat },
    {
        self.flush_count = Ghost(self.flush_count@ + 1);
        if self.closed {
            self.fail_count = Ghost(self.fail_count@ + 1);
            Err(StorageError { message: String::from_str("rollout is closed") })
        } else {
            Ok(())
        }
    }
}

impl RolloutWriter for MemoryRollout {
    closed spec fn recorded(&self) -> Seq<Seq<RolloutItem>> {
        self.attempts@
    }

    closed spec fn flushes(&self) -> nat {
        self.flush_count@
    }

    closed spec fn failed(&self) -> nat {
        self.fail_count@
    }

    fn record_items(&mut self, items: &Vec<RolloutItem>) -> (r: Result<(), StorageError>) {
        self.append(items)
    }

    fn flush(&mut self) -> (r: Result<(), StorageError>) {
        self.sync()
    }
}

/// The failure to keep for a writer's result `r`: none on success, else one
/// of severity `severity` with the writer's message.
pub fn failure_of(r: Result<(), StorageError>, severity: Severity) -> (f: Option<StorageFailure>)
    ensures
        match r {
            Ok(()) => f is None,
            Err(e) => f == Some(StorageFailure { severity, message: e.message }),
        },
{
    match r {
        Ok(()) => None,
        Err(e) => Some(StorageFailure { severity, message: e.message }),
    }
}

/// Whether `after` is `before` with one failure of severity `sev` added where
/// the writer's call `failed`, and is `before` itself where it did not.
pub open spec fn logged_if_failed(
    before: Seq<StorageFailure>,
    after: Seq<StorageFailure>,
    sev: Severity,
    failed: bool,
) -> bool {
    if failed {
        &&& after.len() == before.len() + 1
        &&& after.drop_last() == before
        &&& after.last().severity == sev
    } else {
        after == before
    }
}

/// Persists rollout items. Neither method reports failure to its caller.
///
/// `saved` is the sequence of batches handed to `save`, and `flushed` the number
/// of `flush` calls, so far. `attached` says whether a durable target is in
/// place; `written` is what has been handed on to it and `synced` the number
/// of flushes requested of it, whether or not they succeeded.
pub trait StorageBackend {
    spec fn saved(&self) -> Seq<Seq<RolloutItem>>;

    spec fn flushed(&self) -> nat;

    spec fn attached(&self) -> bool;

    spec fn written(&self) -> Seq<Seq<RolloutItem>>;

    spec fn synced(&self) -> nat;

    /// Persist one or more rollout items: the target, if attached, is handed
    /// exactly `items`, once.
    fn save(&mut self, items: &Vec<RolloutItem>)
        ensures
            final(self).saved() == old(self).saved().push(items@),
            final(self).flushed() == old(self).flushed(),
            final(self).attached() == old(self).attached(),
            final(self).written() == if old(self).attached() {
                old(self).written().push(items@)
            } else {
                old(self).written()
            },
            final(self).synced() == old(self).synced(),
    ;

    /// Flush buffered writes to durable storage: the target, if attached, is
    /// flushed once.
    fn flush(&mut self)
        ensures
            final(self).saved() == old(self).saved(),
            final(self).flushed() == old(self).flushed() + 1,
            final(self).attached() == old(self).attached(),
            final(self).written() == old(self).written(),
            final(self).synced() == old(self).synced() + if old(self).attached() { 1nat } else { 0nat },
    ;
}

/// Storage that writes through an optional recorder. Without one, items are
/// dropped; a recorder's failures are kept in `failures`, never returned.
pub struct RolloutFileStorage<R: RolloutWriter> {
    recorder: Option<R>,
    failures: Vec<StorageFailure>,
    saved: Ghost<Seq<Seq<RolloutItem>>>,
    flushed: Ghost<nat>,
}

impl<R: RolloutWriter> RolloutFileStorage<R> {
    /// The failures swallowed and not yet taken, oldest first.
    pub closed spec fn failure_log(&self) -> Seq<StorageFailure> {
        self.failures@
    }

    /// The recorder writes go through, if one is installed.
    pub closed spec fn recorder(&self) -> Option<R> {
        self.recorder
    }

    pub fn new(recorder: Option<R>) -> (r: Self)
        ensures
            r.saved() == Seq::<Seq<RolloutItem>>::empty(),
            r.flushed() == 0,
            r.failure_log().len() == 0,
            r.recorder() == recorder,
    {
        RolloutFileStorage { recorder, failures: Vec::new(), saved: Ghost(Seq::empty()), flushed: Ghost(0) }
    }

    /// The installed recorder, if any.
    pub fn installed(&self) -> (r: &Option<R>)
        ensures
            *r == self.recorder(),
    {
        &self.recorder
    }

    /// The failures swallowed so far, oldest first.
    pub fn failures(&self) -> (r: &Vec<StorageFailure>)
        ensures
            r@ == self.failure_log(),
    {
        &self.failures
    }

    /// Hands out the failures swallowed so far and forgets them.
    pub fn take_failures(&mut self) -> (r: Vec<StorageFailure>)
        ensures
            r@ == old(self).failure_log(),
            final(self).failure_log().len() == 0,
            final(self).saved() == old(self).saved(),
            final(self).flushed() == old(self).flushed(),
            final(self).recorder() == old(self).recorder(),
    {
        let mut none: Vec<StorageFailure> = Vec::new();
        std::mem::swap(&mut self.failures, &mut none);
        none
    }

    /// Hands `items` to the recorder, once, and keeps its failure at `Error`
    /// severity. Without a recorder nothing happens. The recorder stays
    /// installed either way, so later calls reach it.
    pub fn save_items(&mut self, items: &Vec<RolloutItem>)
        ensures
            final(self).saved() == old(self).saved().push(items@),
            final(self).flushed() == old(self).flushed(),
            match old(self).recorder() {
                None => {
                    &&& final(self).recorder() is None
                    &&& final(self).failure_log() == old(self).failure_log()
                },
                Some(rec) => {
                    &&& final(self).recorder() is Some
                    &&& final(self).recorder()->Some_0.recorded() == rec.recorded().push(items@)
                    &&& final(self).recorder()->Some_0.flushes() == rec.flushes()
                    &&& final(self).recorder()->Some_0.failed() <= rec.failed() + 1
                    &&& logged_if_failed(
                        old(self).failure_log(),
                        final(self).failure_log(),
                        Severity::Error,
                        final(self).recorder()->Some_0.failed() > rec.failed(),
                    )
                },
            },
    {
        self.saved = Ghost(self.saved@.push(items@));
        match &mut self.recorder {
            Some(rec) => {
                let r = rec.record_items(items);
                match failure_of(r, Severity::Error) {
                    Some(f) => {
                        let ghost before = self.failures@;
                        self.failures.push(f);
                        assert(self.failures@.drop_last() == before);
                    },
                    None => {},
                }
            },
            None => {},
        }
    }

    /// Calls the recorder's flush, once, and keeps its failure at `Warning`
    /// severity. Without a recorder nothing happens. The recorder stays
    /// installed either way, so later calls reach it.
    pub fn flush_recorder(&mut self)
        ensures
            final(self).saved() == old(self).saved(),
            final(self).flushed() == old(self).flushed() + 1,
            match old(self).recorder() {
                None => {
                    &&& final(self).recorder() is None
                    &&& final(self).failure_log() == old(self).failure_log()
                },
                Some(rec) => {
                    &&& final(self).recorder() is Some
                    &&& final(self).recorder()->Some_0.recorded() == rec.recorded()
                    &&& final(self).recorder()->Some_0.flushes() == rec.flushes() + 1
                    &&& final(self).recorder()->Some_0.failed() <= rec.failed() + 1
                    &&& logged_if_failed(
                        old(self).failure_log(),
                        final(self).failure_log(),
                        Severity::Warning,
                        final(self).recorder()->Some_0.failed() > rec.failed(),
                    )
                },
            },
    {
        self.flushed = Ghost(self.flushed@ + 1);
        match &mut self.recorder {
            Some(rec) => {
                let r = rec.flush();
                match failure_of(r, Severity::Warning) {
                    Some(f) => {
                        let ghost before = self.failures@;
                        self.failures.push(f);
                        assert(self.failures@.drop_last() == before);
                    },
                    None => {},
                }
            },
            None => {},
        }
    }
}

impl<R: RolloutWriter> StorageBackend for RolloutFileStorage<R> {
    closed spec fn saved(&self) -> Seq<Seq<RolloutItem>> {
        self.saved@
    }

    closed spec fn flushed(&self) -> nat {
        self.flushed@
    }

    closed spec fn attached(&self) -> bool {
        self.recorder is Some
    }

    closed spec fn written(&self) -> Seq<Seq<RolloutItem>> {
        match self.recorder {
            Some(rec) => rec.recorded(),
            None => Seq::empty(),
        }
    }

    closed spec fn synced(&self) -> nat {
        match self.recorder {
            Some(rec) => rec.flushes(),
            None => 0,
        }
    }

    fn save(&mut self, items: &Vec<RolloutItem>) {
        self.save_items(items);
    }

    fn flush(&mut self) {
        self.flush_recorder();
    }
}

/// Saves every batch of `batches` in order and then flushes: a failed save
/// stops none of the calls after it.
pub fn persist_all<S: StorageBackend>(storage: &mut S, batches: &Vec<Vec<RolloutItem>>)
    ensures
        final(storage).saved().len() == old(storage).saved().len() + batches@.len(),
        forall|i: int|
            0 <= i < batches@.len() ==> #[trigger] final(storage).saved()[old(storage).saved().len() + i]
                == batches@[i]@,
        final(storage).flushed() == old(storage).flushed() + 1,
        final(storage).attached() == old(storage).attached(),
        old(storage).attached() ==> {
            &&& final(storage).written() == old(storage).written() + batches@.map_values(
                |b: Vec<RolloutItem>| b@,
            )
            &&& final(storage).synced() == old(storage).synced() + 1
        },
        !old(storage).attached() ==> {
            &&& final(storage).written() == old(storage).written()
            &&& final(storage).synced() == old(storage).synced()
        },
{
    let ghost start = storage.saved();
    let ghost all = batches@.map_values(|b: Vec<RolloutItem>| b@);
    assert(all.len() == batches@.len());
    let mut i: usize = 0;
    while i < batches.len()
        invariant
            0 <= i <= batches@.len(),
            all == batches@.map_values(|b: Vec<RolloutItem>| b@),
            all.len() == batches@.len(),
            storage.saved().len() == start.len() + i,
            storage.saved().subrange(0, start.len() as int) == start,
            forall|j: int| 0 <= j < i ==> #[trigger] storage.saved()[start.len() + j] == batches@[j]@,
            storage.flushed() == old(storage).flushed(),
            storage.attached() == old(storage).attached(),
            storage.synced() == old(storage).synced(),
            old(storage).attached() ==> storage.written() == old(storage).written() + all.subrange(0, i as int),
            !old(storage).attached() ==> storage.written() == old(storage).written(),
        decreases batches@.len() - i,
    {
        let ghost prev = storage.saved();
        let ghost prev_written = storage.written();
        storage.save(&batches[i]);
        assert(all[i as int] == batches@[i as int]@);
        assert(storage.saved().subrange(0, start.len() as int) == prev.subrange(0, start.len() as int));
        assert(all.subrange(0, i + 1) == all.subrange(0, i as int).push(all[i as int]));
        assert(old(storage).written() + all.subrange(0, i + 1) == (old(storage).written() + all.subrange(
            0,
            i as int,
        )).push(all[i as int]));
        i = i + 1;
    }
    assert(all.subrange(0, i as int) == all);
    storage.flush();
}

} // verus!
