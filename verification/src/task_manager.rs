//! The task slot pool: at most one in-flight worker per command kind.
//! Issuing a command mints a fresh worker for that kind's slot and fires
//! the cancellation signal of the slot's previous occupant — without ever
//! waiting for it — so the input thread that calls `execute` never blocks.

use std::sync::mpsc::Receiver;
use std::sync::mpsc::Sender;
use vstd::prelude::*;

use crate::package_manager::COMMAND_KINDS;
use crate::package_manager::Command;
use crate::package_manager::lemma_slot_index_injective;

verus! {

#[verifier::external_type_specification]
#[verifier::external_body]
#[verifier::reject_recursive_types(T)]
pub struct ExSender<T>(Sender<T>);

#[verifier::external_type_specification]
#[verifier::external_body]
#[verifier::reject_recursive_types(T)]
pub struct ExReceiver<T>(Receiver<T>);

/// Relies on std::sync::mpsc::channel: a fresh single-use notification
/// channel from the pool to one worker.
#[verifier::external_body]
fn signal_channel() -> (Sender<bool>, Receiver<bool>) {
    std::sync::mpsc::channel()
}

/// Relies on std::sync::mpsc::Sender::send: best-effort delivery that
/// never blocks and never panics; it fails only when the receiving side
/// is already gone, which the pool deliberately ignores.
#[verifier::external_body]
fn send_stale_notice(tx: &Sender<bool>) -> (delivered: bool) {
    tx.send(true).is_ok()
}

/// The one way `execute` can fail: the pool cannot construct a fresh
/// cancellation identity for the new worker. The external command's own
/// failure is never an error here — the worker resolves it locally.
#[derive(Clone, Copy, PartialEq, Eq, Structural, Debug)]
pub enum ExecutionError {
    WorkerIdsExhausted,
}

/// One in-flight worker as the pool sees it: the sending half of its
/// cancellation channel and its identity. The pool never reads a worker's
/// result and never joins its thread; the handle exists solely to tell a
/// stale worker to stop.
pub struct Worker {
    tx: Sender<bool>,
    id: u64,
}

impl Worker {
    fn new(tx: Sender<bool>, id: u64) -> (r: Worker)
        ensures
            r.id == id,
    {
        Worker { tx, id }
    }

    /// Fire the worker's cancellation signal. Fire-and-forget: sending to
    /// a worker that already finished must not fail the caller, so the
    /// delivery outcome is dropped and stopping always succeeds.
    pub fn stop(&self) -> (r: Result<(), ExecutionError>)
        ensures
            r is Ok,
    {
        let _delivered = send_stale_notice(&self.tx);
        Ok(())
    }
}

/// The pool's mathematical model: which worker identity occupies each
/// slot, which identities were handed out so far, and which workers have
/// been told to stop.
pub ghost struct PoolModel {
    pub slots: Map<Command, nat>,
    pub next: nat,
    pub cancelled: Set<nat>,
}

impl PoolModel {
    pub open spec fn wf(self) -> bool {
        &&& forall|c1: Command, c2: Command|
            self.slots.dom().contains(c1) && self.slots.dom().contains(c2) && c1 != c2
                ==> self.slots[c1] != self.slots[c2]
        &&& forall|c: Command| self.slots.dom().contains(c) ==> self.slots[c] < self.next
        &&& forall|c: Command|
            self.slots.dom().contains(c) ==> !self.cancelled.contains(self.slots[c])
        &&& forall|id: nat| self.cancelled.contains(id) ==> id < self.next
    }

    /// The worker `id` occupies the slot of kind `c` and has not been
    /// told to stop.
    pub open spec fn alive(self, id: nat, c: Command) -> bool {
        self.slots.dom().contains(c) && self.slots[c] == id && !self.cancelled.contains(id)
    }

    /// One issue of a command: a fresh worker takes the kind's slot, and
    /// the previous occupant, if there was one, is cancelled.
    pub open spec fn step(self, c: Command) -> PoolModel {
        PoolModel {
            slots: self.slots.insert(c, self.next),
            next: self.next + 1,
            cancelled: if self.slots.dom().contains(c) {
                self.cancelled.insert(self.slots[c])
            } else {
                self.cancelled
            },
        }
    }
}

pub proof fn lemma_step_preserves_wf(m: PoolModel, c: Command)
    requires
        m.wf(),
    ensures
        m.step(c).wf(),
{
}

/// At most one worker per slot, here as a consequence of the model's
/// shape: two workers alive for the same command kind are the same
/// worker, in every pool state.
pub proof fn lemma_slot_holds_one_worker(m: PoolModel, c: Command, id1: nat, id2: nat)
    requires
        m.alive(id1, c),
        m.alive(id2, c),
    ensures
        id1 == id2,
{
}

/// Superseding a slot: the moment `execute(c)` returns, the only worker
/// alive for `c` is the fresh one, and the previous occupant — if the
/// slot was taken — has been signalled to cancel, even though nobody
/// waited for it to exit.
pub proof fn lemma_at_most_one_per_slot(m: PoolModel, c: Command)
    requires
        m.wf(),
    ensures
        forall|id: nat| m.step(c).alive(id, c) <==> id == m.next,
        m.slots.dom().contains(c) ==> m.step(c).cancelled.contains(m.slots[c]) && !m.step(c).alive(
            m.slots[c],
            c,
        ),
{
}

/// Slot independence: issuing a command of one kind neither replaces nor
/// cancels the worker of any other kind.
pub proof fn lemma_slot_independence(m: PoolModel, c: Command, other: Command, id: nat)
    requires
        m.wf(),
        other != c,
    ensures
        m.step(c).slots.dom().contains(other) == m.slots.dom().contains(other),
        m.slots.dom().contains(other) ==> m.step(c).slots[other] == m.slots[other],
        m.step(c).alive(id, other) <==> m.alive(id, other),
{
}

/// The pool after a whole sequence of issues.
pub open spec fn step_all(m: PoolModel, commands: Seq<Command>) -> PoolModel
    decreases commands.len(),
{
    if commands.len() == 0 {
        m
    } else {
        step_all(m.step(commands.first()), commands.drop_first())
    }
}

/// However many commands are issued, in whatever order, every slot still
/// holds at most one live worker and the model stays well-formed.
pub proof fn lemma_step_all_preserves_wf(m: PoolModel, commands: Seq<Command>)
    requires
        m.wf(),
    ensures
        step_all(m, commands).wf(),
    decreases commands.len(),
{
    if commands.len() > 0 {
        lemma_step_preserves_wf(m, commands.first());
        lemma_step_all_preserves_wf(m.step(commands.first()), commands.drop_first());
    }
}

/// Slot independence over whole histories: a live worker survives any
/// sequence of issues of other kinds — only its own kind can supersede
/// it.
pub proof fn lemma_other_kinds_never_cancel(
    m: PoolModel,
    commands: Seq<Command>,
    k: Command,
    id: nat,
)
    requires
        m.wf(),
        forall|i: int| 0 <= i < commands.len() ==> commands[i] != k,
    ensures
        step_all(m, commands).wf(),
        step_all(m, commands).alive(id, k) <==> m.alive(id, k),
    decreases commands.len(),
{
    if commands.len() > 0 {
        lemma_step_preserves_wf(m, commands.first());
        lemma_slot_independence(m, commands.first(), k, id);
        lemma_other_kinds_never_cancel(m.step(commands.first()), commands.drop_first(), k, id);
    }
}

/// At-most-one-per-slot, stated over whole histories: however many times
/// one kind is issued back to back, the moment the last issue returns the
/// only worker alive for that kind is the newest one — every earlier one
/// has been cancelled.
pub proof fn lemma_reissuing_leaves_newest_alive(m: PoolModel, commands: Seq<Command>, k: Command)
    requires
        m.wf(),
        commands.len() > 0,
        forall|i: int| 0 <= i < commands.len() ==> commands[i] == k,
    ensures
        step_all(m, commands).wf(),
        step_all(m, commands).next == m.next + commands.len(),
        forall|id: nat| step_all(m, commands).alive(id, k) <==> id + 1 == step_all(m, commands).next,
    decreases commands.len(),
{
    lemma_step_preserves_wf(m, commands.first());
    lemma_at_most_one_per_slot(m, commands.first());
    if commands.len() == 1 {
        assert(step_all(m.step(k), commands.drop_first()) == m.step(k));
    } else {
        lemma_reissuing_leaves_newest_alive(m.step(k), commands.drop_first(), k);
    }
}

/// The scheduling core: a fixed slot per command kind, each holding the
/// handle of the kind's one in-flight worker.
pub struct TaskManager {
    slots: Vec<Option<Worker>>,
    next_id: u64,
    cancelled: Ghost<Set<nat>>,
}

impl View for TaskManager {
    type V = PoolModel;

    closed spec fn view(&self) -> PoolModel {
        PoolModel {
            slots: Map::new(
                |c: Command| self.slots@[c.spec_slot_index()] is Some,
                |c: Command|
                    match self.slots@[c.spec_slot_index()] {
                        Some(w) => w.id as nat,
                        None => 0,
                    },
            ),
            next: self.next_id as nat,
            cancelled: self.cancelled@,
        }
    }
}

impl TaskManager {
    pub closed spec fn wf(self) -> bool {
        self.slots@.len() == COMMAND_KINDS && self@.wf()
    }

    /// An empty pool: no slot is taken, no identity handed out.
    pub fn new() -> (r: TaskManager)
        ensures
            r.wf(),
            r@.slots == Map::<Command, nat>::empty(),
            r@.next == 0,
            r@.cancelled == Set::<nat>::empty(),
    {
        let mut slots: Vec<Option<Worker>> = Vec::new();
        let mut i: usize = 0;
        while i < COMMAND_KINDS
            invariant
                i <= COMMAND_KINDS,
                slots@.len() == i,
                forall|k: int| 0 <= k < i ==> slots@[k] is None,
            decreases COMMAND_KINDS - i,
        {
            slots.push(None);
            i = i + 1;
        }
        let r = TaskManager { slots, next_id: 0, cancelled: Ghost(Set::empty()) };
        proof {
            assert(r@.slots =~= Map::<Command, nat>::empty());
        }
        r
    }

    /// Issue a command: mint a fresh worker handle for the kind's slot
    /// and return the receiving half of its cancellation channel, for the
    /// caller to hand to the worker it starts. If the slot was taken, the
    /// previous occupant's cancellation signal is fired before this
    /// returns — but its thread is not awaited, so the caller never
    /// blocks. Fails only when no fresh worker identity is left.
    pub fn execute(&mut self, command: Command) -> (r: Result<Receiver<bool>, ExecutionError>)
        requires
            old(self).wf(),
        ensures
            final(self).wf(),
            r is Ok <==> old(self)@.next < u64::MAX as nat,
            r is Ok ==> final(self)@ == old(self)@.step(command),
            r is Err ==> *final(self) == *old(self),
    {
        if self.next_id == u64::MAX {
            return Err(ExecutionError::WorkerIdsExhausted);
        }
        let ghost m0 = self@;
        let (tx, rx) = signal_channel();
        let id = self.next_id;
        self.next_id = id + 1;
        let idx = command.slot_index();
        let previous = self.slots.remove(idx);
        self.slots.insert(idx, Some(Worker::new(tx, id)));
        proof {
            assert(self.slots@ =~= old(self).slots@.update(
                command.spec_slot_index(),
                self.slots@[command.spec_slot_index()],
            ));
        }
        if let Some(worker) = previous {
            let _ = worker.stop();
            proof {
                self.cancelled@ = self.cancelled@.insert(worker.id as nat);
            }
        }
        proof {
            assert forall|c: Command| c != command implies c.spec_slot_index()
                != command.spec_slot_index() by {
                lemma_slot_index_injective(c, command);
            }
            assert(self@.slots =~= m0.slots.insert(command, m0.next));
            assert(m0.slots.dom().contains(command) <==> old(self).slots@[command.spec_slot_index()]
                is Some);
            if m0.slots.dom().contains(command) {
                assert(self@.cancelled =~= m0.cancelled.insert(m0.slots[command]));
            } else {
                assert(self@.cancelled =~= m0.cancelled);
            }
            assert(self@ == m0.step(command));
            lemma_step_preserves_wf(m0, command);
        }
        Ok(rx)
    }
}

} // verus!
