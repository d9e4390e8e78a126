//! The lifecycle of the capture worker.
//!
//! A worker runs on a thread of its own, which the caller owns. This module
//! decides what is done to workers and in which order: every operation
//! returns the commands for the caller to carry out, and the slot remembers
//! which worker is alive. A worker counts as alive from its `Spawn` until its
//! `Join` has returned.

use vstd::prelude::*;

verus! {

/// One live capture worker.
#[derive(Debug, Clone, Copy, PartialEq, Eq, Structural)]
pub struct CaptureHandle {
    /// Tells this worker from those before and after it.
    pub generation_id: u64,
    /// The input device that the worker drives.
    pub device_index: usize,
    /// The outbound queue that the worker writes to.
    pub channel: u64,
}

/// What the caller does to a worker.
#[derive(Debug, Clone, Copy, PartialEq, Eq, Structural)]
pub enum CaptureCommand {
    /// Set the worker's stop flag.
    RequestStop { generation_id: u64 },
    /// Wait until the worker's thread has exited.
    Join { generation_id: u64 },
    /// Start a worker on a new thread.
    Spawn { handle: CaptureHandle },
}

/// An operation on the slot, as a value.
pub enum SlotOp {
    Restart { device_index: usize, channel: u64 },
    Stop,
}

/// The slot that holds the capture worker: at most one at a time.
#[derive(Debug, Clone, Copy, PartialEq, Eq, Structural)]
pub struct AudioCaptureWorker {
    /// The generation that the next worker gets.
    pub next_generation: u64,
    /// The worker that is alive, if any.
    pub handle: Option<CaptureHandle>,
}

/// The generation after `generation`.
pub open spec fn following(generation: u64) -> u64 {
    if generation == u64::MAX {
        0
    } else {
        (generation + 1) as u64
    }
}

/// The workers alive after the commands were carried out, in order, where
/// `alive` were alive before.
pub open spec fn alive_after(alive: Set<u64>, commands: Seq<CaptureCommand>) -> Set<u64>
    decreases commands.len(),
{
    if commands.len() == 0 {
        alive
    } else {
        let before = alive_after(alive, commands.drop_last());
        match commands.last() {
            CaptureCommand::RequestStop { .. } => before,
            CaptureCommand::Join { generation_id } => before.remove(generation_id),
            CaptureCommand::Spawn { handle } => before.insert(handle.generation_id),
        }
    }
}

impl AudioCaptureWorker {
    /// The workers that the slot holds alive.
    pub open spec fn alive(self) -> Set<u64> {
        match self.handle {
            Some(handle) => set![handle.generation_id],
            None => Set::empty(),
        }
    }

    /// The commands that stop the worker of the slot: ask it to stop, then
    /// wait for it. None where no worker is alive.
    pub open spec fn stop_commands(self) -> Seq<CaptureCommand> {
        match self.handle {
            Some(handle) => seq![
                CaptureCommand::RequestStop { generation_id: handle.generation_id },
                CaptureCommand::Join { generation_id: handle.generation_id },
            ],
            None => Seq::empty(),
        }
    }

    /// The slot after its worker was stopped.
    pub open spec fn stopped(self) -> AudioCaptureWorker {
        AudioCaptureWorker { handle: None, ..self }
    }

    /// The worker that a spawn on this slot starts.
    pub open spec fn next_handle(self, device_index: usize, channel: u64) -> CaptureHandle {
        CaptureHandle { generation_id: self.next_generation, device_index, channel }
    }

    /// The commands of a restart: those that stop the present worker, then the
    /// spawn of its replacement.
    pub open spec fn restart_commands(self, device_index: usize, channel: u64) -> Seq<
        CaptureCommand,
    > {
        self.stop_commands().push(
            CaptureCommand::Spawn { handle: self.next_handle(device_index, channel) },
        )
    }

    /// The slot after a restart.
    pub open spec fn restarted(self, device_index: usize, channel: u64) -> AudioCaptureWorker {
        AudioCaptureWorker {
            next_generation: following(self.next_generation),
            handle: Some(self.next_handle(device_index, channel)),
        }
    }

    /// The commands of one operation.
    pub open spec fn commands(self, op: SlotOp) -> Seq<CaptureCommand> {
        match op {
            SlotOp::Restart { device_index, channel } => self.restart_commands(device_index, channel),
            SlotOp::Stop => self.stop_commands(),
        }
    }

    /// The slot after one operation.
    pub open spec fn apply(self, op: SlotOp) -> AudioCaptureWorker {
        match op {
            SlotOp::Restart { device_index, channel } => self.restarted(device_index, channel),
            SlotOp::Stop => self.stopped(),
        }
    }

    /// The slot after the operations, in order.
    pub open spec fn apply_all(self, ops: Seq<SlotOp>) -> AudioCaptureWorker
        decreases ops.len(),
    {
        if ops.len() == 0 {
            self
        } else {
            self.apply_all(ops.drop_last()).apply(ops.last())
        }
    }

    /// The commands of the operations, in order.
    pub open spec fn commands_all(self, ops: Seq<SlotOp>) -> Seq<CaptureCommand>
        decreases ops.len(),
    {
        if ops.len() == 0 {
            Seq::empty()
        } else {
            self.commands_all(ops.drop_last()) + self.apply_all(ops.drop_last()).commands(
                ops.last(),
            )
        }
    }

    /// The slot that never held a worker.
    pub open spec fn unused() -> AudioCaptureWorker {
        AudioCaptureWorker { next_generation: 0, handle: None }
    }

    /// A slot without a worker.
    pub fn idle() -> (slot: Self)
        ensures
            slot == Self::unused(),
    {
        AudioCaptureWorker { next_generation: 0, handle: None }
    }

    /// A slot with its first worker, and the command that starts the worker.
    pub fn spawn(device_index: usize, channel: u64) -> (started: (Self, Vec<CaptureCommand>))
        ensures
            started.0 == Self::unused().restarted(device_index, channel),
            started.1@ == Self::unused().restart_commands(device_index, channel),
    {
        let mut slot = Self::idle();
        let commands = slot.restart(device_index, channel);
        (slot, commands)
    }

    /// Replaces the worker of the slot by one for the given device and queue.
    /// The commands stop and join the present worker before they spawn the
    /// new one.
    pub fn restart(&mut self, device_index: usize, channel: u64) -> (commands: Vec<CaptureCommand>)
        ensures
            *final(self) == old(self).restarted(device_index, channel),
            commands@ == old(self).restart_commands(device_index, channel),
    {
        let handle = CaptureHandle { generation_id: self.next_generation, device_index, channel };
        let mut commands = self.stop();
        commands.push(CaptureCommand::Spawn { handle });
        self.next_generation = if self.next_generation == u64::MAX {
            0
        } else {
            self.next_generation + 1
        };
        self.handle = Some(handle);
        commands
    }

    /// Stops the worker of the slot, if there is one, and waits for it.
    pub fn stop(&mut self) -> (commands: Vec<CaptureCommand>)
        ensures
            *final(self) == old(self).stopped(),
            commands@ == old(self).stop_commands(),
    {
        let mut commands: Vec<CaptureCommand> = Vec::new();
        if let Some(handle) = self.handle {
            commands.push(CaptureCommand::RequestStop { generation_id: handle.generation_id });
            commands.push(CaptureCommand::Join { generation_id: handle.generation_id });
            self.handle = None;
        }
        assert(commands@ =~= old(self).stop_commands());
        commands
    }

    /// Whether a worker is alive.
    pub fn is_running(&self) -> (running: bool)
        ensures
            running == self.handle is Some,
    {
        self.handle.is_some()
    }
}

/// Carrying out two runs of commands one after the other is carrying out
/// their concatenation.
pub proof fn lemma_alive_after_concat(
    alive: Set<u64>,
    first: Seq<CaptureCommand>,
    second: Seq<CaptureCommand>,
)
    ensures
        alive_after(alive, first + second) == alive_after(alive_after(alive, first), second),
    decreases second.len(),
{
    if second.len() == 0 {
        assert(first + second =~= first);
    } else {
        assert((first + second).drop_last() =~= first + second.drop_last());
        lemma_alive_after_concat(alive, first, second.drop_last());
    }
}

/// While the commands of one operation are carried out, at most one worker is
/// alive at any moment, and afterwards the workers alive are those of the slot.
pub proof fn lemma_one_operation(slot: AudioCaptureWorker, op: SlotOp, k: int)
    requires
        0 <= k <= slot.commands(op).len(),
    ensures
        alive_after(slot.alive(), slot.commands(op).take(k)).finite(),
        alive_after(slot.alive(), slot.commands(op).take(k)).len() <= 1,
        alive_after(slot.alive(), slot.commands(op)) == slot.apply(op).alive(),
{
    let commands = slot.commands(op);
    let alive = slot.alive();
    reveal_with_fuel(alive_after, 5);
    assert(commands.take(0) =~= Seq::<CaptureCommand>::empty());
    if commands.len() >= 1 {
        assert(commands.take(1).drop_last() =~= commands.take(0));
    }
    if commands.len() >= 2 {
        assert(commands.take(2).drop_last() =~= commands.take(1));
    }
    if commands.len() >= 3 {
        assert(commands.take(3).drop_last() =~= commands.take(2));
    }
    assert(commands.take(commands.len() as int) =~= commands);
    match slot.handle {
        Some(handle) => {
            assert(alive.remove(handle.generation_id) =~= Set::<u64>::empty());
        },
        None => {},
    }
    assert(alive_after(alive, commands) =~= slot.apply(op).alive());
}

/// Restart ordering: whatever restarts and stops are issued, and however
/// quickly, at no moment while their commands are carried out are two capture
/// workers alive. The moments are the prefixes of the command sequence.
pub proof fn lemma_never_two_alive(slot: AudioCaptureWorker, ops: Seq<SlotOp>, k: int)
    requires
        0 <= k <= slot.commands_all(ops).len(),
    ensures
        alive_after(slot.alive(), slot.commands_all(ops).take(k)).finite(),
        alive_after(slot.alive(), slot.commands_all(ops).take(k)).len() <= 1,
        alive_after(slot.alive(), slot.commands_all(ops)) == slot.apply_all(ops).alive(),
    decreases ops.len(),
{
    if ops.len() == 0 {
        assert(slot.commands_all(ops).take(k) =~= Seq::<CaptureCommand>::empty());
    } else {
        let earlier = slot.commands_all(ops.drop_last());
        let before = slot.apply_all(ops.drop_last());
        let last = before.commands(ops.last());
        lemma_never_two_alive(slot, ops.drop_last(), earlier.len() as int);
        assert(earlier.take(earlier.len() as int) =~= earlier);
        lemma_alive_after_concat(slot.alive(), earlier, last);
        lemma_one_operation(before, ops.last(), last.len() as int);
        assert(last.take(last.len() as int) =~= last);
        if k <= earlier.len() {
            lemma_never_two_alive(slot, ops.drop_last(), k);
            assert((earlier + last).take(k) =~= earlier.take(k));
        } else {
            let within = k - earlier.len();
            lemma_one_operation(before, ops.last(), within);
            assert((earlier + last).take(k) =~= earlier + last.take(within));
            lemma_alive_after_concat(slot.alive(), earlier, last.take(within));
        }
    }
}

} // verus!
