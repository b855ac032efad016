//! The ring of command buffers that compute and graphics submissions cycle
//! through, paced by a timeline semaphore: a slot is recorded again only after
//! the GPU has finished the work last submitted from it.
use vstd::prelude::*;

verus! {

/// One command buffer of the ring and the timeline value its last submission signals.
#[derive(Debug, Clone, Copy, PartialEq, Eq, Structural)]
pub struct CommandSlot {
    /// The command buffer, by its raw handle.
    pub cmd: u64,
    pub last_submitted_timeline_value: u64,
}

/// The command buffers that submissions take in turn.
pub struct TimelineCommandRing {
    pub slots: Vec<CommandSlot>,
    /// How many submissions have completed; the next one uses slot
    /// `next_slot_idx % slots.len()`.
    pub next_slot_idx: usize,
}

/// The slot a submission is to use, and what it must wait for first.
#[derive(Debug, Clone, Copy, PartialEq, Eq, Structural)]
pub struct SlotReservation {
    pub slot_idx: usize,
    pub cmd: u64,
    /// The timeline value the GPU must reach before the slot's command buffer
    /// may be reset; `None` when it has reached it already.
    pub wait_for: Option<u64>,
}

/// Whether no slot's last value exceeds the last value handed out by the counter.
pub open spec fn values_bounded(slots: Seq<CommandSlot>, counter: u64) -> bool {
    forall|i: int| 0 <= i < slots.len() ==> #[trigger] slots[i].last_submitted_timeline_value <= counter
}

/// The reservation the next submission gets from a ring whose slots are
/// `slots` and whose completed submissions number `next_slot_idx`, when the
/// GPU's timeline has reached `current_gpu_value`.
pub open spec fn spec_reservation(slots: Seq<CommandSlot>, next_slot_idx: usize, current_gpu_value: u64) -> SlotReservation {
    let i = next_slot_idx as int % slots.len() as int;
    SlotReservation {
        slot_idx: i as usize,
        cmd: slots[i].cmd,
        wait_for: if current_gpu_value < slots[i].last_submitted_timeline_value {
            Some(slots[i].last_submitted_timeline_value)
        } else {
            None
        },
    }
}

/// The slots after the submission from slot `slot_idx` signals `value`.
pub open spec fn spec_completed(slots: Seq<CommandSlot>, slot_idx: int, value: u64) -> Seq<CommandSlot> {
    slots.update(slot_idx, CommandSlot { cmd: slots[slot_idx].cmd, last_submitted_timeline_value: value })
}

impl TimelineCommandRing {
    /// A ring over the given command buffers, none of which has been submitted.
    pub fn new(cmds: &Vec<u64>) -> (r: TimelineCommandRing)
        ensures
            r.slots@.len() == cmds@.len(),
            r.next_slot_idx == 0,
            forall|i: int| 0 <= i < cmds@.len() ==> #[trigger] r.slots@[i] == (CommandSlot {
                cmd: cmds@[i],
                last_submitted_timeline_value: 0,
            }),
    {
        let mut slots: Vec<CommandSlot> = Vec::new();
        let mut i: usize = 0;
        while i < cmds.len()
            invariant
                i <= cmds@.len(),
                slots@.len() == i,
                forall|j: int| 0 <= j < i ==> #[trigger] slots@[j] == (CommandSlot {
                    cmd: cmds@[j],
                    last_submitted_timeline_value: 0,
                }),
            decreases cmds.len() - i,
        {
            slots.push(CommandSlot { cmd: cmds[i], last_submitted_timeline_value: 0 });
            i += 1;
        }
        TimelineCommandRing { slots, next_slot_idx: 0 }
    }

    /// The slot the next submission uses, given the value the GPU's timeline has
    /// reached: the slots are taken in turn, and a slot whose last submission
    /// the GPU has not finished must be waited for.
    pub fn acquire_slot(&self, current_gpu_value: u64) -> (r: SlotReservation)
        requires
            self.slots@.len() > 0,
        ensures
            r.slot_idx as int == self.next_slot_idx as int % self.slots@.len() as int,
            r.cmd == self.slots@[r.slot_idx as int].cmd,
            r.wait_for == (if current_gpu_value < self.slots@[r.slot_idx as int].last_submitted_timeline_value {
                Some(self.slots@[r.slot_idx as int].last_submitted_timeline_value)
            } else {
                None
            }),
            r == spec_reservation(self.slots@, self.next_slot_idx, current_gpu_value),
    {
        let slot_idx = self.next_slot_idx % self.slots.len();
        let slot = self.slots[slot_idx];
        let wait_for = if current_gpu_value < slot.last_submitted_timeline_value {
            Some(slot.last_submitted_timeline_value)
        } else {
            None
        };
        SlotReservation { slot_idx, cmd: slot.cmd, wait_for }
    }

    /// Records that the submission from slot `slot_idx` signals `value`, and
    /// moves on to the next slot.
    pub fn complete_submission(&mut self, slot_idx: usize, value: u64)
        requires
            slot_idx < old(self).slots@.len(),
            old(self).next_slot_idx < usize::MAX,
        ensures
            final(self).slots@ == old(self).slots@.update(
                slot_idx as int,
                CommandSlot { cmd: old(self).slots@[slot_idx as int].cmd, last_submitted_timeline_value: value },
            ),
            final(self).next_slot_idx == old(self).next_slot_idx + 1,
    {
        let cmd = self.slots[slot_idx].cmd;
        self.slots.set(slot_idx, CommandSlot { cmd, last_submitted_timeline_value: value });
        self.next_slot_idx = self.next_slot_idx + 1;
    }
}

/// Takes the next timeline value: the counter advances by one and the new
/// value is returned.
pub fn next_timeline_value(counter: &mut u64) -> (r: u64)
    requires
        *old(counter) < u64::MAX,
    ensures
        r == *old(counter) + 1,
        *final(counter) == r,
{
    *counter = *counter + 1;
    *counter
}

/// A submission keeps the timeline in order: after taking the next value from
/// the counter and completing a submission with it, no slot's value exceeds the
/// counter, and the value just signalled exceeds every value signalled before.
pub proof fn lemma_submission_keeps_timeline_order(slots: Seq<CommandSlot>, counter: u64, slot_idx: int)
    requires
        values_bounded(slots, counter),
        counter < u64::MAX,
        0 <= slot_idx < slots.len(),
    ensures
        ({
            let value = (counter + 1) as u64;
            let after = slots.update(
                slot_idx,
                CommandSlot { cmd: slots[slot_idx].cmd, last_submitted_timeline_value: value },
            );
            &&& values_bounded(after, value)
            &&& forall|i: int| 0 <= i < slots.len() ==> #[trigger] slots[i].last_submitted_timeline_value < value
        }),
{
    let value = (counter + 1) as u64;
    let after = slots.update(slot_idx, CommandSlot { cmd: slots[slot_idx].cmd, last_submitted_timeline_value: value });
    assert forall|i: int| 0 <= i < after.len() implies #[trigger] after[i].last_submitted_timeline_value <= value by {
        if i != slot_idx {
            assert(after[i] == slots[i]);
        }
    }
}

/// The slots are taken in turn: the submission `len` completions after a
/// given one uses the same slot again, and none in between does.
pub proof fn lemma_slots_taken_in_turn(n: int, len: int)
    requires
        n >= 0,
        len > 0,
    ensures
        (n + len) % len == n % len,
        forall|k: int| 0 < k < len ==> #[trigger] ((n + k) % len) != n % len,
{
    vstd::arithmetic::div_mod::lemma_mod_add_multiples_vanish(n, len);
    assert forall|k: int| 0 < k < len implies #[trigger] ((n + k) % len) != n % len by {
        vstd::arithmetic::div_mod::lemma_fundamental_div_mod(n, len);
        vstd::arithmetic::div_mod::lemma_fundamental_div_mod(n + k, len);
        if (n + k) % len == n % len {
            let q1 = n / len;
            let q2 = (n + k) / len;
            assert(k == (q2 - q1) * len) by (nonlinear_arith)
                requires
                    n == len * q1 + n % len,
                    n + k == len * q2 + (n + k) % len,
                    (n + k) % len == n % len,
            ;
            assert(false) by (nonlinear_arith)
                requires
                    k == (q2 - q1) * len,
                    0 < k < len,
            ;
        }
    }
}

/// Two successive submissions through one ring and one counter: the second
/// signals a larger timeline value than the first, and each reservation asks
/// to wait, before its command buffer is reset, for exactly the value its slot
/// last signalled whenever the GPU has not reached it; so a command buffer is
/// never recorded again while the work last submitted from it may still run.
/// The counts stay below their maxima, where taking the next value or moving
/// to the next slot would overflow.
pub proof fn lemma_successive_submissions(
    slots: Seq<CommandSlot>,
    next_slot_idx: usize,
    counter: u64,
    gpu_value_1: u64,
    gpu_value_2: u64,
)
    requires
        0 < slots.len() <= usize::MAX,
        values_bounded(slots, counter),
        counter + 2 <= u64::MAX,
        next_slot_idx + 2 <= usize::MAX,
    ensures
        ({
            let r1 = spec_reservation(slots, next_slot_idx, gpu_value_1);
            let v1 = (counter + 1) as u64;
            let slots1 = spec_completed(slots, r1.slot_idx as int, v1);
            let r2 = spec_reservation(slots1, (next_slot_idx + 1) as usize, gpu_value_2);
            let v2 = (v1 + 1) as u64;
            &&& v1 < v2
            &&& values_bounded(slots1, v1)
            &&& values_bounded(spec_completed(slots1, r2.slot_idx as int, v2), v2)
            &&& (r1.wait_for matches Some(w) ==> gpu_value_1 < w && w == slots[r1.slot_idx as int].last_submitted_timeline_value)
            &&& (r1.wait_for is None ==> slots[r1.slot_idx as int].last_submitted_timeline_value <= gpu_value_1)
            &&& (r2.wait_for matches Some(w) ==> gpu_value_2 < w && w == slots1[r2.slot_idx as int].last_submitted_timeline_value)
            &&& (r2.wait_for is None ==> slots1[r2.slot_idx as int].last_submitted_timeline_value <= gpu_value_2)
            &&& (slots.len() == 1 && gpu_value_2 < v1 ==> r2.wait_for == Some(v1))
        }),
{
    let r1 = spec_reservation(slots, next_slot_idx, gpu_value_1);
    let v1 = (counter + 1) as u64;
    assert(0 <= r1.slot_idx < slots.len());
    lemma_submission_keeps_timeline_order(slots, counter, r1.slot_idx as int);
    let slots1 = spec_completed(slots, r1.slot_idx as int, v1);
    let r2 = spec_reservation(slots1, (next_slot_idx + 1) as usize, gpu_value_2);
    assert(0 <= r2.slot_idx < slots1.len());
    lemma_submission_keeps_timeline_order(slots1, v1, r2.slot_idx as int);
    if slots.len() == 1 {
        assert(next_slot_idx as int % 1 == 0);
        assert((next_slot_idx + 1) as int % 1 == 0);
        assert(r1.slot_idx == 0 && r2.slot_idx == 0);
        assert(slots1[0].last_submitted_timeline_value == v1);
        assert(gpu_value_2 < v1 ==> r2.wait_for == Some(v1)) by {
            if gpu_value_2 < v1 {
                assert(gpu_value_2 < slots1[r2.slot_idx as int].last_submitted_timeline_value);
            }
        }
    }
}

} // verus!
