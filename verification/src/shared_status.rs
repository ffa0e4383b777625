use vstd::prelude::*;
use core::sync::atomic::{AtomicU8, AtomicUsize, Ordering};
use crate::bits::{
    back_index, back_index_of, back_updated, back_updated_of, next_input, next_input_of,
    next_output, next_output_of, no_live_handle, no_live_handle_of, published_back_info,
    returned_back_info, set_next_input, set_next_output, with_next_input, with_next_output,
    BACK_IDX_MASK, BACK_UPDATED_BIT, NEXT_NOTHING, NO_BUFFER_IDX,
};
use crate::status::Status;

verus! {

/// One of the read-modify-write transactions on the next-indices byte.
#[derive(Clone, Copy, Debug)]
pub enum NextIndicesStep {
    /// Take the next input index, leaving `NO_BUFFER_IDX`; refused if there
    /// is no next input index (an input handle is alive).
    ClaimInput,
    /// Take the next output index, leaving `NO_BUFFER_IDX`; refused if there
    /// is no next output index (an output handle is alive).
    ClaimOutput,
    /// Record the given buffer index as the next input index.
    RestoreInput(u8),
    /// Record the given buffer index as the next output index.
    RestoreOutput(u8),
}

/// Whether the buffer index that a step carries, if any, is a valid field.
pub open spec fn step_ok(step: NextIndicesStep) -> bool {
    match step {
        NextIndicesStep::RestoreInput(idx) => idx < 4,
        NextIndicesStep::RestoreOutput(idx) => idx < 4,
        _ => true,
    }
}

/// New value of the next-indices byte after a step, or `None` if the step
/// refuses the current value.
pub open spec fn step_result(step: NextIndicesStep, next: u8) -> Option<int> {
    match step {
        NextIndicesStep::ClaimInput => if next as int % 4 == NO_BUFFER_IDX {
            None
        } else {
            Some(set_next_input(next, NO_BUFFER_IDX as int))
        },
        NextIndicesStep::ClaimOutput => if (next as int / 4) % 4 == NO_BUFFER_IDX {
            None
        } else {
            Some(set_next_output(next, NO_BUFFER_IDX as int))
        },
        NextIndicesStep::RestoreInput(idx) => Some(set_next_input(next, idx as int)),
        NextIndicesStep::RestoreOutput(idx) => Some(set_next_output(next, idx as int)),
    }
}

/// Apply a step to a value of the next-indices byte.
pub fn apply_step(step: NextIndicesStep, next: u8) -> (r: Option<u8>)
    requires
        step_ok(step),
    ensures
        r matches Some(v) ==> step_result(step, next) == Some(v as int),
        r is None ==> step_result(step, next) is None,
        match step {
            NextIndicesStep::ClaimInput => match r {
                None => next % 4 == NO_BUFFER_IDX,
                Some(v) => next % 4 != NO_BUFFER_IDX && v % 4 == NO_BUFFER_IDX && (v / 4) % 4 == (
                next / 4) % 4 && v / 16 == next / 16,
            },
            NextIndicesStep::ClaimOutput => match r {
                None => (next / 4) % 4 == NO_BUFFER_IDX,
                Some(v) => (next / 4) % 4 != NO_BUFFER_IDX && (v / 4) % 4 == NO_BUFFER_IDX && v % 4
                    == next % 4 && v / 16 == next / 16,
            },
            NextIndicesStep::RestoreInput(idx) => match r {
                None => false,
                Some(v) => v % 4 == idx && (v / 4) % 4 == (next / 4) % 4 && v / 16 == next / 16,
            },
            NextIndicesStep::RestoreOutput(idx) => match r {
                None => false,
                Some(v) => (v / 4) % 4 == idx && v % 4 == next % 4 && v / 16 == next / 16,
            },
        },
{
    match step {
        NextIndicesStep::ClaimInput => {
            if next_input(next) == NO_BUFFER_IDX {
                None
            } else {
                Some(with_next_input(next, NO_BUFFER_IDX))
            }
        },
        NextIndicesStep::ClaimOutput => {
            if next_output(next) == NO_BUFFER_IDX {
                None
            } else {
                Some(with_next_output(next, NO_BUFFER_IDX))
            }
        },
        NextIndicesStep::RestoreInput(idx) => Some(with_next_input(next, idx)),
        NextIndicesStep::RestoreOutput(idx) => Some(with_next_output(next, idx)),
    }
}

/// What taking both next indices gives, given the next-indices byte that the
/// swap read: both indices, or `None` if a handle of either side is alive.
pub open spec fn io_indices_outcome(former: u8) -> Option<(u8, u8)> {
    if next_input_of(former) == NO_BUFFER_IDX || next_output_of(former) == NO_BUFFER_IDX {
        None
    } else {
        Some((next_input_of(former) as u8, next_output_of(former) as u8))
    }
}

/// What claiming the next input index gives, given the next-indices byte that
/// the update saw: the index, or `None` if an input handle is alive.
pub open spec fn claimed_input_outcome(former: u8) -> Option<u8> {
    if next_input_of(former) == NO_BUFFER_IDX {
        None
    } else {
        Some(next_input_of(former) as u8)
    }
}

/// What claiming the next output index gives, given the next-indices byte
/// that the update saw: the index, or `None` if an output handle is alive.
pub open spec fn claimed_output_outcome(former: u8) -> Option<u8> {
    if next_output_of(former) == NO_BUFFER_IDX {
        None
    } else {
        Some(next_output_of(former) as u8)
    }
}

/// What publishing reports, given the back-info word that the swap read: the
/// new input buffer and whether an unread publication was overwritten.
pub open spec fn publish_outcome(former: usize) -> (u8, bool) {
    (back_index_of(former) as u8, back_updated_of(former))
}

/// Decide what taking both next indices gives, from the next-indices byte
/// that the swap read.
pub fn available_io_indices(former: u8) -> (r: Option<(u8, u8)>)
    ensures
        r == io_indices_outcome(former),
        r is None <==> (former % 4 == NO_BUFFER_IDX || (former / 4) % 4 == NO_BUFFER_IDX),
        r matches Some(p) ==> p.0 == former % 4 && p.1 == (former / 4) % 4,
{
    let input_idx = next_input(former);
    let output_idx = next_output(former);
    if input_idx == NO_BUFFER_IDX || output_idx == NO_BUFFER_IDX {
        None
    } else {
        Some((input_idx, output_idx))
    }
}

/// What fetching an update reports, given the back-info word that the swap
/// read: the new output buffer, and that an update was carried out.
pub open spec fn update_outcome(former: usize) -> (u8, bool) {
    (back_index_of(former) as u8, true)
}

/// Decide what publishing reports, from the back-info word that the swap
/// read.
pub fn published_outcome(former: usize) -> (r: (u8, bool))
    ensures
        r == publish_outcome(former),
        r.0 as int == former as int % 4,
        r.1 == (former & BACK_UPDATED_BIT != 0),
{
    (back_index(former), back_updated(former))
}

/// Decide what fetching an update reports, from the back-info word that the
/// swap read.
pub fn fetched_outcome(former: usize) -> (r: (u8, bool))
    ensures
        r == update_outcome(former),
        r.0 as int == former as int % 4,
        r.1,
{
    (back_index(former), true)
}

/// Decide what claiming the next input index gives, from what the update of
/// the next-indices byte returned: the former next input index if the update
/// took place, `None` if it was refused.
pub fn claimed_input(fetched: Result<u8, u8>) -> (r: Option<u8>)
    ensures
        r == match fetched {
            Ok(former) => Some(next_input_of(former) as u8),
            Err(_) => None::<u8>,
        },
{
    match fetched {
        Ok(former) => Some(next_input(former)),
        Err(_) => None,
    }
}

/// Decide what claiming the next output index gives, from what the update of
/// the next-indices byte returned: the former next output index if the update
/// took place, `None` if it was refused.
pub fn claimed_output(fetched: Result<u8, u8>) -> (r: Option<u8>)
    ensures
        r == match fetched {
            Ok(former) => Some(next_output_of(former) as u8),
            Err(_) => None::<u8>,
        },
{
    match fetched {
        Ok(former) => Some(next_output(former)),
        Err(_) => None,
    }
}

/// Decide whether recording the next input index was consistent, from what
/// the update of the next-indices byte returned: the former next input index
/// must have been `NO_BUFFER_IDX`.
pub fn restored_input_consistently(fetched: Result<u8, u8>) -> (r: bool)
    ensures
        r == match fetched {
            Ok(former) => next_input_of(former) == NO_BUFFER_IDX,
            Err(_) => false,
        },
{
    match fetched {
        Ok(former) => next_input(former) == NO_BUFFER_IDX,
        Err(_) => false,
    }
}

/// Decide whether recording the next output index was consistent, from what
/// the update of the next-indices byte returned: the former next output index
/// must have been `NO_BUFFER_IDX`.
pub fn restored_output_consistently(fetched: Result<u8, u8>) -> (r: bool)
    ensures
        r == match fetched {
            Ok(former) => next_output_of(former) == NO_BUFFER_IDX,
            Err(_) => false,
        },
{
    match fetched {
        Ok(former) => next_output(former) == NO_BUFFER_IDX,
        Err(_) => false,
    }
}

/// Publishing reports, as the new input buffer, the back buffer recorded in
/// the word it replaced, and reports an overwrite exactly when that word's
/// updated bit is set.
pub proof fn lemma_publish_reports_replaced_word(former: usize)
    ensures
        publish_outcome(former).0 as int == former as int % 4,
        publish_outcome(former).0 as usize == former & BACK_IDX_MASK,
        publish_outcome(former).1 == (former & BACK_UPDATED_BIT != 0),
{
    assert((former & 4 != 0) == ((former / 4) % 2 == 1)) by (bit_vector);
    assert(former & 3 == former % 4) by (bit_vector);
}

/// Fetching an update hands the consumer the back buffer recorded in the
/// word it swapped out, and always reports an update.
pub proof fn lemma_fetch_takes_swapped_back_buffer(former: usize)
    ensures
        update_outcome(former).0 as int == former as int % 4,
        update_outcome(former).0 as usize == former & BACK_IDX_MASK,
        update_outcome(former).1,
{
    assert(former & 3 == former % 4) by (bit_vector);
}

/// Setting up both handles at once is refused exactly when either side's
/// field holds `NO_BUFFER_IDX`; otherwise it yields the input field and the
/// output field, in that order.
pub proof fn lemma_io_indices_outcome(former: u8)
    ensures
        io_indices_outcome(former) is None <==> (former % 4 == NO_BUFFER_IDX || (former / 4) % 4
            == NO_BUFFER_IDX),
        io_indices_outcome(former) matches Some(p) ==> p.0 == former % 4 && p.1 == (former / 4)
            % 4,
{
}

/// Claiming the next input index is refused exactly when the input field
/// holds `NO_BUFFER_IDX`, whatever the output field holds; when it is
/// granted, the input field becomes `NO_BUFFER_IDX` and the rest of the byte
/// is kept, and the claimed index is the former input field.
pub proof fn lemma_claim_input_step(next: u8)
    ensures
        step_result(NextIndicesStep::ClaimInput, next) is None <==> next % 4 == NO_BUFFER_IDX,
        step_result(NextIndicesStep::ClaimInput, next) matches Some(v) ==> v % 4 == NO_BUFFER_IDX
            && (v / 4) % 4 == (next / 4) % 4 && v / 16 == next / 16,
        claimed_input_outcome(next) is None <==> next % 4 == NO_BUFFER_IDX,
        claimed_input_outcome(next) matches Some(i) ==> i == next % 4,
{
    let q = next as int / 4;
    assert(next as int == 4 * q + next as int % 4);
    assert((4 * q + 3) % 4 == 3 && (4 * q + 3) / 4 == q);
    assert(q / 4 == next as int / 16);
}

/// Claiming the next output index is refused exactly when the output field
/// holds `NO_BUFFER_IDX`, whatever the input field holds; when it is granted,
/// the output field becomes `NO_BUFFER_IDX` and the rest of the byte is kept,
/// and the claimed index is the former output field.
pub proof fn lemma_claim_output_step(next: u8)
    ensures
        step_result(NextIndicesStep::ClaimOutput, next) is None <==> (next / 4) % 4
            == NO_BUFFER_IDX,
        step_result(NextIndicesStep::ClaimOutput, next) matches Some(v) ==> (v / 4) % 4
            == NO_BUFFER_IDX && v % 4 == next % 4 && v / 16 == next / 16,
        claimed_output_outcome(next) is None <==> (next / 4) % 4 == NO_BUFFER_IDX,
        claimed_output_outcome(next) matches Some(o) ==> o == (next / 4) % 4,
{
    let r = next as int % 4;
    let p = next as int / 16;
    assert(next as int == 16 * p + 4 * ((next as int / 4) % 4) + r);
    assert((16 * p + 12 + r) % 4 == r && (16 * p + 12 + r) / 4 == 4 * p + 3);
    assert((4 * p + 3) % 4 == 3 && (16 * p + 12 + r) / 16 == p);
}

/// Recording an index is never refused: the field of its side takes the
/// index, and the rest of the byte is kept.
pub proof fn lemma_restore_steps(next: u8, idx: u8)
    requires
        idx < 4,
    ensures
        step_result(NextIndicesStep::RestoreInput(idx), next) matches Some(v) && v % 4 == idx && (v
            / 4) % 4 == (next / 4) % 4 && v / 16 == next / 16,
        step_result(NextIndicesStep::RestoreOutput(idx), next) matches Some(v) && (v / 4) % 4 == idx
            && v % 4 == next % 4 && v / 16 == next / 16,
{
    let r = next as int % 4;
    let m = (next as int / 4) % 4;
    let p = next as int / 16;
    assert(next as int == 16 * p + 4 * m + r);
    assert((16 * p + 4 * m + idx) % 4 == idx && (16 * p + 4 * m + idx) / 4 == 4 * p + m);
    assert((4 * p + m) % 4 == m && (16 * p + 4 * m + idx) / 16 == p);
    assert((16 * p + 4 * idx + r) % 4 == r && (16 * p + 4 * idx + r) / 4 == 4 * p + idx);
    assert((4 * p + idx) % 4 == idx && (16 * p + 4 * idx + r) / 16 == p);
}

/// Runs `AtomicU8::fetch_update` on the next-indices byte with `apply_step`
/// as the update function.
///
/// As std documents it, `fetch_update` returns `Ok(previous)` when the
/// function returned `Some` for the value it was last applied to, and
/// `Err(previous)` when it returned `None`; this contract claims that and
/// nothing else (what `previous` is depends on the other threads). A fetch
/// ordering of `Release` or `AcqRel` makes the underlying compare-exchange
/// panic, so it is left out.
#[verifier::external_body]
fn fetch_update_next_indices(
    atomic: &AtomicU8,
    set_order: Ordering,
    fetch_order: Ordering,
    step: NextIndicesStep,
) -> (r: Result<u8, u8>)
    requires
        step_ok(step),
        !(fetch_order is Release),
        !(fetch_order is AcqRel),
    ensures
        r matches Ok(prev) ==> step_result(step, prev) is Some,
        r matches Err(prev) ==> step_result(step, prev) is None,
{
    atomic.fetch_update(set_order, fetch_order, |next| apply_step(step, next))
}

/// The control state of a triple buffer as it is shared between a producer
/// thread and a consumer thread: the back-info word and the next-indices byte
/// held in atomics.
///
/// Each method is meant to perform atomically the transaction of the `Status`
/// method with the same name. The contracts do not state that
/// correspondence: the atomics' contents have no specification here. What an
/// atomic operation reads back depends on the other thread, so each contract
/// says what holds whatever that value was, and the decision taken on that
/// value is made by a function with an exact contract.
#[derive(Debug)]
pub struct SharedStatus {
    /// Back buffer index and truth that an update is pending.
    back_info: AtomicUsize,
    /// Next input and output indices, packed in one byte.
    next_io_indices: AtomicU8,
}

impl SharedStatus {
    /// Shared control state of a fresh triple buffer.
    pub fn new() -> (s: SharedStatus) {
        SharedStatus::from_status(Status::new())
    }

    /// Shared control state holding the given values.
    pub fn from_status(status: Status) -> (s: SharedStatus) {
        SharedStatus {
            back_info: AtomicUsize::new(status.back_info),
            next_io_indices: AtomicU8::new(status.next_io_indices),
        }
    }

    /// Read both words (with relaxed ordering: meant for code that has
    /// exclusive access).
    pub fn snapshot(&self) -> (s: Status) {
        Status {
            back_info: self.back_info.load(Ordering::Relaxed),
            next_io_indices: self.next_io_indices.load(Ordering::Relaxed),
        }
    }

    /// Whether the producer published something that the consumer has not
    /// fetched yet.
    pub fn updated(&self) -> (r: bool)
        ensures
            exists|info: usize| r == back_updated_of(info),
    {
        let info = self.back_info.load(Ordering::Relaxed);
        let r = back_updated(info);
        assert(r == back_updated_of(info));
        r
    }

    /// Atomically make input buffer `input_idx` the back buffer, marked as
    /// updated; see `Status::publish`.
    pub fn publish(&self, input_idx: u8) -> (r: (u8, bool))
        requires
            input_idx < 4,
        ensures
            r.0 < 4,
            exists|former: usize| r == publish_outcome(former),
    {
        let former_back_info = self.back_info.swap(published_back_info(input_idx), Ordering::AcqRel);
        published_outcome(former_back_info)
    }

    /// If an update is pending, atomically exchange output buffer
    /// `output_idx` with the back buffer; see `Status::update`.
    pub fn update(&self, output_idx: u8) -> (r: (u8, bool))
        requires
            output_idx < 4,
        ensures
            r.0 < 4,
            !r.1 ==> r.0 == output_idx,
            r.1 ==> exists|former: usize| r == update_outcome(former),
    {
        let updated = self.updated();
        if updated {
            let former_back_info = self.back_info.swap(returned_back_info(output_idx), Ordering::AcqRel);
            fetched_outcome(former_back_info)
        } else {
            (output_idx, false)
        }
    }

    /// Atomically take both next indices, leaving `NEXT_NOTHING` behind; see
    /// `Status::take_io_indices`.
    ///
    /// Returns `None` if an input or an output handle is alive.
    pub fn take_io_indices(&self) -> (r: Option<(u8, u8)>)
        ensures
            r matches Some(p) ==> p.0 < 3 && p.1 < 3,
            exists|former: u8| r == io_indices_outcome(former),
    {
        let former = self.next_io_indices.swap(NEXT_NOTHING, Ordering::Acquire);
        available_io_indices(former)
    }

    /// Atomically take the next input index; see `Status::claim_input`.
    ///
    /// Returns `None`, changing nothing, if an input handle is alive.
    pub fn claim_input(&self) -> (r: Option<u8>)
        ensures
            r matches Some(idx) ==> idx < 3,
            exists|former: u8| r == claimed_input_outcome(former),
    {
        let fetched = fetch_update_next_indices(
            &self.next_io_indices,
            Ordering::Release,
            Ordering::Relaxed,
            NextIndicesStep::ClaimInput,
        );
        let r = claimed_input(fetched);
        proof {
            match fetched {
                Ok(former) => assert(r == claimed_input_outcome(former)),
                Err(former) => assert(r == claimed_input_outcome(former)),
            }
        }
        r
    }

    /// Atomically take the next output index; see `Status::claim_output`.
    ///
    /// Returns `None`, changing nothing, if an output handle is alive.
    pub fn claim_output(&self) -> (r: Option<u8>)
        ensures
            r matches Some(idx) ==> idx < 3,
            exists|former: u8| r == claimed_output_outcome(former),
    {
        let fetched = fetch_update_next_indices(
            &self.next_io_indices,
            Ordering::Release,
            Ordering::Relaxed,
            NextIndicesStep::ClaimOutput,
        );
        let r = claimed_output(fetched);
        proof {
            match fetched {
                Ok(former) => assert(r == claimed_output_outcome(former)),
                Err(former) => assert(r == claimed_output_outcome(former)),
            }
        }
        r
    }

    /// Atomically record `input_idx` as the next input index; see
    /// `Status::restore_input`.
    ///
    /// Returns whether the former next input index was `NO_BUFFER_IDX`, as
    /// it must be while an input handle is alive.
    pub fn restore_input(&self, input_idx: u8) -> (consistent: bool)
        requires
            input_idx < 4,
        ensures
            exists|former: u8| consistent == (next_input_of(former) == NO_BUFFER_IDX),
    {
        let fetched = fetch_update_next_indices(
            &self.next_io_indices,
            Ordering::Release,
            Ordering::Relaxed,
            NextIndicesStep::RestoreInput(input_idx),
        );
        // Recording an index is never refused.
        assert(fetched is Ok);
        let consistent = restored_input_consistently(fetched);
        proof {
            let former = fetched->Ok_0;
            assert(consistent == (next_input_of(former) == NO_BUFFER_IDX));
        }
        consistent
    }

    /// Atomically record `output_idx` as the next output index; see
    /// `Status::restore_output`.
    ///
    /// Returns whether the former next output index was `NO_BUFFER_IDX`,
    /// as it must be while an output handle is alive.
    pub fn restore_output(&self, output_idx: u8) -> (consistent: bool)
        requires
            output_idx < 4,
        ensures
            exists|former: u8| consistent == (next_output_of(former) == NO_BUFFER_IDX),
    {
        let fetched = fetch_update_next_indices(
            &self.next_io_indices,
            Ordering::Release,
            Ordering::Relaxed,
            NextIndicesStep::RestoreOutput(output_idx),
        );
        // Recording an index is never refused.
        assert(fetched is Ok);
        let consistent = restored_output_consistently(fetched);
        proof {
            let former = fetched->Ok_0;
            assert(consistent == (next_output_of(former) == NO_BUFFER_IDX));
        }
        consistent
    }

    /// Whether neither an input nor an output handle is alive.
    pub fn no_handle_alive(&self) -> (r: bool)
        ensures
            exists|next: u8| r == no_live_handle_of(next),
    {
        let next = self.next_io_indices.load(Ordering::Relaxed);
        no_live_handle(next)
    }
}

} // verus!
