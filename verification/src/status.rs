use vstd::prelude::*;
use crate::bits::{
    back_index, back_index_of, back_updated, back_updated_of, next_input, next_input_of,
    next_output, next_output_of, no_live_handle, published_back_info, returned_back_info,
    set_next_input, set_next_output, with_next_input, with_next_output, BACK_INFO_INIT,
    NEXT_INDICES_INIT, NEXT_NOTHING, NO_BUFFER_IDX,
};

verus! {

/// The control state that the producer and the consumer of a triple buffer
/// share: the back-info word and the next-indices byte.
///
/// Each method is one transaction on that state, the same one that
/// `SharedStatus` performs atomically.
#[derive(Clone, Copy, Debug, PartialEq, Eq, Structural)]
pub struct Status {
    /// Back buffer index and truth that an update is pending.
    pub back_info: usize,
    /// Next input and output indices, packed in one byte.
    pub next_io_indices: u8,
}

impl Status {
    /// Control state of a fresh triple buffer.
    pub open spec fn initial() -> Status {
        Status { back_info: BACK_INFO_INIT, next_io_indices: NEXT_INDICES_INIT }
    }

    /// Set up the control state of a fresh triple buffer.
    pub fn new() -> (s: Status)
        ensures
            s == Status::initial(),
    {
        Status { back_info: BACK_INFO_INIT, next_io_indices: NEXT_INDICES_INIT }
    }

    /// Whether the producer published a buffer that the consumer did not fetch.
    pub fn updated(&self) -> (updated: bool)
        ensures
            updated == back_updated_of(self.back_info),
    {
        back_updated(self.back_info)
    }

    /// Make input buffer `input_idx` the back buffer, marked as updated.
    ///
    /// Returns the former back buffer, which becomes the new input buffer,
    /// and whether that former back buffer held an unread publication.
    pub fn publish(&mut self, input_idx: u8) -> (r: (u8, bool))
        requires
            input_idx < 4,
        ensures
            final(self).back_info == input_idx + 4,
            final(self).next_io_indices == old(self).next_io_indices,
            r.0 == back_index_of(old(self).back_info),
            r.1 == back_updated_of(old(self).back_info),
    {
        let former_back_info = self.back_info;
        self.back_info = published_back_info(input_idx);
        (back_index(former_back_info), back_updated(former_back_info))
    }

    /// If an update is pending, make output buffer `output_idx` the back
    /// buffer and take the former back buffer as the new output buffer.
    ///
    /// Returns the output buffer index after the call and whether an update
    /// was carried out.
    pub fn update(&mut self, output_idx: u8) -> (r: (u8, bool))
        requires
            output_idx < 4,
        ensures
            r.1 == back_updated_of(old(self).back_info),
            r.1 ==> final(self).back_info == output_idx as usize,
            r.1 ==> r.0 == back_index_of(old(self).back_info),
            !r.1 ==> *final(self) == *old(self),
            !r.1 ==> r.0 == output_idx,
            final(self).next_io_indices == old(self).next_io_indices,
    {
        let updated = self.updated();
        if updated {
            let former_back_info = self.back_info;
            self.back_info = returned_back_info(output_idx);
            (back_index(former_back_info), true)
        } else {
            (output_idx, false)
        }
    }

    /// Take both next indices at once, leaving `NEXT_NOTHING` behind.
    ///
    /// Returns the next input index and the next output index that were
    /// recorded; either is `NO_BUFFER_IDX` if a handle of that side is alive.
    pub fn take_io_indices(&mut self) -> (r: (u8, u8))
        ensures
            final(self).next_io_indices == NEXT_NOTHING,
            final(self).back_info == old(self).back_info,
            r.0 == next_input_of(old(self).next_io_indices),
            r.1 == next_output_of(old(self).next_io_indices),
    {
        let former = self.next_io_indices;
        self.next_io_indices = NEXT_NOTHING;
        (next_input(former), next_output(former))
    }

    /// Take the next input index, leaving `NO_BUFFER_IDX` in its place.
    pub fn claim_input(&mut self) -> (idx: u8)
        ensures
            idx == next_input_of(old(self).next_io_indices),
            final(self).next_io_indices == set_next_input(old(self).next_io_indices, NO_BUFFER_IDX as int),
            final(self).back_info == old(self).back_info,
    {
        let former = self.next_io_indices;
        self.next_io_indices = with_next_input(former, NO_BUFFER_IDX);
        next_input(former)
    }

    /// Take the next output index, leaving `NO_BUFFER_IDX` in its place.
    pub fn claim_output(&mut self) -> (idx: u8)
        ensures
            idx == next_output_of(old(self).next_io_indices),
            final(self).next_io_indices == set_next_output(old(self).next_io_indices, NO_BUFFER_IDX as int),
            final(self).back_info == old(self).back_info,
    {
        let former = self.next_io_indices;
        self.next_io_indices = with_next_output(former, NO_BUFFER_IDX);
        next_output(former)
    }

    /// Record `input_idx` as the next input index.
    pub fn restore_input(&mut self, input_idx: u8)
        requires
            input_idx < 4,
        ensures
            final(self).next_io_indices == set_next_input(old(self).next_io_indices, input_idx as int),
            final(self).back_info == old(self).back_info,
    {
        self.next_io_indices = with_next_input(self.next_io_indices, input_idx);
    }

    /// Record `output_idx` as the next output index.
    pub fn restore_output(&mut self, output_idx: u8)
        requires
            output_idx < 4,
        ensures
            final(self).next_io_indices == set_next_output(old(self).next_io_indices, output_idx as int),
            final(self).back_info == old(self).back_info,
    {
        self.next_io_indices = with_next_output(self.next_io_indices, output_idx);
    }

    /// Whether neither an input nor an output handle is alive.
    pub fn no_handle_alive(&self) -> (r: bool)
        ensures
            r == (next_input_of(self.next_io_indices) != NO_BUFFER_IDX
                && next_output_of(self.next_io_indices) != NO_BUFFER_IDX),
    {
        no_live_handle(self.next_io_indices)
    }
}

/// Handing a claimed input index back restores the next-indices byte: an
/// input handle that is set up and then given up leaves no trace.
pub proof fn lemma_claim_then_restore_input(next: u8)
    ensures
        set_next_input(set_next_input(next, NO_BUFFER_IDX as int) as u8, next_input_of(next))
            == next,
        next_input_of(set_next_input(next, NO_BUFFER_IDX as int) as u8) == NO_BUFFER_IDX,
{
}

/// Handing a claimed output index back restores the next-indices byte.
pub proof fn lemma_claim_then_restore_output(next: u8)
    ensures
        set_next_output(set_next_output(next, NO_BUFFER_IDX as int) as u8, next_output_of(next))
            == next,
        next_output_of(set_next_output(next, NO_BUFFER_IDX as int) as u8) == NO_BUFFER_IDX,
{
}

/// The index recorded when a handle is given up is the one that the next
/// handle of that side takes over.
pub proof fn lemma_restore_then_claim(next: u8, idx: u8)
    requires
        idx < 4,
    ensures
        next_input_of(set_next_input(next, idx as int) as u8) == idx,
        next_output_of(set_next_output(next, idx as int) as u8) == idx,
{
}

/// Taking both next indices and then recording them again restores the
/// next-indices byte.
pub proof fn lemma_take_then_restore(next: u8)
    requires
        next < 16,
    ensures
        set_next_output(
            set_next_input(NEXT_NOTHING, next_input_of(next)) as u8,
            next_output_of(next),
        ) == next,
{
}

impl Default for Status {
    /// Same as `Status::new`.
    fn default() -> (s: Status)
        ensures
            s == Status::initial(),
    {
        Status::new()
    }
}

} // verus!
