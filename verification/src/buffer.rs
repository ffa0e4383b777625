use vstd::prelude::*;
use vstd::std_specs::cmp::PartialEqSpec;
use crate::bits::{
    back_updated_of, next_input_of, next_output_of, set_next_input, set_next_output,
    NEXT_NOTHING, NO_BUFFER_IDX,
};
use crate::protocol::{distinct_slots, initial_slots, published, updated, Slots};
use crate::status::Status;

verus! {

/// A triple buffer: three data buffers and the control state that tells
/// which one the producer ([`Input`]) holds, which one the consumer
/// ([`Output`]) holds, and which one is the back buffer in between.
///
/// The handles only carry their buffer index; each operation is given the
/// triple buffer it works on.
pub struct TripleBuffer<T> {
    /// Data storage buffers.
    buffers: [T; 3],
    /// Control state shared by the producer and the consumer.
    status: Status,
    /// Buffer index of the live input handle, if any.
    live_input: Ghost<Option<u8>>,
    /// Buffer index of the live output handle, if any.
    live_output: Ghost<Option<u8>>,
}

/// Producer interface to a [`TripleBuffer`].
pub struct Input {
    /// Index of the input buffer (private to the producer).
    input_idx: u8,
}

/// Consumer interface to a [`TripleBuffer`].
pub struct Output {
    /// Index of the output buffer (private to the consumer).
    output_idx: u8,
}

impl View for Input {
    type V = u8;

    closed spec fn view(&self) -> u8 {
        self.input_idx
    }
}

impl View for Output {
    type V = u8;

    closed spec fn view(&self) -> u8 {
        self.output_idx
    }
}

impl<T> TripleBuffer<T> {
    /// Contents of the three buffers.
    pub closed spec fn buffers_view(&self) -> Seq<T> {
        self.buffers@
    }

    /// Control state.
    pub closed spec fn status_view(&self) -> Status {
        self.status
    }

    /// Buffer index of the live input handle, if one exists.
    pub closed spec fn live_input(&self) -> Option<u8> {
        self.live_input@
    }

    /// Buffer index of the live output handle, if one exists.
    pub closed spec fn live_output(&self) -> Option<u8> {
        self.live_output@
    }

    /// Who holds which buffer: a live handle holds its own index, otherwise
    /// the next index recorded for its side is what the next handle gets.
    pub open spec fn slots(&self) -> Slots {
        Slots {
            input: match self.live_input() {
                Some(i) => i,
                None => next_input_of(self.status_view().next_io_indices) as u8,
            },
            output: match self.live_output() {
                Some(o) => o,
                None => next_output_of(self.status_view().next_io_indices) as u8,
            },
            back: (self.status_view().back_info % 4) as u8,
            dirty: back_updated_of(self.status_view().back_info),
        }
    }

    /// Well-formedness: there are three buffers, they are held by distinct
    /// parties, and the next-indices byte records `NO_BUFFER_IDX` exactly for
    /// the sides that have a live handle.
    pub open spec fn wf(&self) -> bool {
        &&& self.buffers_view().len() == 3
        &&& distinct_slots(self.slots())
        &&& (self.live_input() is Some) == (next_input_of(self.status_view().next_io_indices)
            == NO_BUFFER_IDX)
        &&& (self.live_output() is Some) == (next_output_of(self.status_view().next_io_indices)
            == NO_BUFFER_IDX)
        &&& self.status_view().back_info < 8
        &&& self.status_view().next_io_indices < 16
    }

    /// Value of the buffer that the producer holds.
    pub open spec fn input_value(&self) -> T {
        self.buffers_view()[self.slots().input as int]
    }

    /// Value of the buffer that the consumer holds.
    pub open spec fn output_value(&self) -> T {
        self.buffers_view()[self.slots().output as int]
    }

    /// Wrap three user-provided values into a `TripleBuffer`.
    ///
    /// The three values should be logically identical: which of them the
    /// producer and the consumer start with is not something to rely on.
    pub fn from_values(values: [T; 3]) -> (r: Self)
        ensures
            r.wf(),
            r.buffers_view() == values@,
            r.status_view() == Status::initial(),
            r.live_input() is None,
            r.live_output() is None,
            r.slots() == initial_slots(),
    {
        let r = TripleBuffer {
            buffers: values,
            status: Status::new(),
            live_input: Ghost(None),
            live_output: Ghost(None),
        };
        assert(r.slots() == initial_slots());
        r
    }

    /// Set up a triple buffer, generating the three inner initial values
    /// with the `generator` function.
    pub fn from_fn(mut generator: impl FnMut() -> T) -> (r: Self)
        requires
            call_requires(generator, ()),
        ensures
            r.wf(),
            forall|i: int| 0 <= i < 3 ==> call_ensures(generator, (), #[trigger] r.buffers_view()[i]),
            r.status_view() == Status::initial(),
            r.live_input() is None,
            r.live_output() is None,
    {
        let a = generator();
        let b = generator();
        let c = generator();
        Self::from_values([a, b, c])
    }

    /// Set up the [`Input`] and [`Output`] of this triple buffer in a single
    /// transaction.
    ///
    /// The triple buffer must have neither an input nor an output handle.
    pub fn inout(&mut self) -> (r: (Input, Output))
        requires
            old(self).wf(),
            old(self).live_input() is None,
            old(self).live_output() is None,
        ensures
            final(self).wf(),
            final(self).slots() == old(self).slots(),
            final(self).buffers_view() == old(self).buffers_view(),
            final(self).live_input() == Some(r.0@),
            final(self).live_output() == Some(r.1@),
            r.0@ == old(self).slots().input,
            r.1@ == old(self).slots().output,
            final(self).status_view().back_info == old(self).status_view().back_info,
            final(self).status_view().next_io_indices == NEXT_NOTHING,
    {
        let (input_idx, output_idx) = self.status.take_io_indices();
        self.live_input = Ghost(Some(input_idx));
        self.live_output = Ghost(Some(output_idx));
        assert(next_input_of(NEXT_NOTHING) == 3 && next_output_of(NEXT_NOTHING) == 3);
        (Input { input_idx }, Output { output_idx })
    }

    /// Access to the data buffers.
    pub fn buffers(&self) -> (r: &[T; 3])
        ensures
            r@ == self.buffers_view(),
    {
        &self.buffers
    }

    /// Access to the control state.
    pub fn status(&self) -> (r: &Status)
        ensures
            *r == self.status_view(),
    {
        &self.status
    }

    /// Whether neither an input nor an output handle is alive, as expected
    /// when the triple buffer is torn down.
    pub fn no_handle_alive(&self) -> (r: bool)
        requires
            self.wf(),
        ensures
            r == (self.live_input() is None && self.live_output() is None),
    {
        self.status.no_handle_alive()
    }
}

impl<T: Clone> TripleBuffer<T> {
    /// Set up a triple buffer with a certain initial value.
    pub fn new(initial: &T) -> (r: Self)
        ensures
            r.wf(),
            forall|i: int| 0 <= i < 3 ==> cloned(*initial, #[trigger] r.buffers_view()[i]),
            r.status_view() == Status::initial(),
            r.live_input() is None,
            r.live_output() is None,
            r.slots() == initial_slots(),
    {
        let a = initial.clone();
        let b = initial.clone();
        let c = initial.clone();
        Self::from_values([a, b, c])
    }

    /// Like `Clone`: copy the buffers and the control state.
    pub fn seq_clone(&mut self) -> (r: Self)
        ensures
            *final(self) == *old(self),
            r.status_view() == old(self).status_view(),
            r.live_input() == old(self).live_input(),
            r.live_output() == old(self).live_output(),
            r.slots() == old(self).slots(),
            old(self).wf() ==> r.wf(),
            forall|i: int|
                0 <= i < 3 ==> cloned(old(self).buffers_view()[i], #[trigger] r.buffers_view()[i]),
    {
        let a = self.buffers[0].clone();
        let b = self.buffers[1].clone();
        let c = self.buffers[2].clone();
        TripleBuffer {
            buffers: [a, b, c],
            status: self.status,
            live_input: Ghost(self.live_input@),
            live_output: Ghost(self.live_output@),
        }
    }
}

impl<T: Default> Default for TripleBuffer<T> {
    /// Set up a triple buffer with a default-constructed initial value.
    fn default() -> (r: Self)
        ensures
            r.wf(),
            forall|i: int|
                0 <= i < 3 ==> call_ensures(T::default, (), #[trigger] r.buffers_view()[i]),
            r.status_view() == Status::initial(),
            r.live_input() is None,
            r.live_output() is None,
    {
        Self::from_fn(T::default)
    }
}

impl<T: PartialEq> TripleBuffer<T> {
    /// Like `Eq`: compare the buffers, then the control state.
    pub fn seq_eq(&mut self, other: &mut Self) -> (r: bool)
        ensures
            *final(self) == *old(self),
            *final(other) == *old(other),
            r ==> old(self).status_view() == old(other).status_view(),
            T::obeys_eq_spec() ==> (r == ((forall|i: int|
                0 <= i < 3 ==> (#[trigger] old(self).buffers_view()[i]).eq_spec(
                    &old(other).buffers_view()[i],
                )) && old(self).status_view() == old(other).status_view())),
    {
        // Compare the buffers pair by pair, stopping at the first difference
        let buffers_equal = if !(self.buffers[0] == other.buffers[0]) {
            assert(T::obeys_eq_spec() ==> !self.buffers_view()[0].eq_spec(&other.buffers_view()[0]));
            false
        } else if !(self.buffers[1] == other.buffers[1]) {
            assert(T::obeys_eq_spec() ==> !self.buffers_view()[1].eq_spec(&other.buffers_view()[1]));
            false
        } else {
            let equal2 = self.buffers[2] == other.buffers[2];
            proof {
                let sb = self.buffers_view();
                let ob = other.buffers_view();
                if T::obeys_eq_spec() && equal2 {
                    assert forall|i: int| 0 <= i < 3 implies (#[trigger] sb[i]).eq_spec(&ob[i]) by {
                        if i == 0 {
                        } else if i == 1 {
                        } else {
                        }
                    }
                }
            }
            equal2
        };
        buffers_equal && self.status == other.status
    }
}

impl Input {
    /// Index of the input buffer.
    pub fn input_idx(&self) -> (r: u8)
        ensures
            r == self@,
    {
        self.input_idx
    }

    /// Set up the producer interface of a triple buffer that has none.
    pub fn new<T>(shared: &mut TripleBuffer<T>) -> (r: Input)
        requires
            old(shared).wf(),
            old(shared).live_input() is None,
        ensures
            final(shared).wf(),
            final(shared).live_input() == Some(r@),
            r@ == old(shared).slots().input,
            final(shared).slots() == old(shared).slots(),
            final(shared).buffers_view() == old(shared).buffers_view(),
            final(shared).live_output() == old(shared).live_output(),
            final(shared).status_view().back_info == old(shared).status_view().back_info,
            final(shared).status_view().next_io_indices == set_next_input(
                old(shared).status_view().next_io_indices,
                NO_BUFFER_IDX as int,
            ),
    {
        let input_idx = shared.status.claim_input();
        shared.live_input = Ghost(Some(input_idx));
        Input { input_idx }
    }

    /// Give the producer interface up, recording its buffer index for the
    /// next input handle.
    pub fn close<T>(self, shared: &mut TripleBuffer<T>)
        requires
            old(shared).wf(),
            old(shared).live_input() == Some(self@),
        ensures
            final(shared).wf(),
            final(shared).live_input() is None,
            final(shared).slots() == old(shared).slots(),
            final(shared).buffers_view() == old(shared).buffers_view(),
            final(shared).live_output() == old(shared).live_output(),
            final(shared).status_view().back_info == old(shared).status_view().back_info,
            final(shared).status_view().next_io_indices == set_next_input(
                old(shared).status_view().next_io_indices,
                self@ as int,
            ),
    {
        shared.status.restore_input(self.input_idx);
        shared.live_input = Ghost(None);
    }

    /// Write a new value into the triple buffer and publish it.
    pub fn write<T>(&mut self, shared: &mut TripleBuffer<T>, value: T)
        requires
            old(shared).wf(),
            old(shared).live_input() == Some(old(self)@),
        ensures
            final(shared).wf(),
            final(shared).live_input() == Some(final(self)@),
            final(shared).live_output() == old(shared).live_output(),
            final(shared).buffers_view() == old(shared).buffers_view().update(
                old(self)@ as int,
                value,
            ),
            final(shared).slots() == published(old(shared).slots()),
            final(shared).status_view().next_io_indices == old(shared).status_view().next_io_indices,
    {
        *self.input_buffer_mut(shared) = value;
        self.publish(shared);
    }

    /// Check if the consumer has fetched the latest publication yet.
    pub fn consumed<T>(&self, shared: &TripleBuffer<T>) -> (r: bool)
        requires
            shared.wf(),
        ensures
            r == !shared.slots().dirty,
    {
        !shared.status.updated()
    }

    /// Query the current value of the input buffer.
    pub fn input_buffer<'a, T>(&self, shared: &'a TripleBuffer<T>) -> (r: &'a T)
        requires
            shared.wf(),
            shared.live_input() == Some(self@),
        ensures
            *r == shared.input_value(),
    {
        &shared.buffers[self.input_idx as usize]
    }

    /// Access the input buffer in place.
    ///
    /// The buffer does not hold the last published value, and may hold
    /// something the consumer left there: reset it before use.
    pub fn input_buffer_mut<'a, T>(&mut self, shared: &'a mut TripleBuffer<T>) -> (r: &'a mut T)
        requires
            old(shared).wf(),
            old(shared).live_input() == Some(old(self)@),
        ensures
            *final(self) == *old(self),
            *r == old(shared).input_value(),
            final(shared).buffers_view() == old(shared).buffers_view().update(
                old(self)@ as int,
                *final(r),
            ),
            final(shared).status_view() == old(shared).status_view(),
            final(shared).live_input() == old(shared).live_input(),
            final(shared).live_output() == old(shared).live_output(),
    {
        &mut shared.buffers[self.input_idx as usize]
    }

    /// Publish the current input buffer, taking the back buffer in exchange.
    ///
    /// Returns whether a publication that the consumer had not fetched was
    /// overwritten.
    pub fn publish<T>(&mut self, shared: &mut TripleBuffer<T>) -> (overwrote: bool)
        requires
            old(shared).wf(),
            old(shared).live_input() == Some(old(self)@),
        ensures
            final(shared).wf(),
            final(shared).slots() == published(old(shared).slots()),
            overwrote == old(shared).slots().dirty,
            final(shared).live_input() == Some(final(self)@),
            final(shared).live_output() == old(shared).live_output(),
            final(shared).buffers_view() == old(shared).buffers_view(),
            final(shared).status_view().next_io_indices == old(shared).status_view().next_io_indices,
    {
        let (new_input_idx, overwrote) = shared.status.publish(self.input_idx);
        self.input_idx = new_input_idx;
        shared.live_input = Ghost(Some(new_input_idx));
        overwrote
    }
}

impl Output {
    /// Index of the output buffer.
    pub fn output_idx(&self) -> (r: u8)
        ensures
            r == self@,
    {
        self.output_idx
    }

    /// Set up the consumer interface of a triple buffer that has none.
    pub fn new<T>(shared: &mut TripleBuffer<T>) -> (r: Output)
        requires
            old(shared).wf(),
            old(shared).live_output() is None,
        ensures
            final(shared).wf(),
            final(shared).live_output() == Some(r@),
            r@ == old(shared).slots().output,
            final(shared).slots() == old(shared).slots(),
            final(shared).buffers_view() == old(shared).buffers_view(),
            final(shared).live_input() == old(shared).live_input(),
            final(shared).status_view().back_info == old(shared).status_view().back_info,
            final(shared).status_view().next_io_indices == set_next_output(
                old(shared).status_view().next_io_indices,
                NO_BUFFER_IDX as int,
            ),
    {
        let output_idx = shared.status.claim_output();
        shared.live_output = Ghost(Some(output_idx));
        Output { output_idx }
    }

    /// Give the consumer interface up, recording its buffer index for the
    /// next output handle.
    pub fn close<T>(self, shared: &mut TripleBuffer<T>)
        requires
            old(shared).wf(),
            old(shared).live_output() == Some(self@),
        ensures
            final(shared).wf(),
            final(shared).live_output() is None,
            final(shared).slots() == old(shared).slots(),
            final(shared).buffers_view() == old(shared).buffers_view(),
            final(shared).live_input() == old(shared).live_input(),
            final(shared).status_view().back_info == old(shared).status_view().back_info,
            final(shared).status_view().next_io_indices == set_next_output(
                old(shared).status_view().next_io_indices,
                self@ as int,
            ),
    {
        shared.status.restore_output(self.output_idx);
        shared.live_output = Ghost(None);
    }

    /// Fetch the latest publication, if any, and access the output buffer.
    pub fn read<'a, T>(&mut self, shared: &'a mut TripleBuffer<T>) -> (r: &'a T)
        requires
            old(shared).wf(),
            old(shared).live_output() == Some(old(self)@),
        ensures
            final(shared).wf(),
            final(shared).slots() == updated(old(shared).slots()),
            final(shared).live_output() == Some(final(self)@),
            final(shared).live_input() == old(shared).live_input(),
            final(shared).buffers_view() == old(shared).buffers_view(),
            final(shared).status_view().next_io_indices == old(shared).status_view().next_io_indices,
            *r == final(shared).output_value(),
    {
        self.update(shared);
        self.output_buffer(shared)
    }

    /// Tell whether the producer published something not fetched yet.
    pub fn updated<T>(&self, shared: &TripleBuffer<T>) -> (r: bool)
        requires
            shared.wf(),
        ensures
            r == shared.slots().dirty,
    {
        shared.status.updated()
    }

    /// Query the current value of the output buffer.
    ///
    /// Same as [`output_buffer()`](Self::output_buffer), which should be
    /// used instead.
    pub fn peek_output_buffer<'a, T>(&self, shared: &'a TripleBuffer<T>) -> (r: &'a T)
        requires
            shared.wf(),
            shared.live_output() == Some(self@),
        ensures
            *r == shared.output_value(),
    {
        self.output_buffer(shared)
    }

    /// Query the current value of the output buffer, without fetching
    /// updates.
    pub fn output_buffer<'a, T>(&self, shared: &'a TripleBuffer<T>) -> (r: &'a T)
        requires
            shared.wf(),
            shared.live_output() == Some(self@),
        ensures
            *r == shared.output_value(),
    {
        &shared.buffers[self.output_idx as usize]
    }

    /// Access the output buffer in place, without fetching updates.
    ///
    /// Changes are lost when an update replaces the output buffer.
    pub fn output_buffer_mut<'a, T>(&mut self, shared: &'a mut TripleBuffer<T>) -> (r: &'a mut T)
        requires
            old(shared).wf(),
            old(shared).live_output() == Some(old(self)@),
        ensures
            *final(self) == *old(self),
            *r == old(shared).output_value(),
            final(shared).buffers_view() == old(shared).buffers_view().update(
                old(self)@ as int,
                *final(r),
            ),
            final(shared).status_view() == old(shared).status_view(),
            final(shared).live_input() == old(shared).live_input(),
            final(shared).live_output() == old(shared).live_output(),
    {
        &mut shared.buffers[self.output_idx as usize]
    }

    /// Fetch the latest publication if there is one.
    ///
    /// Returns whether an update was carried out; changes made to the old
    /// output buffer are then lost.
    pub fn update<T>(&mut self, shared: &mut TripleBuffer<T>) -> (r: bool)
        requires
            old(shared).wf(),
            old(shared).live_output() == Some(old(self)@),
        ensures
            final(shared).wf(),
            final(shared).slots() == updated(old(shared).slots()),
            r == old(shared).slots().dirty,
            final(shared).live_output() == Some(final(self)@),
            final(shared).live_input() == old(shared).live_input(),
            final(shared).buffers_view() == old(shared).buffers_view(),
            final(shared).status_view().next_io_indices == old(shared).status_view().next_io_indices,
    {
        let (new_output_idx, updated) = shared.status.update(self.output_idx);
        self.output_idx = new_output_idx;
        shared.live_output = Ghost(Some(new_output_idx));
        updated
    }
}

} // verus!
