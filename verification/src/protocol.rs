use vstd::prelude::*;

verus! {

/// Which of the three buffers each party holds, and whether the back buffer
/// holds a publication that the consumer has not fetched yet.
pub struct Slots {
    /// Buffer that the producer writes into.
    pub input: u8,
    /// Buffer that the consumer reads from.
    pub output: u8,
    /// Buffer that neither party holds.
    pub back: u8,
    /// Whether the back buffer was published since the last update.
    pub dirty: bool,
}

/// The producer, the consumer and the back buffer each hold a distinct buffer.
pub open spec fn distinct_slots(s: Slots) -> bool {
    &&& s.input < 3
    &&& s.output < 3
    &&& s.back < 3
    &&& s.input != s.output
    &&& s.input != s.back
    &&& s.output != s.back
}

/// Slots after the producer publishes its input buffer.
pub open spec fn published(s: Slots) -> Slots {
    Slots { input: s.back, output: s.output, back: s.input, dirty: true }
}

/// Slots after the consumer fetches an update, if one is pending.
pub open spec fn updated(s: Slots) -> Slots {
    if s.dirty {
        Slots { input: s.input, output: s.back, back: s.output, dirty: false }
    } else {
        s
    }
}

/// Slots of a fresh triple buffer: input #1, output #2, back #0, nothing pending.
pub open spec fn initial_slots() -> Slots {
    Slots { input: 1, output: 2, back: 0, dirty: false }
}

/// The producer and the consumer never share a buffer: publishing and
/// updating keep the three buffers distinct.
pub proof fn lemma_transitions_keep_slots_distinct(s: Slots)
    requires
        distinct_slots(s),
    ensures
        distinct_slots(published(s)),
        distinct_slots(updated(s)),
{
}

/// After the producer publishes, the consumer's next update hands it the
/// very buffer that was published.
pub proof fn lemma_update_fetches_publication(s: Slots)
    requires
        distinct_slots(s),
    ensures
        updated(published(s)).output == s.input,
        !updated(published(s)).dirty,
{
}

/// A value written into the input buffer and published is what the consumer
/// sees after its next update.
pub proof fn lemma_update_delivers_written_value<T>(buffers: Seq<T>, s: Slots, value: T)
    requires
        distinct_slots(s),
        buffers.len() == 3,
    ensures
        buffers.update(s.input as int, value)[updated(published(s)).output as int] == value,
{
}

/// An update with nothing pending changes nothing, so updating twice in a
/// row is the same as updating once, and the second update reports nothing.
pub proof fn lemma_update_idempotent(s: Slots)
    ensures
        !s.dirty ==> updated(s) == s,
        updated(updated(s)) == updated(s),
        !updated(s).dirty,
{
}

/// Publishing twice without an update in between reports an overwrite the
/// second time and gives the producer back the buffer it held before the
/// first publication, while the consumer keeps its own buffer.
pub proof fn lemma_double_publish(s: Slots)
    ensures
        published(s).dirty,
        published(published(s)).input == s.input,
        published(published(s)).back == s.back,
        published(published(s)).output == s.output,
{
}

/// Whatever the producer does, the consumer keeps reading the same buffer
/// until it updates.
pub proof fn lemma_publish_keeps_output(s: Slots)
    ensures
        published(s).output == s.output,
{
}

} // verus!
