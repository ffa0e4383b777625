use std::fmt::Debug;

use triple_buffer::bits::{BACK_IDX_MASK, BACK_UPDATED_BIT};
use triple_buffer::buffer::{Input, Output, TripleBuffer};

/// A triple buffer together with its producer and consumer handles.
struct Setup<T> {
    buf: TripleBuffer<T>,
    input: Input,
    output: Output,
}

fn setup<T: Clone>(initial: &T) -> Setup<T> {
    let mut buf = TripleBuffer::new(initial);
    let (input, output) = buf.inout();
    Setup { buf, input, output }
}

/// Shared state holding `values` whose back-info word is `back_info` (a
/// clean one), reached through publish/update cycles.
fn shared_state<T>(values: [T; 3], back_info: usize) -> TripleBuffer<T> {
    assert!(back_info < 3);
    let mut buf = TripleBuffer::from_values(values);
    let (mut input, mut output) = buf.inout();
    let mut cycles = 0;
    while buf.status().back_info != back_info {
        assert!(cycles < 3);
        input.publish(&mut buf);
        output.update(&mut buf);
        cycles += 1;
    }
    buf
}

/// Check the state of a buffer, and the effect of queries on it
fn check_buf_state<T>(s: &mut Setup<T>, expected_dirty_bit: bool)
where
    T: Clone + Debug + PartialEq,
{
    // Make a backup of the buffer's initial state
    let mut initial_buf = s.buf.seq_clone();

    // Access the shared state and decode back-buffer information
    let back_info = s.buf.status().back_info;
    let back_idx = (back_info & BACK_IDX_MASK) as u8;
    let back_buffer_dirty = back_info & BACK_UPDATED_BIT != 0;

    // Input-/output-/back-buffer indexes must be in range
    assert!(index_in_range(s.input.input_idx()));
    assert!(index_in_range(s.output.output_idx()));
    assert!(index_in_range(back_idx));

    // Input-/output-/back-buffer indexes must be distinct
    assert!(s.input.input_idx() != s.output.output_idx());
    assert!(s.input.input_idx() != back_idx);
    assert!(s.output.output_idx() != back_idx);

    // Back-buffer must have the expected dirty bit
    assert_eq!(back_buffer_dirty, expected_dirty_bit);

    // Check that the "input buffer" query behaves as expected
    assert!(std::ptr::eq(
        s.input.input_buffer(&s.buf),
        &s.buf.buffers()[s.input.input_idx() as usize]
    ));
    let input_address = format!("{:p}", s.input.input_buffer_mut(&mut s.buf));
    assert_eq!(
        input_address,
        format!("{:p}", &s.buf.buffers()[s.input.input_idx() as usize])
    );
    assert!(s.buf.seq_eq(&mut initial_buf));

    // Check that the "consumed" query behaves as expected
    assert_eq!(!s.input.consumed(&s.buf), expected_dirty_bit);
    assert!(s.buf.seq_eq(&mut initial_buf));

    // Check that the output_buffer query works in the initial state
    assert!(std::ptr::eq(
        s.output.output_buffer(&s.buf),
        &s.buf.buffers()[s.output.output_idx() as usize]
    ));
    assert!(s.buf.seq_eq(&mut initial_buf));

    // Check that the output buffer query works in the initial state
    assert_eq!(s.output.updated(&s.buf), expected_dirty_bit);
    assert!(s.buf.seq_eq(&mut initial_buf));
}

/// Whether two set-ups have equal shared state and handles holding the same
/// buffers.
fn same_setup<T: PartialEq>(a: &mut Setup<T>, b: &mut Setup<T>) -> bool {
    a.buf.seq_eq(&mut b.buf)
        && a.input.input_idx() == b.input.input_idx()
        && a.output.output_idx() == b.output.output_idx()
}

/// Range check for triple buffer indexes
fn index_in_range(idx: u8) -> bool {
    (0..=2).contains(&idx)
}

/// Check that triple buffers are properly initialized
#[test]
fn initial_state() {
    let mut s = setup(&42);
    check_buf_state(&mut s, false);
    assert_eq!(*s.output.read(&mut s.buf), 42);
}

/// Check that the shared state's equality operator works
#[test]
fn partial_eq_shared() {
    // Let's create some dummy shared state
    let mut dummy_state = shared_state([111u16, 222, 333], 0b10);

    // Check that the dummy state is equal to an identical state
    assert!(dummy_state.seq_eq(&mut shared_state([111, 222, 333], 0b10)));

    // Check that it's not equal to a state where buffer contents differ
    assert!(!dummy_state.seq_eq(&mut shared_state([114, 222, 333], 0b10)));
    assert!(!dummy_state.seq_eq(&mut shared_state([111, 225, 333], 0b10)));
    assert!(!dummy_state.seq_eq(&mut shared_state([111, 222, 336], 0b10)));

    // Check that it's not equal to a state where the back info differs
    assert!(!dummy_state.seq_eq(&mut shared_state(
        [111, 222, 333],
        BACK_UPDATED_BIT & 0b10
    )));
    assert!(!dummy_state.seq_eq(&mut shared_state([111, 222, 333], 0b01)));
}

/// Check that the shared state's clone operator works
#[test]
fn clone_shared() {
    // Let's create some dummy shared state
    let mut dummy_state = shared_state([123u8, 231, 132], BACK_UPDATED_BIT & 0b01);

    // Now, try to clone it
    let mut dummy_state_copy = dummy_state.seq_clone();

    // Check that the contents of the original state did not change
    assert!(dummy_state.seq_eq(&mut shared_state([123, 231, 132], BACK_UPDATED_BIT & 0b01)));

    // Check that the contents of the original and final state are identical
    assert!(dummy_state.seq_eq(&mut dummy_state_copy));
}

/// Check that the low-level publish/update primitives work
#[test]
fn swaps() {
    // Create a new buffer, and a way to track any changes to it
    let mut s = setup(&[123, 456]);
    let mut old_buf = s.buf.seq_clone();
    let old_input_idx = s.input.input_idx();
    let old_back_info = s.buf.status().back_info;
    let old_back_idx = (old_back_info & BACK_IDX_MASK) as u8;
    let old_output_idx = s.output.output_idx();

    // Check that updating from a clean state works
    assert!(!s.output.update(&mut s.buf));
    assert!(s.buf.seq_eq(&mut old_buf));
    assert_eq!(s.output.output_idx(), old_output_idx);
    check_buf_state(&mut s, false);

    // Check that publishing from a clean state works
    assert!(!s.input.publish(&mut s.buf));
    assert_eq!(s.input.input_idx(), old_back_idx);
    assert_eq!(
        s.buf.status().back_info,
        old_input_idx as usize | BACK_UPDATED_BIT
    );
    assert_eq!(s.buf.buffers(), old_buf.buffers());
    check_buf_state(&mut s, true);

    // Check that overwriting a dirty state works
    assert!(s.input.publish(&mut s.buf));
    assert_eq!(s.input.input_idx(), old_input_idx);
    assert_eq!(
        s.buf.status().back_info,
        old_back_idx as usize | BACK_UPDATED_BIT
    );
    assert_eq!(s.buf.buffers(), old_buf.buffers());
    check_buf_state(&mut s, true);

    // Check that updating from a dirty state works
    assert!(s.output.update(&mut s.buf));
    assert_eq!(s.output.output_idx(), old_back_idx);
    assert_eq!(s.buf.status().back_info, old_output_idx as usize);
    assert_eq!(s.buf.buffers(), old_buf.buffers());
    check_buf_state(&mut s, false);
}

/// Check that (sequentially) writing to a triple buffer works
#[test]
fn sequential_write() {
    // Let's create a triple buffer
    let mut s = setup(&false);

    // Perform a write
    s.input.write(&mut s.buf, true);

    // Check new implementation state
    {
        // Starting from the old buffer state...
        let mut expected = setup(&false);

        // ...write the new value in and swap...
        *expected.input.input_buffer_mut(&mut expected.buf) = true;
        expected.input.publish(&mut expected.buf);

        // Nothing else should have changed
        assert!(s.buf.seq_eq(&mut expected.buf));
        assert_eq!(s.input.input_idx(), expected.input.input_idx());
        assert_eq!(s.output.output_idx(), expected.output.output_idx());
        check_buf_state(&mut s, true);
    }
}

/// Check that (sequentially) reading from a triple buffer works
#[test]
fn sequential_read() {
    // Let's create a triple buffer and write into it
    let written = || {
        let mut s = setup(&1.0);
        s.input.write(&mut s.buf, 4.2);
        s
    };
    let mut s = written();

    // Test readout from dirty (freshly written) triple buffer
    {
        // Read from the buffer
        let result = *s.output.read(&mut s.buf);

        // Output value should be correct
        assert_eq!(result, 4.2);

        // Result should be equivalent to carrying out an update
        let mut expected = written();
        assert!(expected.output.update(&mut expected.buf));
        assert!(s.buf.seq_eq(&mut expected.buf));
        assert_eq!(s.output.output_idx(), expected.output.output_idx());
        check_buf_state(&mut s, false);
    }

    // Test readout from clean (unchanged) triple buffer
    {
        // Back up the initial buffer state
        let mut old_buf = s.buf.seq_clone();
        let old_output_idx = s.output.output_idx();

        // Read from the buffer
        let result = *s.output.read(&mut s.buf);

        // Output value should be correct
        assert_eq!(result, 4.2);

        // Buffer state should be unchanged
        assert!(s.buf.seq_eq(&mut old_buf));
        assert_eq!(s.output.output_idx(), old_output_idx);
        check_buf_state(&mut s, false);
    }
}

/// Check that equality of triple buffers covers the contents, the shared state
/// and which buffer each handle holds
#[test]
fn partial_eq() {
    // Create a triple buffer
    let mut buf = setup(&"test");

    // Check that it is equal to an identical one
    assert!(same_setup(&mut buf, &mut setup(&"test")));

    // Make another buffer with different contents. As buffer creation is
    // deterministic, this should only have an impact on the shared state,
    // but the buffers should nevertheless be considered different.
    let mut buf2 = setup(&"taste");
    assert_eq!(buf.input.input_idx(), buf2.input.input_idx());
    assert_eq!(buf.output.output_idx(), buf2.output.output_idx());
    assert!(!same_setup(&mut buf, &mut buf2));

    // Check that the handles' buffer indices are compared too: this buffer
    // ends up with the same contents and shared state, but with the input
    // and output buffers exchanged
    let mut buf3 = setup(&"test");
    assert!(same_setup(&mut buf, &mut buf3));
    buf3.input.publish(&mut buf3.buf);
    buf3.input.publish(&mut buf3.buf);
    buf3.output.update(&mut buf3.buf);
    buf3.input.publish(&mut buf3.buf);
    buf3.output.update(&mut buf3.buf);
    assert!(buf.buf.seq_eq(&mut buf3.buf));
    assert_eq!(buf3.input.input_idx(), buf.output.output_idx());
    assert_eq!(buf3.output.output_idx(), buf.input.input_idx());
    assert!(!same_setup(&mut buf, &mut buf3));
}

/// Check that TripleBuffer's clone works
#[test]
fn clone() {
    // Create a triple buffer in a nontrivial state: input buffer #2, output
    // buffer #0, back buffer #1, nothing pending
    let mut buf = TripleBuffer::from_values([1.2, 3.4, 5.6]);
    let (mut input, mut output) = buf.inout();
    input.publish(&mut buf);
    output.update(&mut buf);
    input.publish(&mut buf);
    output.update(&mut buf);
    assert_eq!(input.input_idx(), 0b10);
    assert_eq!(output.output_idx(), 0b00);
    assert_eq!(buf.status().back_info, 0b01);

    // Now clone it
    let mut buf_clone = buf.seq_clone();

    // Check that the clone uses its own, separate data storage
    assert!(!std::ptr::eq(buf_clone.buffers(), buf.buffers()));

    // Check that it is identical from the equality's point of view
    assert!(buf.seq_eq(&mut buf_clone));

    // Check that the contents of the original buffer did not change
    assert_eq!(buf.buffers(), &[1.2, 3.4, 5.6]);
    assert_eq!(buf.status().back_info, 0b01);
    assert_eq!(input.input_idx(), 0b10);
    assert_eq!(output.output_idx(), 0b00);
}

/// Check that writing to a triple buffer in place works, including the
/// surprise when the producer publishes twice without a read in between: it
/// gets back a buffer that still holds its earlier, unread value
#[test]
fn surprising_read_after_overwrite() {
    let mut s = setup(&Vec::<i32>::new());

    // write new value, publish, read
    {
        let buffer = s.input.input_buffer_mut(&mut s.buf);
        buffer.push(0);
        buffer.push(1);
        buffer.push(2);

        // not yet published
        let back_info = s.buf.status().back_info;
        let back_buffer_dirty = back_info & BACK_UPDATED_BIT != 0;
        assert!(!back_buffer_dirty);
        s.input.publish(&mut s.buf);
    }
    check_buf_state(&mut s, true); // after publish, before read
    assert_eq!(*s.output.read(&mut s.buf), vec![0, 1, 2]);
    check_buf_state(&mut s, false); // after publish and read

    // write new value, publish, don't read
    s.input.input_buffer_mut(&mut s.buf).push(3);
    assert!(!s.input.publish(&mut s.buf));
    check_buf_state(&mut s, true);

    // write new value, publish, read
    s.input.input_buffer_mut(&mut s.buf).push(4);
    assert!(s.input.publish(&mut s.buf));
    assert_eq!(*s.output.read(&mut s.buf), vec![4]);
    check_buf_state(&mut s, false);

    // overwrite existing value, publish, surprising read
    s.input.input_buffer_mut(&mut s.buf).push(5);
    s.input.publish(&mut s.buf);
    assert_eq!(*s.output.read(&mut s.buf), vec![3, 5]);
    check_buf_state(&mut s, false);

    // to avoid surprise, always clear before write
    {
        let buffer = s.input.input_buffer_mut(&mut s.buf);
        buffer.clear();
        buffer.push(6);
        s.input.publish(&mut s.buf);
    }
    assert_eq!(*s.output.read(&mut s.buf), vec![6]);
    check_buf_state(&mut s, false);
}
