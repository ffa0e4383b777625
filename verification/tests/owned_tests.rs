use triple_buffer::owned::TripleBuffer;

/// Range check for triple buffer indexes
fn index_in_range(idx: usize) -> bool {
    idx <= 2
}

/// Test that triple buffers are properly initialized
#[test]
fn test_init() {
    // Let's create a triple buffer
    let buf = TripleBuffer::new(42);

    // Cache shared indices for convenience
    let back_idx = buf.back_idx();
    let last_idx = buf.last_idx();

    // Write, read and back-buffer indexes must be in range
    assert!(index_in_range(buf.read_idx()));
    assert!(index_in_range(buf.write_idx()));
    assert!(index_in_range(back_idx));

    // Write, read and back-buffer indexes must be distinct
    assert!(buf.read_idx() != buf.write_idx());
    assert!(buf.read_idx() != back_idx);
    assert!(buf.write_idx() != back_idx);

    // Read buffer must be properly initialized
    assert!(buf.storage()[buf.read_idx()] == 42);

    // Last-written index must initially point to read buffer
    assert_eq!(last_idx, buf.read_idx());
}

/// Test that (sequentially) writing to a triple buffer works
#[test]
fn test_seq_write() {
    // Let's create a triple buffer
    let mut buf = TripleBuffer::new(false);

    // Back up initial state
    let init_storage = buf.storage().clone();
    let init_write_idx = buf.write_idx();
    let init_back_idx = buf.back_idx();
    let init_read_idx = buf.read_idx();

    // Perform a write
    buf.write(true);

    // Only the write buffer should have changed
    let mut expected_storage = init_storage.clone();
    expected_storage[init_write_idx] = true;
    assert_eq!(*buf.storage(), expected_storage);

    // Write index should point to the former back buffer
    assert_eq!(buf.write_idx(), init_back_idx);

    // Back index should point to the former write buffer
    let new_back_idx = buf.back_idx();
    assert_eq!(new_back_idx, init_write_idx);

    // Read index should not change
    assert_eq!(buf.read_idx(), init_read_idx);

    // Last index should point to the newly written buffer
    let new_last_idx = buf.last_idx();
    assert_eq!(new_last_idx, init_write_idx);
}

/// Check that (sequentially) reading from a triple buffer works
#[test]
fn test_seq_read() {
    // Let's create a triple buffer and write into it
    let mut buf = TripleBuffer::new(1.0);
    buf.write(4.2);

    // Test readout from dirty (freshly written) triple buffer
    {
        // Back up initial state
        let init_storage = buf.storage().clone();
        let init_write_idx = buf.write_idx();
        let init_read_idx = buf.read_idx();
        let init_last_idx = buf.last_idx();

        // Read from the buffer
        let result = *buf.read();

        // Output value should be correct
        assert_eq!(result, 4.2);

        // Storage should not change
        assert_eq!(*buf.storage(), init_storage);

        // Write index should not change
        assert_eq!(buf.write_idx(), init_write_idx);

        // Back index should point to the former read buffer
        let new_back_idx = buf.back_idx();
        assert_eq!(new_back_idx, init_read_idx);

        // Read index should point to the last written index
        assert_eq!(buf.read_idx(), init_last_idx);

        // Last index should not change
        let new_last_idx = buf.last_idx();
        assert_eq!(new_last_idx, init_last_idx);
    }

    // Test readout from clean (unchanged) triple buffer
    {
        // Back up initial state
        let init_storage = buf.storage().clone();
        let init_write_idx = buf.write_idx();
        let init_back_idx = buf.back_idx();
        let init_read_idx = buf.read_idx();
        let init_last_idx = buf.last_idx();

        // Read from the buffer
        let result = *buf.read();

        // Output value should be correct
        assert_eq!(result, 4.2);

        // Storage should not change
        assert_eq!(*buf.storage(), init_storage);

        // Write index should not change
        assert_eq!(buf.write_idx(), init_write_idx);

        // Back index should not change
        let new_back_idx = buf.back_idx();
        assert_eq!(new_back_idx, init_back_idx);

        // Read index should not change
        assert_eq!(buf.read_idx(), init_read_idx);

        // Last index should not change
        let new_last_idx = buf.last_idx();
        assert_eq!(new_last_idx, init_last_idx);
    }
}

/// The reader always gets the latest value, however many writes happened
/// since its last read, and only buffer indices move on reads.
#[test]
fn owned_read_returns_latest_write() {
    let mut buf = TripleBuffer::new(0u32);
    assert_eq!(*buf.read(), 0);
    buf.write(1);
    buf.write(2);
    buf.write(3);
    assert_eq!(*buf.read(), 3);
    assert_eq!(*buf.read(), 3);
    buf.write(4);
    assert_eq!(*buf.read(), 4);
}

/// The first read of a fresh buffer swaps nothing: the last written index is
/// the read index.
#[test]
fn owned_initial_read_keeps_indices() {
    let mut buf = TripleBuffer::new(String::from("Hello!"));
    assert_eq!(buf.read(), "Hello!");
    assert_eq!(
        (buf.write_idx(), buf.back_idx(), buf.read_idx(), buf.last_idx()),
        (0, 1, 2, 2)
    );
    buf.write(String::from("World!"));
    assert_eq!(
        (buf.write_idx(), buf.back_idx(), buf.read_idx(), buf.last_idx()),
        (1, 0, 2, 0)
    );
    assert_eq!(buf.read(), "World!");
    assert_eq!(
        (buf.write_idx(), buf.back_idx(), buf.read_idx(), buf.last_idx()),
        (1, 2, 0, 0)
    );
}
