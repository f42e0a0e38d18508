use ness_core::ring;

#[test]
fn chunk_len_is_capped_at_half_the_ring() {
    assert_eq!(ring::chunk_len(10), 10);
    assert_eq!(ring::chunk_len(0x400), 0x400);
    assert_eq!(ring::chunk_len(5000), 0x400);
    assert_eq!(ring::chunk_len(0), 0);
}

#[test]
fn ring_distance_wraps_around_the_capacity() {
    assert_eq!(ring::ring_distance(5, 3), 2);
    assert_eq!(ring::ring_distance(3, 5), 0x800 - 2);
    assert_eq!(ring::ring_distance(0, 0x7FF), 1);
    assert_eq!(ring::ring_distance(7, 7), 0);
}

#[test]
fn writer_waits_until_enough_samples_were_played() {
    // reader only 4 ahead of the writer: writing 8 must wait
    assert!(ring::writer_must_wait(12, 8, 8));
    // reader far ahead: room to write
    assert!(!ring::writer_must_wait(600, 8, 8));
}

#[test]
fn overwrite_moves_the_read_position_past_the_new_samples() {
    // reader within the region about to be overwritten
    assert_eq!(ring::overwritten_read_pos(10, 8, 8), Some(17));
    // wraps at the capacity
    assert_eq!(ring::overwritten_read_pos(0x7FE, 0x7FD, 8), Some((0x7FD + 9) % 0x800));
    // reader far away: untouched
    assert_eq!(ring::overwritten_read_pos(600, 8, 8), None);
}

#[test]
fn positions_step_and_wrap() {
    assert_eq!(ring::next_pos(0), 1);
    assert_eq!(ring::next_pos(0x7FF), 0);
}

#[test]
fn reader_stops_at_the_write_position() {
    assert_eq!(ring::reader_next_pos(4, 6), Some(5));
    // stepping would catch up with the writer: the ring is empty
    assert_eq!(ring::reader_next_pos(5, 6), None);
    assert_eq!(ring::reader_next_pos(0x7FF, 1), Some(0));
}
