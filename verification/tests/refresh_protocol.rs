use vibi::BufferError;
use vibi::hex_grid_buffer::{HexGridBuffer, RefreshStatus, StateVertex};
use vibi::map::SliceRangeMap;
use vibi::rng::RandomSource;

fn grid_64x64() -> HexGridBuffer {
    // 64 slices of 64 cells each: 4096 cells in total
    let map = SliceRangeMap::new(vec![64; 64]).unwrap();
    HexGridBuffer::new(map, false)
}

fn mirror_bytes(buf: &HexGridBuffer) -> Vec<u8> {
    let total = buf.tract_map().slc_id_range();
    let mut out = Vec::new();
    for slc_id in total.start..total.end {
        for v in buf.raw_states_buf(slc_id).unwrap() {
            out.push(v.state);
        }
    }
    out
}

#[test]
fn mirror_len_matches_map_total_and_never_changes() {
    let mut buf = grid_64x64();
    assert_eq!(mirror_bytes(&buf).len(), 4096);
    assert_eq!(buf.cur_axn_range(), 0..4096);
    let handle = buf.raw_states_vec();
    assert_eq!(handle.len(), 4096);
    buf.fill_rand(&mut RandomSource::new()).unwrap();
    buf.refresh_vertex_buf().unwrap();
    assert_eq!(mirror_bytes(&buf).len(), 4096);
    assert_eq!(buf.cur_axn_range(), 0..4096);
}

#[test]
fn construction_zero_fills_4096_cells() {
    let buf = grid_64x64();
    let bytes = mirror_bytes(&buf);
    assert_eq!(bytes.len(), 4096);
    assert!(bytes.iter().all(|&b| b == 0));
}

#[test]
fn uncontended_refresh_copies_the_whole_buffer() {
    let mut buf = grid_64x64();
    let handle = buf.raw_states_vec();
    let mut payload = handle.read().unwrap();
    for (i, cell) in payload.iter_mut().enumerate() {
        *cell = (i % 251) as u8;
    }
    handle.write(&payload).unwrap();
    assert_eq!(buf.refresh_vertex_buf().unwrap(), RefreshStatus::Refreshed);
    assert_eq!(mirror_bytes(&buf), payload);

    // with no new producer write, another refresh re-copies the same
    // snapshot: last write wins, nothing is queued
    assert_eq!(buf.refresh_vertex_buf().unwrap(), RefreshStatus::Refreshed);
    assert_eq!(mirror_bytes(&buf), payload);
}

#[test]
fn mirror_copy_rejects_wrong_length_and_copies_exact_length() {
    let map = SliceRangeMap::new(vec![2, 3]).unwrap();
    let mut buf = HexGridBuffer::new(map, false);

    let short = vec![1u8, 2, 3];
    assert_eq!(buf.write_to_buf(&short).unwrap_err(), BufferError::LengthMismatch);
    assert_eq!(mirror_bytes(&buf), vec![0u8; 5]);

    let exact = vec![1u8, 2, 3, 4, 5];
    buf.write_to_buf(&exact).unwrap();
    assert_eq!(mirror_bytes(&buf), exact);
}

#[test]
fn contended_refresh_skips_and_leaves_mirror_intact() {
    let mut buf = grid_64x64();
    let handle = buf.raw_states_vec();

    // producer commits a snapshot with cell 10 set to 200
    let mut payload = handle.read().unwrap();
    payload[10] = 200;
    handle.write(&payload).unwrap();

    // the producer holds the lock while the renderer tries to refresh
    let writer = buf.raw_states_vec();
    let guard = writer.lock().unwrap();
    assert_eq!(buf.refresh_vertex_buf().unwrap(), RefreshStatus::Skipped);
    let stale = mirror_bytes(&buf);
    assert_eq!(stale[10], 0);
    assert!(stale.iter().all(|&b| b == 0));
    drop(guard);

    // once the lock is free, the next opportunistic refresh copies everything
    assert_eq!(buf.refresh_vertex_buf().unwrap(), RefreshStatus::Refreshed);
    assert_eq!(mirror_bytes(&buf)[10], 200);
}

#[test]
fn writer_payload_of_wrong_length_is_rejected_and_nothing_changes() {
    let mut buf = grid_64x64();
    let handle = buf.raw_states_vec();
    let mut fresh = handle.read().unwrap();
    fresh.iter_mut().for_each(|c| *c = 7);
    handle.write(&fresh).unwrap();

    let short = vec![9u8; 4095];
    assert_eq!(handle.write(&short).unwrap_err(), BufferError::LengthMismatch);
    let long = vec![9u8; 4097];
    assert_eq!(handle.write(&long).unwrap_err(), BufferError::LengthMismatch);

    // the guarded sequence still holds the last full snapshot
    let now = handle.read().unwrap();
    assert_eq!(now, fresh);
}

#[test]
fn fill_rand_keeps_length_and_fully_writes() {
    let mut buf = grid_64x64();
    let mut rng = RandomSource::new();
    buf.fill_rand(&mut rng).unwrap();
    let handle = buf.raw_states_vec();
    let cells = handle.read().unwrap();
    assert_eq!(cells.len(), 4096);
    assert_eq!(buf.refresh_vertex_buf().unwrap(), RefreshStatus::Refreshed);
    assert_eq!(mirror_bytes(&buf), cells);
}

#[test]
fn slice_view_matches_mirror_byte_range() {
    let map = SliceRangeMap::new(vec![2, 3]).unwrap();
    let mut buf = HexGridBuffer::new(map, false);
    let handle = buf.raw_states_vec();
    handle.write(&vec![10, 11, 12, 13, 14]).unwrap();
    buf.refresh_vertex_buf().unwrap();

    let head = buf.raw_states_buf(0).unwrap();
    assert_eq!(head.len(), 2);
    assert_eq!(head[0], StateVertex { state: 10 });
    assert_eq!(head[1].state, 11);

    let tail = buf.raw_states_buf(1).unwrap();
    let tail_bytes: Vec<u8> = tail.iter().map(|v| v.state).collect();
    assert_eq!(tail_bytes, vec![12, 13, 14]);
}

#[test]
fn slice_view_one_past_the_end_fails() {
    let map = SliceRangeMap::new(vec![2, 3]).unwrap();
    let buf = HexGridBuffer::new(map, false);
    assert_eq!(buf.raw_states_buf(2).unwrap_err(), BufferError::OutOfRange);
    assert_eq!(buf.raw_states_buf(250).unwrap_err(), BufferError::OutOfRange);
}

#[test]
fn default_range_must_lie_inside_total() {
    let map = SliceRangeMap::new(vec![2, 3, 4]).unwrap();
    let mut buf = HexGridBuffer::new(map, false);
    assert!(buf.set_default_slc_range(1..3).is_ok());
    assert!(buf.set_default_slc_range(0..0).is_ok());
    assert_eq!(buf.set_default_slc_range(1..4).unwrap_err(), BufferError::OutOfRange);
    assert_eq!(buf.set_default_slc_range(2..1).unwrap_err(), BufferError::OutOfRange);
}

#[test]
fn map_swap_needs_matching_total_count() {
    let map = SliceRangeMap::new(vec![2, 3]).unwrap();
    let mut buf = HexGridBuffer::new(map, false);

    let too_big = SliceRangeMap::new(vec![2, 4]).unwrap();
    assert_eq!(buf.set_tract_map(too_big).unwrap_err(), BufferError::SizeMismatch);
    assert_eq!(buf.cur_slc_range(), 0..2);

    // same 5 cells laid out as 5 slices of 1: accepted, windows reset
    let finer = SliceRangeMap::new(vec![1; 5]).unwrap();
    assert!(buf.set_tract_map(finer).is_ok());
    assert_eq!(buf.cur_slc_range(), 0..5);
    assert_eq!(buf.cur_axn_range(), 0..5);
    assert_eq!(buf.tract_map().axn_id_range(3..4).unwrap(), 3..4);
}

#[test]
fn smooth_refresh_waits_and_copies() {
    let map = SliceRangeMap::new(vec![8, 8]).unwrap();
    let mut buf = HexGridBuffer::new(map, true);
    let handle = buf.raw_states_vec();
    handle.write(&vec![5u8; 16]).unwrap();
    assert_eq!(buf.refresh_vertex_buf().unwrap(), RefreshStatus::Refreshed);
    assert_eq!(mirror_bytes(&buf), vec![5u8; 16]);
}
