use fastfile::cursor::MmapCursor;
use fastfile::fastfile::{optimal_buffer_size, ReaderState};
use memmap::MmapOptions;

fn mapped(data: &[u8]) -> MmapCursor {
    let mut m = MmapOptions::new().len(data.len()).map_anon().expect("anonymous map");
    m.copy_from_slice(data);
    MmapCursor::new(m.make_read_only().expect("read-only map"))
}

#[test]
fn mmap_cursor_reads_the_mapped_bytes_in_order() {
    let data: Vec<u8> = (0..10_000u32).map(|i| (i * 7 % 251) as u8).collect();
    let mut cursor = mapped(&data);
    let mut buf = [0u8; 4096];
    let mut all = Vec::new();
    loop {
        let n = cursor.read(&mut buf);
        if n == 0 {
            break;
        }
        all.extend_from_slice(&buf[..n]);
    }
    assert_eq!(all, data);
    assert_eq!(cursor.pos(), data.len());
    assert_eq!(cursor.read(&mut buf), 0);
}

#[test]
fn mmap_cursor_short_read_at_the_end() {
    let mut cursor = mapped(&[1, 2, 3, 4, 5]);
    let mut buf = [0u8; 3];
    assert_eq!(cursor.read(&mut buf), 3);
    assert_eq!(buf, [1, 2, 3]);
    assert_eq!(cursor.read(&mut buf), 2);
    assert_eq!(&buf[..2], &[4, 5]);
    assert_eq!(cursor.read(&mut buf), 0);
}

#[test]
fn reader_over_a_mapping_returns_every_byte_then_stays_empty() {
    let data: Vec<u8> = (0..50_000u32).map(|i| (i % 256) as u8).collect();
    let mut cursor = mapped(&data);
    let mut state = ReaderState::new(data.len() as u64);
    let mut all = Vec::new();
    loop {
        let mut buf = state.start_read().unwrap().expect("buffer");
        assert_eq!(buf.len(), optimal_buffer_size(data.len() as u64));
        let n = cursor.read(&mut buf);
        state.finish_read(buf, n);
        if n == 0 {
            break;
        }
        all.extend_from_slice(state.filled());
    }
    assert_eq!(all, data);
    for _ in 0..3 {
        assert!(state.start_read().unwrap().is_none());
        assert!(state.filled().is_empty());
    }
}
