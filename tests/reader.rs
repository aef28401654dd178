use std::io::{BufReader, Read, Seek, SeekFrom, Write};

use fastfile::cursor::copy_from;
use fastfile::errors::ErrorKind;
use fastfile::fastfile::{optimal_buffer_size, ReaderState, MIN_READ_BUF_SIZE};
use rand::rngs::SmallRng;
use rand::{Rng, SeedableRng};
use ring::digest::{digest, Context, SHA256};

/// One `read` call: the scratch buffer is filled by one read of `src`.
fn read_once<R: Read>(state: &mut ReaderState, src: &mut R) -> Vec<u8> {
    match state.start_read().expect("read refused") {
        None => Vec::new(),
        Some(mut buf) => {
            let n = src.read(&mut buf).expect("read failed");
            state.finish_read(buf, n);
            state.filled().to_vec()
        }
    }
}

/// One `read_to_end` call: everything left in `src` goes into the buffer.
fn read_to_end_once<R: Read>(state: &mut ReaderState, src: &mut R) -> Vec<u8> {
    match state.start_drain().expect("read_to_end refused") {
        None => Vec::new(),
        Some(mut buf) => {
            src.read_to_end(&mut buf).expect("read failed");
            state.finish_drain(buf);
            state.filled().to_vec()
        }
    }
}

fn random_bytes(n: usize, seed: u64) -> Vec<u8> {
    let mut rng = SmallRng::seed_from_u64(seed);
    let mut v = vec![0u8; n];
    rng.fill(&mut v[..]);
    v
}

#[test]
fn reading_in_chunks_yields_every_byte_once() {
    let data = random_bytes(100_000, 7);
    let mut state = ReaderState::new(data.len() as u64);
    let mut src = &data[..];
    let mut all = Vec::new();
    loop {
        let chunk = read_once(&mut state, &mut src);
        if chunk.is_empty() {
            break;
        }
        assert!(chunk.len() <= optimal_buffer_size(100_000));
        all.extend_from_slice(&chunk);
    }
    assert_eq!(all, data);
}

#[test]
fn reads_after_the_end_stay_empty() {
    let data = vec![5u8; 10];
    let mut state = ReaderState::new(10);
    let mut src = &data[..];
    assert_eq!(read_once(&mut state, &mut src), data);
    assert!(read_once(&mut state, &mut src).is_empty());
    assert!(state.at_eof());
    for _ in 0..3 {
        assert!(read_once(&mut state, &mut src).is_empty());
        assert!(state.start_read().unwrap().is_none());
    }
}

#[test]
fn zero_length_file() {
    let mut state = ReaderState::new(0);
    assert_eq!(state.size(), 0);
    let mut src: &[u8] = &[];
    let buf = state.start_read().unwrap().unwrap();
    assert_eq!(buf.len(), MIN_READ_BUF_SIZE);
    state.finish_read(buf, 0);
    assert!(state.filled().is_empty());
    assert!(read_once(&mut state, &mut src).is_empty());
    assert_eq!(optimal_buffer_size(0), MIN_READ_BUF_SIZE);
}

#[test]
fn scratch_buffer_is_allocated_once_with_the_optimal_size() {
    let mut state = ReaderState::new(10_000);
    let buf = state.start_read().unwrap().unwrap();
    assert_eq!(buf.len(), 12_288);
    state.finish_read(buf, 3);
    let buf = state.start_read().unwrap().unwrap();
    assert_eq!(buf.len(), 12_288);
    state.abort_read(buf);
    assert!(state.filled().is_empty());
    assert!(!state.at_eof());
}

#[test]
fn read_to_end_returns_everything_left() {
    let data = random_bytes(30_000, 11);
    let mut state = ReaderState::new(data.len() as u64);
    let mut src = &data[..];
    assert_eq!(read_to_end_once(&mut state, &mut src), data);
    assert!(read_to_end_once(&mut state, &mut src).is_empty());
}

#[test]
fn mixing_drain_styles_is_refused() {
    let data = vec![1u8; 100];
    let mut state = ReaderState::new(100);
    let mut src = &data[..];
    read_once(&mut state, &mut src);
    let e = state.start_drain().unwrap_err();
    assert_eq!(e.kinds(), vec![ErrorKind::MemOpFailed("read_to_end after read")]);

    let mut state = ReaderState::new(100);
    let mut src = &data[..];
    read_to_end_once(&mut state, &mut src);
    let e = state.start_read().unwrap_err();
    assert_eq!(e.kinds(), vec![ErrorKind::MemOpFailed("read after read_to_end")]);
}

#[test]
fn copy_from_copies_what_fits() {
    let data = [1u8, 2, 3, 4, 5];
    let mut buf = [9u8; 3];
    assert_eq!(copy_from(&data, 0, &mut buf), 3);
    assert_eq!(buf, [1, 2, 3]);
    let mut buf = [9u8; 3];
    assert_eq!(copy_from(&data, 3, &mut buf), 2);
    assert_eq!(buf, [4, 5, 9]);
    assert_eq!(copy_from(&data, 5, &mut buf), 0);
    assert_eq!(copy_from(&data, 50, &mut buf), 0);
    assert_eq!(buf, [4, 5, 9]);
}

#[test]
fn mapped_and_direct_paths_give_the_same_digest() {
    let data = random_bytes(1024 * 1024 + 17, 3);

    let mut state = ReaderState::new(data.len() as u64);
    let mut src = &data[..];
    let mut direct = Context::new(&SHA256);
    let mut direct_len = 0usize;
    loop {
        let chunk = read_once(&mut state, &mut src);
        if chunk.is_empty() {
            break;
        }
        direct_len += chunk.len();
        direct.update(&chunk);
    }

    let mut mapped = Context::new(&SHA256);
    let mut mapped_len = 0usize;
    let mut buf = vec![0u8; optimal_buffer_size(data.len() as u64)];
    loop {
        let n = copy_from(&data, mapped_len, &mut buf);
        if n == 0 {
            break;
        }
        mapped_len += n;
        mapped.update(&buf[..n]);
    }

    assert_eq!(direct_len, data.len());
    assert_eq!(mapped_len, data.len());
    let reference = digest(&SHA256, &data);
    assert_eq!(direct.finish().as_ref(), reference.as_ref());
    assert_eq!(mapped.finish().as_ref(), reference.as_ref());
}

#[test]
fn ten_mib_file_digest_matches_a_buffered_reader() {
    let size = 10 * 1024 * 1024;
    let data = random_bytes(size, 42);
    let mut file = tempfile::tempfile().expect("temp file");
    file.write_all(&data).expect("write");
    file.seek(SeekFrom::Start(0)).expect("seek");

    let mut state = ReaderState::new(size as u64);
    let mut ours = Context::new(&SHA256);
    let mut len = 0u64;
    loop {
        let chunk = read_once(&mut state, &mut file);
        if chunk.is_empty() {
            break;
        }
        len += chunk.len() as u64;
        ours.update(&chunk);
    }
    assert_eq!(len, state.size());

    file.seek(SeekFrom::Start(0)).expect("seek");
    let mut reader = BufReader::new(file);
    let mut theirs = Context::new(&SHA256);
    let mut buf = [0u8; 8 * 1024];
    loop {
        let n = reader.read(&mut buf[..]).expect("read");
        if n == 0 {
            break;
        }
        theirs.update(&buf[..n]);
    }
    assert_eq!(ours.finish().as_ref(), theirs.finish().as_ref());
}
