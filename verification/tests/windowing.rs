//! Tests of the window accumulator: completeness, ordering, and
//! independence from how the sample stream is split into chunks.

use pitch_detector::accumulator::WindowAccumulator;

fn push_all(acc: &mut WindowAccumulator, samples: &[u32]) -> Vec<Vec<u32>> {
    let chunk: Vec<u32> = samples.to_vec();
    acc.push(&chunk)
}

#[test]
fn empty_chunk_yields_no_windows() {
    let mut acc = WindowAccumulator::new(4);
    let windows = push_all(&mut acc, &[]);
    assert!(windows.is_empty());
    assert_eq!(acc.pending_len(), 0);
}

#[test]
fn short_chunk_stays_buffered() {
    let mut acc = WindowAccumulator::new(4);
    let windows = push_all(&mut acc, &[1, 2, 3]);
    assert!(windows.is_empty());
    assert_eq!(acc.pending_len(), 3);
}

#[test]
fn single_chunk_straddles_multiple_windows() {
    let mut acc = WindowAccumulator::new(3);
    let windows = push_all(&mut acc, &[0, 1, 2, 3, 4, 5, 6, 7, 8, 9]);
    assert_eq!(windows, vec![vec![0, 1, 2], vec![3, 4, 5], vec![6, 7, 8]]);
    assert_eq!(acc.pending_len(), 1);
}

#[test]
fn windowing_is_complete_and_ordered() {
    // Total samples emitted across all windows plus the residue equal
    // the number of samples pushed, and the windows partition the
    // stream in arrival order without overlap.
    let samples: Vec<u32> = (0..23).collect();
    let mut acc = WindowAccumulator::new(4);
    let mut emitted: Vec<u32> = Vec::new();
    let mut emitted_count = 0;
    for chunk in samples.chunks(5) {
        for w in push_all(&mut acc, chunk) {
            assert_eq!(w.len(), 4);
            emitted_count += w.len();
            emitted.extend_from_slice(&w);
        }
    }
    assert_eq!(emitted_count + acc.pending_len(), samples.len());
    assert_eq!(emitted, samples[..20].to_vec());
    assert_eq!(acc.pending_len(), 3);
}

#[test]
fn windowing_ignores_chunk_boundaries() {
    // One chunk of 2048 samples and two chunks of 1024 yield the same
    // windows for a window size of 1024.
    let samples: Vec<u32> = (0..2048).map(|k| k * 7 + 13).collect();

    let mut one = WindowAccumulator::new(1024);
    let windows_one = push_all(&mut one, &samples);

    let mut two = WindowAccumulator::new(1024);
    let mut windows_two = push_all(&mut two, &samples[..1024]);
    windows_two.extend(push_all(&mut two, &samples[1024..]));

    assert_eq!(windows_one, windows_two);
    assert_eq!(one.pending_len(), 0);
    assert_eq!(two.pending_len(), 0);
}

#[test]
fn windowing_deterministic_under_uneven_splits() {
    let samples: Vec<u32> = (0..17).map(|k| 1000 - k).collect();

    let mut whole = WindowAccumulator::new(5);
    let windows_whole = push_all(&mut whole, &samples);

    let mut split = WindowAccumulator::new(5);
    let mut windows_split = Vec::new();
    let mut start = 0;
    for len in [3, 8, 1, 5] {
        windows_split.extend(push_all(&mut split, &samples[start..start + len]));
        start += len;
    }

    assert_eq!(windows_whole, windows_split);
    assert_eq!(whole.pending_len(), split.pending_len());
    assert_eq!(whole.pending_len(), 2);
}
