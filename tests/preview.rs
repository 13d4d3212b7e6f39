use flow::preview::{PreviewBuffer, PreviewSample, WaveFormLayer};

fn mono(v: i32) -> PreviewSample {
    PreviewSample { lows: v, mids: v, highs: v }
}

fn filled(values: &[i32]) -> PreviewBuffer {
    let mut b = PreviewBuffer::new(1, None);
    b.append(&values.to_vec(), 1);
    b
}

#[test]
fn ten_second_track_gives_one_hundred_entries() {
    // 10 s of 44100 Hz mono in packets of 1152 frames, 4410 frames per entry
    let mut b = PreviewBuffer::new(4410, Some(441000));
    let total: usize = 441000;
    let mut sent: usize = 0;
    while sent < total {
        let n = std::cmp::min(1152, total - sent);
        let packet: Vec<i32> = (0..n).map(|i| ((sent + i) % 100) as i32).collect();
        b.append(&packet, 1);
        sent += n;
    }
    assert_eq!(b.len(), 100);
    assert_eq!(b.progress(), Some(100));
}

#[test]
fn append_takes_channel_means_then_chunk_means() {
    let mut b = PreviewBuffer::new(2, None);
    // stereo frames (10, 20), (30, 50), (-1, -2), (7, 7)
    b.append(&vec![10, 20, 30, 50, -1, -2, 7, 7], 2);
    // frame means 15, 40, -2 (floor of -1.5), 7; chunk means 27 (floor of 27.5), 2 (floor of 2.5)
    assert_eq!(b.read_window(1, 2), vec![mono(27), mono(2)]);
    assert_eq!(b.len(), 2);
}

#[test]
fn append_carries_partial_chunk_to_next_call() {
    let mut b = PreviewBuffer::new(3, None);
    b.append(&vec![1, 2], 1);
    assert_eq!(b.len(), 0);
    b.append(&vec![3, 4, 5], 1);
    assert_eq!(b.len(), 1);
    b.append(&vec![6], 1);
    assert_eq!(b.len(), 2);
    assert_eq!(b.read_window(1, 2), vec![mono(2), mono(5)]);
}

#[test]
fn append_drops_trailing_incomplete_frame() {
    let mut b = PreviewBuffer::new(1, None);
    b.append(&vec![4, 6, 9], 2);
    assert_eq!(b.len(), 1);
    assert_eq!(b.read_window(0, 1), vec![mono(5)]);
}

#[test]
fn append_never_changes_earlier_entries() {
    let mut b = PreviewBuffer::new(2, None);
    b.append(&vec![1, 3, 5, 7], 1);
    let before = b.read_window(1, 2);
    let len_before = b.len();
    b.append(&vec![100, 200, 300], 1);
    assert!(b.len() >= len_before);
    assert_eq!(b.read_window(1, 2), before);
    b.append(&vec![], 1);
    assert_eq!(b.read_window(1, 2), before);
}

#[test]
fn window_pads_left_with_silence() {
    let b = filled(&[1, 2, 3, 4, 5, 6]);
    let w = b.read_window(1, 6);
    assert_eq!(w.len(), 6);
    assert_eq!(w, vec![PreviewSample::zero(), PreviewSample::zero(), mono(1), mono(2), mono(3), mono(4)]);
}

#[test]
fn window_truncates_on_the_right() {
    let b = filled(&[1, 2, 3, 4, 5, 6]);
    assert_eq!(b.read_window(5, 4), vec![mono(4), mono(5), mono(6)]);
    assert_eq!(b.read_window(9, 4), vec![]);
    assert_eq!(b.read_window(3, 4), vec![mono(2), mono(3), mono(4), mono(5)]);
}

#[test]
fn window_on_empty_buffer_is_only_padding() {
    let b = PreviewBuffer::new(4, None);
    assert_eq!(b.read_window(0, 4), vec![PreviewSample::zero(), PreviewSample::zero()]);
    assert_eq!(b.read_window(0, 0), vec![]);
}

#[test]
fn overview_averages_groups() {
    let b = filled(&[1, 2, 3, 4, 5, 6, 7, 8, 9, 10]);
    // 10 entries into 4: groups of 2
    assert_eq!(b.read_overview(4), vec![mono(1), mono(3), mono(5), mono(7)]);
    assert_eq!(b.read_overview(1), vec![mono(5)]);
}

#[test]
fn overview_of_short_buffer_pads_with_silence() {
    let b = filled(&[4, -4]);
    assert_eq!(b.read_overview(3), vec![mono(4), mono(-4), PreviewSample::zero()]);
    assert_eq!(b.read_overview(0), vec![]);
}

#[test]
fn overview_is_idempotent() {
    let b = filled(&[9, 8, 7, 6, 5]);
    assert_eq!(b.read_overview(2), b.read_overview(2));
    assert_eq!(b.read_overview(2), vec![mono(8), mono(6)]);
}

#[test]
fn overview_averages_each_band() {
    let mut b = PreviewBuffer::new(1, None);
    b.append_preview_samples(&vec![
        PreviewSample { lows: 1, mids: 10, highs: -3 },
        PreviewSample { lows: 2, mids: 20, highs: -4 },
    ]);
    assert_eq!(b.read_overview(1), vec![PreviewSample { lows: 1, mids: 15, highs: -4 }]);
    assert_eq!(b.read_overview(1)[0].band(WaveFormLayer::Mids), 15);
}

#[test]
fn progress_rounds_up_and_caps() {
    let mut b = PreviewBuffer::new(10, Some(1000));
    assert_eq!(b.progress(), Some(0));
    b.append(&vec![0; 10], 1);
    assert_eq!(b.progress(), Some(1));
    b.append(&vec![0; 35], 1);
    // 4 entries of 10 frames: 40 of 1000 frames
    assert_eq!(b.progress(), Some(4));
    let mut c = PreviewBuffer::new(7, Some(10));
    c.append(&vec![0; 7], 1);
    assert_eq!(c.progress(), Some(70));
    c.append(&vec![0; 7], 1);
    assert_eq!(c.progress(), Some(100));
    let mut d = PreviewBuffer::new(3, Some(1000));
    d.append(&vec![0; 3], 1);
    assert_eq!(d.progress(), Some(1));
}

#[test]
fn progress_unknown_without_declared_length() {
    let b = filled(&[1, 2]);
    assert_eq!(b.progress(), None);
    let e = PreviewBuffer::new(5, Some(0));
    assert_eq!(e.progress(), Some(100));
}

#[test]
fn extreme_samples_do_not_overflow() {
    let mut b = PreviewBuffer::new(2, None);
    b.append(&vec![i32::MAX, i32::MAX, i32::MIN, i32::MIN], 2);
    assert_eq!(b.read_window(0, 1), vec![mono(-1)]);
}
