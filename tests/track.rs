use flow::preview::PreviewSample;
use flow::time::{TimeBase, TimeMarker};
use flow::track::{preview_chunk_size, preview_index, CodecParams, Track, TrackMeta, PREVIEW_SAMPLE_RATE};
use flow::track_list::TrackList;

fn params(n_frames: Option<u64>) -> CodecParams {
    CodecParams {
        sample_rate: Some(44100),
        channels: Some(1),
        n_frames,
        max_frames_per_packet: None,
        time_base: Some(TimeBase::new(1, 44100)),
    }
}

fn mono(v: i32) -> PreviewSample {
    PreviewSample { lows: v, mids: v, highs: v }
}

#[test]
fn track_takes_file_name_from_path() {
    let t = Track::new(String::from("/music/house/track one.mp3"), params(None));
    assert_eq!(t.file_name, "track one.mp3");
    assert_eq!(t.file_path, "/music/house/track one.mp3");
    assert_eq!(t.meta, TrackMeta::new());
    let root = Track::new(String::from("/"), params(None));
    assert_eq!(root.file_name, "");
}

#[test]
fn chunk_size_follows_codec_parameters() {
    assert_eq!(PREVIEW_SAMPLE_RATE, 2205);
    assert_eq!(preview_chunk_size(&params(None)), 20);
    let mut p = params(None);
    p.max_frames_per_packet = Some(1152);
    assert_eq!(preview_chunk_size(&p), 1152);
    p.max_frames_per_packet = None;
    p.sample_rate = Some(1000);
    assert_eq!(preview_chunk_size(&p), 1);
    p.sample_rate = None;
    assert_eq!(preview_chunk_size(&p), 1);
}

#[test]
fn preview_index_converts_playhead() {
    // one second into a 44100 Hz track, 20 frames per entry
    assert_eq!(preview_index(&params(None), 20, 44100), 2205);
    let mut p = params(None);
    p.time_base = None;
    assert_eq!(preview_index(&p, 20, 44100), 0);
}

#[test]
fn track_progress_and_previews() {
    let mut t = Track::new(String::from("a.wav"), params(Some(200)));
    assert_eq!(t.progress(), Some(0));
    let frames: Vec<i32> = (0..100).collect();
    t.append_frames(&frames, 1);
    assert_eq!(t.get_preview_buffer().len(), 5);
    assert_eq!(t.progress(), Some(50));
    let mut m = TimeMarker::new(TimeBase::new(1, 44100));
    m.go_to(40);
    // playhead at entry 2: window of 4 is entries 0..4
    assert_eq!(t.live_preview(4, &m), vec![mono(9), mono(29), mono(49), mono(69)]);
    assert_eq!(t.preview(5), vec![mono(9), mono(29), mono(49), mono(69), mono(89)]);
    t.append_preview_samples(&vec![mono(1)]);
    assert_eq!(t.get_preview_buffer().len(), 6);
}

#[test]
fn track_list_keeps_each_path_once() {
    let mut l = TrackList::new();
    assert!(l.get_focused().is_none());
    assert!(l.insert(Track::new(String::from("/m/a.mp3"), params(None))));
    assert_eq!(l.get_focused().unwrap().file_name, "a.mp3");
    assert!(l.insert(Track::new(String::from("/m/b.mp3"), params(None))));
    assert!(!l.insert(Track::new(String::from("/m/a.mp3"), params(None))));
    assert_eq!(l.len(), 2);
    assert_eq!(l.index_of(&String::from("/m/b.mp3")), Some(1));
    assert_eq!(l.index_of(&String::from("/m/c.mp3")), None);
    assert_eq!(l.values()[1].file_path, "/m/b.mp3");
    assert_eq!(l.get(1).unwrap().file_name, "b.mp3");
    assert!(l.get(2).is_none());
}

#[test]
fn track_list_focus_wraps() {
    let mut l = TrackList::new();
    assert_eq!(l.focus_next(), None);
    for name in ["/a.mp3", "/b.mp3", "/c.mp3"] {
        l.insert(Track::new(String::from(name), params(None)));
    }
    assert_eq!(l.focus_next(), Some(1));
    assert_eq!(l.focus_next(), Some(2));
    assert_eq!(l.focus_next(), Some(0));
    assert_eq!(l.focus_previous(), Some(2));
    assert_eq!(l.focus_previous(), Some(1));
    assert!(l.get_loaded().is_none());
    assert_eq!(l.load_focused(), Some(1));
    assert_eq!(l.get_loaded().unwrap().file_path, "/b.mp3");
}

#[test]
fn track_list_appends_to_one_track() {
    let mut l = TrackList::new();
    l.insert(Track::new(String::from("/a.mp3"), params(None)));
    l.insert(Track::new(String::from("/b.mp3"), params(None)));
    let frames: Vec<i32> = vec![2; 40];
    l.append_frames(1, &frames, 1);
    assert_eq!(l.get(1).unwrap().get_preview_buffer().len(), 2);
    assert_eq!(l.get(0).unwrap().get_preview_buffer().len(), 0);
    l.append_frames(7, &frames, 1);
    assert_eq!(l.len(), 2);
}
