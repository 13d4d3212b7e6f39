use flow::reader::{Message, Reader, ReaderAction, ReaderState};
use flow::widgets::{DataBuffer, FileListWidget, WaveColor, WaveWidget};

#[test]
fn data_buffer_keeps_latest_samples() {
    let mut b = DataBuffer::new(4);
    assert_eq!(b.values(), &vec![0, 0, 0, 0]);
    b.push_latest_data(vec![1, 2]);
    assert_eq!(b.values(), &vec![0, 0, 1, 2]);
    b.push_latest_data(vec![3, 4, 5, 6, 7, 8]);
    assert_eq!(b.values(), &vec![5, 6, 7, 8]);
    b.push_latest_data(vec![]);
    assert_eq!(b.values(), &vec![5, 6, 7, 8]);
    assert_eq!(b.len(), 4);
}

#[test]
fn wave_colors_transients() {
    let w = WaveWidget::new(DataBuffer::new(2));
    assert_eq!(w.preview_buf.len(), 2);
    assert_eq!(w.get_col(0, 19662), WaveColor::Red);
    assert_eq!(w.get_col(0, 19661), WaveColor::Green);
    assert_eq!(w.get_col(i32::MIN, i32::MAX), WaveColor::Red);
    assert_eq!(w.get_col(i32::MAX, i32::MIN), WaveColor::Green);
}

#[test]
fn file_list_holds_its_values() {
    let files = vec![String::from("a.mp3"), String::from("b.mp3")];
    let f = FileListWidget::new(files.clone(), true, Some(String::from("b.mp3")));
    assert_eq!(f.files, files);
    assert!(f.focused);
    assert_eq!(f.focused_track, Some(String::from("b.mp3")));
}

#[test]
fn reader_sends_format_before_first_packet() {
    let mut r = Reader::new();
    assert!(!r.is_done());
    assert_eq!(r.on_packet(true), ReaderAction::Idle);
    assert_eq!(r.on_message(Message::Load(String::from("a.mp3"))), ReaderAction::Open(String::from("a.mp3")));
    assert_eq!(r.get_state(), ReaderState::Loading(0));
    assert_eq!(r.on_packet(true), ReaderAction::SendInitAndPacket);
    assert_eq!(r.on_packet(false), ReaderAction::Idle);
    assert_eq!(r.on_packet(true), ReaderAction::SendPacket);
    assert_eq!(r.get_state(), ReaderState::Loading(2));
    assert_eq!(r.on_message(Message::Exit), ReaderAction::Stop);
    assert!(r.is_done());
    assert_eq!(r.on_message(Message::Load(String::from("b.mp3"))), ReaderAction::Idle);
    assert!(r.is_done());
}
