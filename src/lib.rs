//! A streaming playback core: a playhead over a track's time base, a growing
//! downsampled preview of decoded audio, and the playback engine's state machine.

pub mod time;
pub mod preview;
pub mod player;
pub mod track;
pub mod track_list;
pub mod reader;
pub mod widgets;
