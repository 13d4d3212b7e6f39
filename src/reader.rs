use vstd::prelude::*;

verus! {

/// Where the background reader is.
#[derive(Clone, Copy, Debug, PartialEq, Eq, Structural)]
pub enum ReaderState {
    Initializing,
    /// Decoding a file; the count of packets decoded so far.
    Loading(u32),
    Finished,
}

/// A command to the reader.
#[derive(Clone, Debug)]
pub enum Message {
    Load(String),
    Exit,
}

/// What the reader asks of the one who runs it.
#[derive(Clone, Debug, PartialEq, Eq)]
pub enum ReaderAction {
    /// Nothing to do.
    Idle,
    /// Open the file at this path and build its decoder.
    Open(String),
    /// Send the stream's format, then the packet just decoded.
    SendInitAndPacket,
    /// Send the packet just decoded.
    SendPacket,
    /// Stop for good.
    Stop,
}

/// The decisions of a reader that decodes a file in the background and hands the
/// packets on; the format goes out once, ahead of the first packet.
pub struct Reader {
    state: ReaderState,
    sent_spec: bool,
}

impl Reader {
    pub closed spec fn state(self) -> ReaderState {
        self.state
    }

    /// Whether the stream's format has gone out for the file being read.
    pub closed spec fn sent_spec(self) -> bool {
        self.sent_spec
    }

    pub fn new() -> (r: Self)
        ensures
            r.state() == ReaderState::Initializing,
            !r.sent_spec(),
    {
        Reader { state: ReaderState::Initializing, sent_spec: false }
    }

    pub fn get_state(&self) -> (r: ReaderState)
        ensures
            r == self.state(),
    {
        self.state
    }

    pub fn is_done(&self) -> (r: bool)
        ensures
            r == (self.state() == ReaderState::Finished),
    {
        self.state == ReaderState::Finished
    }

    /// Applies a command: a load starts reading a file from its first packet; an
    /// exit finishes. A finished reader takes no more commands.
    pub fn on_message(&mut self, msg: Message) -> (a: ReaderAction)
        ensures
            old(self).state() == ReaderState::Finished ==> *final(self) == *old(self) && a
                == ReaderAction::Idle,
            old(self).state() != ReaderState::Finished ==> match msg {
                Message::Load(path) => {
                    &&& final(self).state() == ReaderState::Loading(0)
                    &&& !final(self).sent_spec()
                    &&& a == ReaderAction::Open(path)
                },
                Message::Exit => {
                    &&& final(self).state() == ReaderState::Finished
                    &&& final(self).sent_spec() == old(self).sent_spec()
                    &&& a == ReaderAction::Stop
                },
            },
    {
        if self.state == ReaderState::Finished {
            return ReaderAction::Idle;
        }
        match msg {
            Message::Load(path) => {
                self.state = ReaderState::Loading(0);
                self.sent_spec = false;
                ReaderAction::Open(path)
            },
            Message::Exit => {
                self.state = ReaderState::Finished;
                ReaderAction::Stop
            },
        }
    }

    /// Takes in whether the next packet decoded. While loading, a decoded packet is
    /// counted (up to the largest count) and sent, behind the format the first time;
    /// a packet that failed is skipped.
    pub fn on_packet(&mut self, decoded: bool) -> (a: ReaderAction)
        ensures
            match old(self).state() {
                ReaderState::Loading(n) => if decoded {
                    &&& final(self).state() == ReaderState::Loading(
                        if n < u32::MAX {
                            (n + 1) as u32
                        } else {
                            n
                        },
                    )
                    &&& final(self).sent_spec()
                    &&& a == if old(self).sent_spec() {
                        ReaderAction::SendPacket
                    } else {
                        ReaderAction::SendInitAndPacket
                    }
                } else {
                    *final(self) == *old(self) && a == ReaderAction::Idle
                },
                _ => *final(self) == *old(self) && a == ReaderAction::Idle,
            },
    {
        match self.state {
            ReaderState::Loading(n) => {
                if !decoded {
                    return ReaderAction::Idle;
                }
                self.state = ReaderState::Loading(
                    if n < u32::MAX {
                        n + 1
                    } else {
                        n
                    },
                );
                if self.sent_spec {
                    ReaderAction::SendPacket
                } else {
                    self.sent_spec = true;
                    ReaderAction::SendInitAndPacket
                }
            },
            _ => ReaderAction::Idle,
        }
    }
}

} // verus!
