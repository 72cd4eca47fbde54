use vstd::prelude::*;

verus! {

/// Number of bytes in the UTF-8 encoding of a text.
pub open spec fn byte_len(s: Seq<char>) -> nat {
    vstd::utf8::encode_utf8(s).len()
}

/// Which of the two selection buffers a watcher or an event concerns.
#[derive(Clone, Copy, Debug, PartialEq, Eq, Structural)]
pub enum ClipboardType {
    Clipboard,
    Primary,
}

/// Whether the monitor currently publishes changes.
#[derive(Clone, Copy, Debug, PartialEq, Eq, Structural)]
pub enum MonitorState {
    Enabled,
    Disabled,
}

/// The state that a run flag holding `running` stands for.
pub open spec fn state_of(running: bool) -> MonitorState {
    if running {
        MonitorState::Enabled
    } else {
        MonitorState::Disabled
    }
}

impl MonitorState {
    pub fn from_running(running: bool) -> (r: MonitorState)
        ensures
            r == state_of(running),
    {
        if running {
            MonitorState::Enabled
        } else {
            MonitorState::Disabled
        }
    }

    pub fn is_enabled(&self) -> (r: bool)
        ensures
            r == (*self == MonitorState::Enabled),
    {
        match self {
            MonitorState::Enabled => true,
            MonitorState::Disabled => false,
        }
    }
}

/// A change of a selection's content.
#[derive(Clone, Debug)]
pub struct ClipboardEvent {
    pub clipboard_type: ClipboardType,
    pub data: String,
}

impl ClipboardEvent {
    pub fn new(clipboard_type: ClipboardType, data: String) -> (r: ClipboardEvent)
        ensures
            r.clipboard_type == clipboard_type,
            r.data@ == data@,
    {
        ClipboardEvent { clipboard_type, data }
    }

    pub fn new_clipboard(data: String) -> (r: ClipboardEvent)
        ensures
            r.clipboard_type == ClipboardType::Clipboard,
            r.data@ == data@,
    {
        ClipboardEvent::new(ClipboardType::Clipboard, data)
    }

    pub fn new_primary(data: String) -> (r: ClipboardEvent)
        ensures
            r.clipboard_type == ClipboardType::Primary,
            r.data@ == data@,
    {
        ClipboardEvent::new(ClipboardType::Primary, data)
    }
}

/// How a monitor is started.
#[derive(Clone, Copy, Debug)]
pub struct ClipboardMonitorOptions {
    /// Publish each watched selection's current content at startup.
    pub load_current: bool,
    /// Watch the clipboard selection.
    pub enable_clipboard: bool,
    /// Watch the primary selection.
    pub enable_primary: bool,
    /// Content of at most this many bytes is never published.
    pub filter_min_size: usize,
}

impl ClipboardMonitorOptions {
    /// The selection kinds that these options ask to watch, clipboard first.
    pub open spec fn spec_watched(self) -> Seq<ClipboardType> {
        let c = if self.enable_clipboard {
            seq![ClipboardType::Clipboard]
        } else {
            Seq::empty()
        };
        if self.enable_primary {
            c.push(ClipboardType::Primary)
        } else {
            c
        }
    }

    pub fn watched(&self) -> (r: Vec<ClipboardType>)
        ensures
            r@ == self.spec_watched(),
    {
        let mut r: Vec<ClipboardType> = Vec::new();
        if self.enable_clipboard {
            r.push(ClipboardType::Clipboard);
        }
        if self.enable_primary {
            r.push(ClipboardType::Primary);
        }
        proof {
            if !self.enable_clipboard {
                assert(r@ =~= self.spec_watched());
            }
        }
        r
    }
}

impl Default for ClipboardMonitorOptions {
    fn default() -> (r: ClipboardMonitorOptions)
        ensures
            r.load_current,
            r.enable_clipboard,
            r.enable_primary,
            r.filter_min_size == 0,
    {
        ClipboardMonitorOptions {
            load_current: true,
            enable_clipboard: true,
            enable_primary: true,
            filter_min_size: 0,
        }
    }
}

} // verus!
