use vstd::prelude::*;

use crate::error::ClipboardError;
use crate::event::{byte_len, ClipboardEvent, ClipboardType};

verus! {

/// Where a watcher stands between its backend and the event bus.
#[derive(Clone, Copy, Debug, PartialEq, Eq, Structural)]
pub enum WatcherPhase {
    /// Waiting on the backend for the next change.
    Watching,
    /// The backend failed; a new backend handle is being built.
    Reconnecting,
    /// Done: the bus is closed or the backend could not be rebuilt.
    Stopped,
}

/// The decisions of one selection watcher.
///
/// The program around it owns the backend and the event sender: it reports
/// what the backend and the bus did, and carries out what the watcher answers.
pub struct Watcher {
    pub clipboard_type: ClipboardType,
    pub filter_min_size: usize,
    /// The content most recently published for this selection.
    pub last: String,
    pub phase: WatcherPhase,
}

/// Whether `curr` is a change worth publishing, seen from `last`.
pub open spec fn is_fresh(running: bool, min_size: nat, last: Seq<char>, curr: Seq<char>) -> bool {
    running && byte_len(curr) > min_size && curr != last
}

/// The event that a watcher of `kind` publishes for `data`.
pub open spec fn event_for(kind: ClipboardType, data: Seq<char>, e: ClipboardEvent) -> bool {
    e.clipboard_type == kind && e.data@ == data
}

/// What a watching watcher tracks after observing `curr`: the freshly read
/// content when it is published, the old tracked content otherwise.
pub open spec fn next_last(running: bool, min_size: nat, last: Seq<char>, curr: Seq<char>) -> Seq<
    char,
> {
    if is_fresh(running, min_size, last, curr) {
        curr
    } else {
        last
    }
}

/// Two distinct contents, each longer than the filter and the first unlike
/// what was tracked, observed while running: both are published, in order, and
/// the tracked content is each time the one just published.
pub proof fn lemma_distinct_changes_published_in_order(
    min_size: nat,
    last: Seq<char>,
    c1: Seq<char>,
    c2: Seq<char>,
)
    requires
        c1 != last,
        c1 != c2,
        byte_len(c1) > min_size,
        byte_len(c2) > min_size,
    ensures
        is_fresh(true, min_size, last, c1),
        next_last(true, min_size, last, c1) == c1,
        is_fresh(true, min_size, next_last(true, min_size, last, c1), c2),
        next_last(true, min_size, next_last(true, min_size, last, c1), c2) == c2,
{
}

/// Content of at most `min_size` bytes is never published, whatever was
/// tracked and whether or not the monitor runs.
pub proof fn lemma_short_content_never_published(
    running: bool,
    min_size: nat,
    last: Seq<char>,
    curr: Seq<char>,
)
    requires
        byte_len(curr) <= min_size,
    ensures
        !is_fresh(running, min_size, last, curr),
        next_last(running, min_size, last, curr) == last,
{
}

/// While the monitor is disabled no change is published and nothing new is
/// tracked; once it is enabled again, the next content that differs from the
/// tracked one and is longer than the filter is published.
pub proof fn lemma_disabled_then_enabled(
    min_size: nat,
    last: Seq<char>,
    c1: Seq<char>,
    c2: Seq<char>,
)
    requires
        c2 != last,
        byte_len(c2) > min_size,
    ensures
        !is_fresh(false, min_size, last, c1),
        next_last(false, min_size, last, c1) == last,
        is_fresh(true, min_size, next_last(false, min_size, last, c1), c2),
{
}

impl Watcher {
    /// What the watcher tracks after observing `curr`.
    pub open spec fn spec_last_after(self, running: bool, curr: Seq<char>) -> Seq<char> {
        if self.phase == WatcherPhase::Watching {
            next_last(running, self.filter_min_size as nat, self.last@, curr)
        } else {
            self.last@
        }
    }

    /// A watcher of `clipboard_type` that has seen nothing yet.
    pub fn new(clipboard_type: ClipboardType, filter_min_size: usize) -> (r: Watcher)
        ensures
            r.clipboard_type == clipboard_type,
            r.filter_min_size == filter_min_size,
            r.last@ == Seq::<char>::empty(),
            r.phase == WatcherPhase::Watching,
    {
        Watcher { clipboard_type, filter_min_size, last: String::new(), phase: WatcherPhase::Watching }
    }

    /// Startup: `current` is the selection's content when it was read at
    /// startup, `None` when it was not read or the read failed. Content longer
    /// than the filter is published and tracked; otherwise nothing is tracked.
    pub fn load_initial(&mut self, current: Option<String>) -> (r: Option<ClipboardEvent>)
        ensures
            final(self).clipboard_type == old(self).clipboard_type,
            final(self).filter_min_size == old(self).filter_min_size,
            final(self).phase == old(self).phase,
            match current {
                Some(d) => if byte_len(d@) > old(self).filter_min_size {
                    &&& final(self).last@ == d@
                    &&& r.is_some() && event_for(old(self).clipboard_type, d@, r.unwrap())
                } else {
                    final(self).last@ == Seq::<char>::empty() && r.is_none()
                },
                None => final(self).last@ == Seq::<char>::empty() && r.is_none(),
            },
    {
        match current {
            Some(d) => {
                if d.as_str().as_bytes().len() > self.filter_min_size {
                    let ev = ClipboardEvent::new(self.clipboard_type, d.clone());
                    self.last = d;
                    Some(ev)
                } else {
                    self.last = String::new();
                    None
                }
            },
            None => {
                self.last = String::new();
                None
            },
        }
    }

    /// The backend reported content `curr`; `running` is the run flag as read
    /// just before. Publishes `curr` when the watcher is watching and `curr` is
    /// fresh, and then tracks it.
    pub fn on_change(&mut self, running: bool, curr: String) -> (r: Option<ClipboardEvent>)
        ensures
            final(self).clipboard_type == old(self).clipboard_type,
            final(self).filter_min_size == old(self).filter_min_size,
            final(self).phase == old(self).phase,
            final(self).last@ == old(self).spec_last_after(running, curr@),
            r.is_some() <==> (old(self).phase == WatcherPhase::Watching && is_fresh(
                running,
                old(self).filter_min_size as nat,
                old(self).last@,
                curr@,
            )),
            r.is_some() ==> event_for(old(self).clipboard_type, curr@, r.unwrap()),
    {
        if self.phase == WatcherPhase::Watching && running && curr.as_str().as_bytes().len()
            > self.filter_min_size && self.last != curr {
            let ev = ClipboardEvent::new(self.clipboard_type, curr.clone());
            self.last = curr;
            Some(ev)
        } else {
            None
        }
    }

    /// Waiting on the backend failed: a watching watcher turns to rebuilding
    /// its backend.
    pub fn on_wait_failed(&mut self)
        ensures
            final(self).clipboard_type == old(self).clipboard_type,
            final(self).filter_min_size == old(self).filter_min_size,
            final(self).last@ == old(self).last@,
            final(self).phase == (if old(self).phase == WatcherPhase::Watching {
                WatcherPhase::Reconnecting
            } else {
                old(self).phase
            }),
    {
        if self.phase == WatcherPhase::Watching {
            self.phase = WatcherPhase::Reconnecting;
        }
    }

    /// The attempt to rebuild the backend ended with `rebuilt`. On success the
    /// watcher watches again, keeping what it tracked; on failure it stops and
    /// reports that the backend could not be built, with the failure's message.
    pub fn on_reconnect(&mut self, rebuilt: Result<(), String>) -> (r: Result<(), ClipboardError>)
        ensures
            final(self).clipboard_type == old(self).clipboard_type,
            final(self).filter_min_size == old(self).filter_min_size,
            final(self).last@ == old(self).last@,
            old(self).phase != WatcherPhase::Reconnecting ==> final(self).phase == old(self).phase
                && r is Ok,
            old(self).phase == WatcherPhase::Reconnecting ==> match rebuilt {
                Ok(_) => final(self).phase == WatcherPhase::Watching && r is Ok,
                Err(m) => {
                    &&& final(self).phase == WatcherPhase::Stopped
                    &&& r matches Err(ClipboardError::InitializeX11Clipboard { message })
                        && message@ == m@
                },
            },
    {
        if self.phase != WatcherPhase::Reconnecting {
            return Ok(());
        }
        match rebuilt {
            Ok(()) => {
                self.phase = WatcherPhase::Watching;
                Ok(())
            },
            Err(message) => {
                self.phase = WatcherPhase::Stopped;
                Err(ClipboardError::InitializeX11Clipboard { message })
            },
        }
    }

    /// Publishing failed because the bus has no receiver left: the watcher stops.
    pub fn on_publish_failed(&mut self)
        ensures
            final(self).clipboard_type == old(self).clipboard_type,
            final(self).filter_min_size == old(self).filter_min_size,
            final(self).last@ == old(self).last@,
            final(self).phase == WatcherPhase::Stopped,
    {
        self.phase = WatcherPhase::Stopped;
    }

    pub fn is_stopped(&self) -> (r: bool)
        ensures
            r == (self.phase == WatcherPhase::Stopped),
    {
        self.phase == WatcherPhase::Stopped
    }
}

} // verus!
