use vstd::prelude::*;
use crate::errors::NextError;
use crate::metadata::is_first;

verus! {

/// The kind of a file-system change, as the notification primitive tags it.
#[derive(Clone, Copy, Debug, PartialEq, Eq, Structural)]
pub enum ChangeKind {
    Create,
    Remove,
    Write,
    Rename,
    Metadata,
    Other,
}

/// A change of this kind warrants a rebuild.
pub open spec fn qualifies(k: ChangeKind) -> bool {
    !(k is Other)
}

/// Whether a change of kind `k` warrants a rebuild: creation, removal, a write,
/// a rename or a change of metadata does; anything else does not.
pub fn is_qualifying(k: ChangeKind) -> (r: bool)
    ensures
        r == qualifies(k),
{
    match k {
        ChangeKind::Other => false,
        _ => true,
    }
}

/// What the notification primitive delivers: a change, or an error of its own.
#[derive(Debug)]
pub enum WatchEvent {
    Change(ChangeKind),
    Failure(notify::Error),
}

/// What a look at the pending events tells the consumer.
#[derive(Clone, Copy, Debug, PartialEq, Eq, Structural)]
pub enum Signal {
    /// A rebuild is warranted.
    Ready,
    /// Nothing that warrants a rebuild is pending.
    Idle,
    /// No more events will come.
    Closed,
    /// The notification primitive reported an error.
    Failed,
}

/// The event is an error of the notification primitive.
pub open spec fn is_failure() -> spec_fn(WatchEvent) -> bool {
    |e: WatchEvent| e is Failure
}

/// The event is a change that warrants a rebuild.
pub open spec fn is_qualifying_change(e: WatchEvent) -> bool {
    match e {
        WatchEvent::Change(k) => qualifies(k),
        WatchEvent::Failure(_) => false,
    }
}

/// Some event of `s` is an error of the notification primitive.
pub open spec fn has_failure(s: Seq<WatchEvent>) -> bool {
    exists|i: int| 0 <= i < s.len() && (#[trigger] s[i]) is Failure
}

/// Some event of `s` warrants a rebuild.
pub open spec fn has_qualifying(s: Seq<WatchEvent>) -> bool {
    exists|i: int| 0 <= i < s.len() && is_qualifying_change(#[trigger] s[i])
}

/// The one signal that a batch `s` of pending events gives, where `closed` says
/// whether the stream of events has ended: an error wins, then any qualifying
/// change, however many; non-qualifying changes count for nothing.
pub open spec fn signal_of(s: Seq<WatchEvent>, closed: bool) -> Signal {
    if has_failure(s) {
        Signal::Failed
    } else if has_qualifying(s) {
        Signal::Ready
    } else if closed {
        Signal::Closed
    } else {
        Signal::Idle
    }
}

/// Taking out an error of the notification primitive keeps every qualifying
/// change that was pending.
pub proof fn lemma_failure_keeps_changes(s: Seq<WatchEvent>, k: int)
    requires
        0 <= k < s.len(),
        s[k] is Failure,
    ensures
        has_qualifying(s.remove(k)) == has_qualifying(s),
{
    let t = s.remove(k);
    if has_qualifying(s) {
        let i = choose|i: int| 0 <= i < s.len() && is_qualifying_change(#[trigger] s[i]);
        assert(i != k);
        let j = if i < k {
            i
        } else {
            i - 1
        };
        assert(t[j] == s[i]);
    }
    if has_qualifying(t) {
        let j = choose|j: int| 0 <= j < t.len() && is_qualifying_change(#[trigger] t[j]);
        let i = if j < k {
            j
        } else {
            j + 1
        };
        assert(s[i] == t[j]);
    }
}

/// The events that arrived since the consumer last looked, and whether the
/// stream that delivers them has ended.
#[derive(Debug)]
pub struct PendingEvents {
    pub events: Vec<WatchEvent>,
    pub closed: bool,
}

impl PendingEvents {
    /// No events, and an open stream.
    pub fn new() -> (r: PendingEvents)
        ensures
            r.events@.len() == 0,
            !r.closed,
    {
        PendingEvents { events: Vec::new(), closed: false }
    }

    /// Records an event delivered by the notification primitive.
    pub fn push(&mut self, event: WatchEvent)
        ensures
            final(self).events@ == old(self).events@.push(event),
            final(self).closed == old(self).closed,
    {
        self.events.push(event);
    }

    /// Records that the stream of events has ended.
    pub fn close(&mut self)
        ensures
            final(self).events@ == old(self).events@,
            final(self).closed,
    {
        self.closed = true;
    }

    /// Collapses the pending events into one signal: `Ok(true)` for a warranted
    /// rebuild, `Ok(false)` for none, `ChannelClosed` once the stream has ended
    /// with nothing warranting one, and the first error that the notification
    /// primitive reported. An error consumes only itself: the other events stay
    /// pending, so a change that came with it still gives its signal on the next
    /// call. Any other signal consumes every pending event.
    pub fn take_ready(&mut self) -> (r: Result<bool, NextError>)
        ensures
            final(self).closed == old(self).closed,
            !(r matches Err(NextError::Notify { .. })) ==> final(self).events@.len() == 0,
            r matches Err(NextError::Notify { .. }) ==> has_qualifying(final(self).events@)
                == has_qualifying(old(self).events@),
            match r {
                Ok(true) => signal_of(old(self).events@, old(self).closed) == Signal::Ready,
                Ok(false) => signal_of(old(self).events@, old(self).closed) == Signal::Idle,
                Err(NextError::ChannelClosed) => signal_of(old(self).events@, old(self).closed)
                    == Signal::Closed,
                Err(NextError::Notify { err }) => signal_of(old(self).events@, old(self).closed)
                    == Signal::Failed && exists|k: int|
                    is_first(old(self).events@, is_failure(), k) && old(self).events@[k]
                        == WatchEvent::Failure(err) && final(self).events@ == old(
                        self,
                    ).events@.remove(k),
            },
    {
        let ghost s = self.events@;
        let ghost p = is_failure();
        let n = self.events.len();
        let mut i: usize = 0;
        let mut ready = false;
        while i < n
            invariant
                n == s.len(),
                s == self.events@,
                s == old(self).events@,
                self.closed == old(self).closed,
                p == is_failure(),
                i <= n,
                forall|j: int| 0 <= j < i ==> !p(#[trigger] s[j]),
                ready == exists|j: int| 0 <= j < i && is_qualifying_change(#[trigger] s[j]),
            decreases n - i,
        {
            match &self.events[i] {
                WatchEvent::Failure(_) => {
                    proof {
                        assert(is_first(s, is_failure(), i as int));
                        assert(has_failure(s));
                        lemma_failure_keeps_changes(s, i as int);
                    }
                    let ev = self.events.remove(i);
                    match ev {
                        WatchEvent::Failure(err) => {
                            return Err(NextError::Notify { err });
                        },
                        WatchEvent::Change(_) => {
                            proof {
                                assert(false);
                            }
                            return Ok(false);
                        },
                    }
                },
                WatchEvent::Change(k) => {
                    if is_qualifying(*k) {
                        ready = true;
                    }
                },
            }
            proof {
                assert(forall|j: int| 0 <= j < i + 1 ==> !p(#[trigger] s[j]));
            }
            i = i + 1;
        }
        assert(!has_failure(s)) by {
            assert(forall|j: int| 0 <= j < s.len() ==> !(#[trigger] s[j] is Failure));
        }
        self.events.clear();
        if ready {
            Ok(true)
        } else if self.closed {
            Err(NextError::ChannelClosed)
        } else {
            Ok(false)
        }
    }
}

} // verus!
