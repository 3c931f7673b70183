//! The desktop status view: a snapshot of observed protocol events, its
//! one-line rendering, and the start/stop control of the event tap.

use vstd::prelude::*;
use crate::text::{decimal_seq, push_decimal};

verus! {

/// Desktop runtime errors.
#[derive(Debug, Clone, Copy, PartialEq, Eq, Structural)]
pub enum DesktopError {
    /// The runtime is already stopped.
    AlreadyStopped,
    /// The runtime is already running.
    AlreadyRunning,
    /// The control channel is closed.
    ControlClosed,
}

/// Result alias for the desktop runtime.
pub type DesktopResult<T> = Result<T, DesktopError>;

impl DesktopError {
    /// The human-readable text of this error.
    pub fn to_message_string(&self) -> (r: String)
        ensures
            *self == DesktopError::AlreadyStopped ==> r@ == "desktop runtime already stopped"@,
            *self == DesktopError::AlreadyRunning ==> r@ == "desktop runtime already started"@,
            *self == DesktopError::ControlClosed ==> r@ == "desktop control channel closed"@,
    {
        match self {
            DesktopError::AlreadyStopped => String::from_str("desktop runtime already stopped"),
            DesktopError::AlreadyRunning => String::from_str("desktop runtime already started"),
            DesktopError::ControlClosed => String::from_str("desktop control channel closed"),
        }
    }
}

/// What the dashboard shows: a title, the number of events seen and the
/// latest one's time, source and kind.
#[derive(Debug, Clone, PartialEq, Eq)]
pub struct DesktopSnapshot {
    /// Module title.
    pub title: String,
    /// Protocol events observed.
    pub total_events: u64,
    /// Timestamp of the latest event, in epoch milliseconds.
    pub last_event_ms: Option<u128>,
    /// Source of the latest event.
    pub last_source: Option<String>,
    /// Kind of the latest event.
    pub last_kind: Option<String>,
}

/// The one-line status of a snapshot: `title | events=N`, followed by
/// ` last=SOURCE KIND` once an event has been seen.
pub open spec fn status_line(s: DesktopSnapshot) -> Seq<char> {
    let head = s.title@ + " | events="@ + decimal_seq(s.total_events as nat);
    match (s.last_source, s.last_kind) {
        (Some(source), Some(kind)) => head + " last="@ + source@ + " "@ + kind@,
        _ => head,
    }
}

impl DesktopSnapshot {
    /// A snapshot that has seen nothing.
    pub fn empty(title: &str) -> (r: Self)
        ensures
            r.title@ == title@,
            r.total_events == 0,
            r.last_event_ms is None,
            r.last_source is None,
            r.last_kind is None,
    {
        DesktopSnapshot {
            title: String::from_str(title),
            total_events: 0,
            last_event_ms: None,
            last_source: None,
            last_kind: None,
        }
    }

    /// The one-line status view.
    pub fn as_status_line(&self) -> (r: String)
        ensures
            r@ == status_line(*self),
    {
        let mut r = self.title.clone();
        r.append(" | events=");
        push_decimal(&mut r, self.total_events);
        match (&self.last_source, &self.last_kind) {
            (Some(source), Some(kind)) => {
                r.append(" last=");
                r.append(source.as_str());
                r.append(" ");
                r.append(kind.as_str());
            },
            _ => {},
        }
        r
    }

    /// Counts one more event, saturating at the counter's limit, and makes
    /// it the latest.
    pub fn record_event(&mut self, source: String, kind: String, at_millis: u128)
        ensures
            final(self).title == old(self).title,
            final(self).total_events == (if old(self).total_events == u64::MAX {
                u64::MAX
            } else {
                (old(self).total_events + 1) as u64
            }),
            final(self).last_event_ms == Some(at_millis),
            final(self).last_source == Some(source),
            final(self).last_kind == Some(kind),
    {
        self.total_events = self.total_events.saturating_add(1);
        self.last_event_ms = Some(at_millis);
        self.last_source = Some(source);
        self.last_kind = Some(kind);
    }
}

/// The dashboard refresh interval: the requested one, but no shorter than
/// 250 ms.
pub fn refresh_interval_ms(requested: u64) -> (r: u64)
    ensures
        r == (if requested < 250 {
            250
        } else {
            requested
        }),
{
    if requested < 250 {
        250
    } else {
        requested
    }
}

/// The lifecycle of the event tap: whether its stop channel is held and
/// whether its task is held.
#[derive(Debug, Clone, Copy, PartialEq, Eq, Structural)]
pub struct DesktopControl {
    /// A stop channel to the running task is held.
    pub has_stop_channel: bool,
    /// The task handle is held.
    pub has_task: bool,
}

/// A start: refused while a task is held, else both are held.
pub open spec fn start_spec(c: DesktopControl) -> (DesktopControl, DesktopResult<()>) {
    if c.has_task {
        (c, Err(DesktopError::AlreadyRunning))
    } else {
        (DesktopControl { has_stop_channel: true, has_task: true }, Ok(()))
    }
}

/// The first half of a stop: refused without a stop channel, which is
/// given up either way.
pub open spec fn request_stop_spec(c: DesktopControl) -> (DesktopControl, DesktopResult<()>) {
    if !c.has_stop_channel {
        (c, Err(DesktopError::AlreadyStopped))
    } else {
        (DesktopControl { has_stop_channel: false, has_task: c.has_task }, Ok(()))
    }
}

/// The second half of a stop: when the stop signal could not be delivered
/// the task is kept and the channel is reported closed; otherwise the task
/// is awaited and dropped.
pub open spec fn complete_stop_spec(c: DesktopControl, delivered: bool) -> (
    DesktopControl,
    DesktopResult<()>,
) {
    if !delivered {
        (c, Err(DesktopError::ControlClosed))
    } else {
        (DesktopControl { has_stop_channel: c.has_stop_channel, has_task: false }, Ok(()))
    }
}

impl DesktopControl {
    /// Nothing started.
    pub fn new() -> (r: Self)
        ensures
            !r.has_stop_channel,
            !r.has_task,
    {
        DesktopControl { has_stop_channel: false, has_task: false }
    }

    /// Starts the tap.
    pub fn start(&mut self) -> (r: DesktopResult<()>)
        ensures
            (*final(self), r) == start_spec(*old(self)),
    {
        if self.has_task {
            return Err(DesktopError::AlreadyRunning);
        }
        self.has_stop_channel = true;
        self.has_task = true;
        Ok(())
    }

    /// Takes the stop channel, so that the stop signal can be sent.
    pub fn request_stop(&mut self) -> (r: DesktopResult<()>)
        ensures
            (*final(self), r) == request_stop_spec(*old(self)),
    {
        if !self.has_stop_channel {
            return Err(DesktopError::AlreadyStopped);
        }
        self.has_stop_channel = false;
        Ok(())
    }

    /// Finishes a stop once the signal was sent, or failed to be.
    pub fn complete_stop(&mut self, delivered: bool) -> (r: DesktopResult<()>)
        ensures
            (*final(self), r) == complete_stop_spec(*old(self), delivered),
    {
        if !delivered {
            return Err(DesktopError::ControlClosed);
        }
        self.has_task = false;
        Ok(())
    }
}

/// Starting twice without a stop in between is refused as already running.
pub proof fn law_second_start_is_refused(c: DesktopControl)
    requires
        start_spec(c).1 is Ok,
    ensures
        start_spec(start_spec(c).0).1 == Err::<(), DesktopError>(DesktopError::AlreadyRunning),
{
}

/// After a stop whose signal was delivered, a further stop is refused as
/// already stopped, and a new start is accepted.
pub proof fn law_stop_then_stop_is_refused(c: DesktopControl)
    requires
        request_stop_spec(c).1 is Ok,
    ensures
        ({
            let after = complete_stop_spec(request_stop_spec(c).0, true).0;
            &&& request_stop_spec(after).1 == Err::<(), DesktopError>(DesktopError::AlreadyStopped)
            &&& start_spec(after).1 is Ok
        }),
{
}

/// A started tap can be stopped.
pub proof fn law_start_then_stop(c: DesktopControl)
    requires
        start_spec(c).1 is Ok,
    ensures
        request_stop_spec(start_spec(c).0).1 is Ok,
        complete_stop_spec(request_stop_spec(start_spec(c).0).0, true).1 is Ok,
{
}

} // verus!
