use vstd::prelude::*;
use crate::inbox::{DropInbox, record_spec, take_spec};

verus! {

/// A file-drop event as the window host reports it, with paths already
/// turned into strings.
pub enum DropEvent {
    /// Files are being dragged over the window.
    Hovered(Vec<String>),
    /// Files were released over the window.
    Dropped(Vec<String>),
    /// The drag left the window or was abandoned.
    Cancelled,
    /// A kind of drop event that this relay does not handle.
    Other,
}

/// The front-end channel a notification is published on.
#[derive(Clone, Copy, Debug, PartialEq, Eq, Structural)]
pub enum Channel {
    Hover,
    Dropped,
    Cancelled,
}

/// The name of the front-end channel.
pub open spec fn channel_name(c: Channel) -> Seq<char> {
    match c {
        Channel::Hover => "file-drop-hover"@,
        Channel::Dropped => "file-dropped"@,
        Channel::Cancelled => "file-drop-cancelled"@,
    }
}

impl Channel {
    /// The name under which the front-end listens for this channel.
    pub fn name(&self) -> (r: &'static str)
        ensures
            r@ == channel_name(*self),
    {
        match self {
            Channel::Hover => "file-drop-hover",
            Channel::Dropped => "file-dropped",
            Channel::Cancelled => "file-drop-cancelled",
        }
    }
}

/// A notification for the front-end.
pub enum Notification {
    /// Files hover over the window; carries their paths.
    Hover(Vec<String>),
    /// Files were dropped; carries their paths.
    Dropped(Vec<String>),
    /// The drag was cancelled; carries nothing.
    Cancelled,
}

impl View for Notification {
    /// The channel and the payload (empty where the notification carries none).
    type V = (Channel, Seq<String>);

    open spec fn view(&self) -> (Channel, Seq<String>) {
        match self {
            Notification::Hover(p) => (Channel::Hover, p@),
            Notification::Dropped(p) => (Channel::Dropped, p@),
            Notification::Cancelled => (Channel::Cancelled, Seq::empty()),
        }
    }
}

impl Notification {
    /// The channel this notification is published on.
    pub fn channel(&self) -> (r: Channel)
        ensures
            r == self@.0,
    {
        match self {
            Notification::Hover(_) => Channel::Hover,
            Notification::Dropped(_) => Channel::Dropped,
            Notification::Cancelled => Channel::Cancelled,
        }
    }
}

/// An optional notification, seen through its view.
pub open spec fn notification_view(n: Option<Notification>) -> Option<(Channel, Seq<String>)> {
    match n {
        Some(x) => Some(x@),
        None => None,
    }
}

/// How one event changes the inbox contents `held`, and what it announces.
pub open spec fn relay_spec(held: Seq<String>, e: DropEvent) -> (
    Seq<String>,
    Option<(Channel, Seq<String>)>,
) {
    match e {
        DropEvent::Hovered(p) => (held, Some((Channel::Hover, p@))),
        DropEvent::Dropped(p) => (record_spec(held, p@), Some((Channel::Dropped, p@))),
        DropEvent::Cancelled => (held, Some((Channel::Cancelled, Seq::empty()))),
        DropEvent::Other => (held, None),
    }
}

/// Handles one drop event: a drop replaces the inbox contents; hover and
/// cancel leave them alone. Returns the notification to publish, if any.
pub fn handle_drop_event(inbox: &mut DropInbox, event: DropEvent) -> (r: Option<Notification>)
    ensures
        (final(inbox)@, notification_view(r)) == relay_spec(old(inbox)@, event),
{
    match event {
        DropEvent::Hovered(paths) => Some(Notification::Hover(paths)),
        DropEvent::Dropped(paths) => {
            inbox.record(paths.clone());
            Some(Notification::Dropped(paths))
        },
        DropEvent::Cancelled => Some(Notification::Cancelled),
        DropEvent::Other => None,
    }
}

/// The front-end's query: the paths of the latest drop not yet read, after
/// which the inbox is empty.
pub fn get_dropped_files(inbox: &mut DropInbox) -> (r: Vec<String>)
    ensures
        (r@, final(inbox)@) == take_spec(old(inbox)@),
{
    inbox.take()
}

} // verus!
