//! From the notifications of a file system watch to the events of a session.

use crate::event::ChangeEvent;
use crate::event::EventView;
use vstd::prelude::*;

verus! {

/// A notification as the `notify` crate delivers it.
#[verifier::external_type_specification]
#[verifier::external_body]
pub struct ExNotification(notify::Event);

/// The paths that a notification names, in its order, each as the text that
/// `Path::to_string_lossy` gives for it.
pub uninterp spec fn notified_paths(notification: notify::Event) -> Seq<Seq<char>>;

/// Hands out the field `paths` of a `notify::Event`, each path turned into
/// text by `Path::to_string_lossy`. The contract only gives that list its
/// name: nothing is claimed of what the paths are.
#[verifier::external_body]
fn paths_of(notification: &notify::Event) -> (paths: Vec<String>)
    ensures
        paths.deep_view() == notified_paths(*notification),
{
    notification.paths.iter().map(|path| path.to_string_lossy().into_owned()).collect()
}

/// The event for one notification of the watch: a change at the first path
/// that it names, whatever kind of change it reports and whichever file of
/// the watched directory it is about. A notification that names no path gives
/// no event.
pub fn normalize(notification: &notify::Event) -> (event: Option<ChangeEvent>)
    ensures
        notified_paths(*notification).len() == 0 ==> event is None,
        notified_paths(*notification).len() > 0 ==> event is Some && event->0@
            == EventView::PathChanged(notified_paths(*notification)[0]),
{
    let paths = paths_of(notification);
    ChangeEvent::from_paths(&paths)
}

/// How changes of the watched directory are found.
#[derive(Clone, Copy, Debug, PartialEq, Eq, Structural)]
pub enum WatchStrategy {
    /// Change notifications of the operating system.
    Native,
    /// Looking at the directory again after every [`POLL_INTERVAL_MILLIS`].
    Polling,
}

/// The pause between two looks at the directory where it is polled, in
/// milliseconds.
pub const POLL_INTERVAL_MILLIS: u64 = 10;

impl WatchStrategy {
    /// The strategy for a platform: polling where the platform's own change
    /// notifications do not report appends to the watched file, its
    /// notifications elsewhere.
    pub fn select(native_is_reliable: bool) -> (strategy: WatchStrategy)
        ensures
            strategy == if native_is_reliable {
                WatchStrategy::Native
            } else {
                WatchStrategy::Polling
            },
    {
        if native_is_reliable {
            WatchStrategy::Native
        } else {
            WatchStrategy::Polling
        }
    }

    /// The pause between two looks, for the strategy that polls.
    pub fn poll_interval_millis(&self) -> (millis: Option<u64>)
        ensures
            millis == match *self {
                WatchStrategy::Native => None::<u64>,
                WatchStrategy::Polling => Some(POLL_INTERVAL_MILLIS),
            },
    {
        match self {
            WatchStrategy::Native => None,
            WatchStrategy::Polling => Some(POLL_INTERVAL_MILLIS),
        }
    }
}

} // verus!
