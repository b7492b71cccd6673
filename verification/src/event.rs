//! What is watched, and the events a watch delivers.

use vstd::prelude::*;

verus! {

/// The file whose appended lines are followed, and the directory that is
/// watched for it. Both are absolute paths, resolved by whoever builds the
/// target.
#[derive(Clone, Debug, PartialEq, Eq)]
pub struct WatchTarget {
    pub file_path: String,
    pub directory_path: String,
}

/// An event as the session takes it from its queue.
#[derive(Clone, Debug, PartialEq, Eq)]
pub enum ChangeEvent {
    /// Something changed at this absolute path.
    PathChanged(String),
    /// The session is asked to end.
    ShutdownRequested,
}

/// What a [`ChangeEvent`] stands for.
pub enum EventView {
    PathChanged(Seq<char>),
    ShutdownRequested,
}

impl View for ChangeEvent {
    type V = EventView;

    open spec fn view(&self) -> EventView {
        match self {
            ChangeEvent::PathChanged(path) => EventView::PathChanged(path@),
            ChangeEvent::ShutdownRequested => EventView::ShutdownRequested,
        }
    }
}

impl WatchTarget {
    /// A target from its two paths.
    pub fn new(file_path: String, directory_path: String) -> (target: WatchTarget)
        ensures
            target.file_path == file_path,
            target.directory_path == directory_path,
    {
        WatchTarget { file_path, directory_path }
    }
}

impl ChangeEvent {
    /// The event for one notification of the watch, which names the paths in
    /// `paths`: a change at the first of them. A notification that names no
    /// path gives no event.
    pub fn from_paths(paths: &Vec<String>) -> (event: Option<ChangeEvent>)
        ensures
            paths@.len() == 0 ==> event is None,
            paths@.len() > 0 ==> event is Some && event->0@ == EventView::PathChanged(
                paths@[0]@,
            ),
    {
        if paths.len() == 0 {
            None
        } else {
            Some(ChangeEvent::PathChanged(paths[0].clone()))
        }
    }

    /// Does this event name exactly the path `file_path`?
    pub fn touches(&self, file_path: &String) -> (same: bool)
        ensures
            same == (self@ == EventView::PathChanged(file_path@)),
    {
        match self {
            ChangeEvent::PathChanged(path) => *path == *file_path,
            ChangeEvent::ShutdownRequested => false,
        }
    }
}

} // verus!
