//! Showing the image that was captured last.
//!
//! A viewer keeps the image of a location once it has loaded it. So whoever
//! shows the captured image has to know when the file was written anew: the
//! cached image is then forgotten before the file is shown again.

use vstd::prelude::*;

verus! {

/// What to do with the captured image in one frame of the window.
#[derive(Clone, Debug, PartialEq, Eq)]
pub enum PictureAction {
    /// Show nothing.
    Hide,
    /// Show the image at `uri`. Where `reload` is set, forget what is cached
    /// for `uri` first.
    Show { uri: String, reload: bool },
}

/// What a [`PictureAction`] stands for.
pub enum PictureActionView {
    Hide,
    Show { uri: Seq<char>, reload: bool },
}

impl View for PictureAction {
    type V = PictureActionView;

    open spec fn view(&self) -> PictureActionView {
        match self {
            PictureAction::Hide => PictureActionView::Hide,
            PictureAction::Show { uri, reload } => PictureActionView::Show {
                uri: uri@,
                reload: *reload,
            },
        }
    }
}

/// Remembers whether the image file was written since it was shown last.
pub struct Picture {
    stale: bool,
}

/// The text that every location of a local file begins with.
pub open spec fn file_scheme() -> Seq<char> {
    seq!['f', 'i', 'l', 'e', ':', '/', '/']
}

/// `uri` names a local file.
pub open spec fn has_file_scheme(uri: Seq<char>) -> bool {
    uri.len() >= 7 && uri.subrange(0, 7) == file_scheme()
}

/// What is done in a frame: the image is shown where its file exists and has
/// a location, and it is loaded anew where the file was written since.
pub open spec fn frame_action(stale: bool, file_exists: bool, uri: Option<Seq<char>>)
    -> PictureActionView {
    match uri {
        Some(uri) if file_exists => PictureActionView::Show { uri, reload: stale },
        _ => PictureActionView::Hide,
    }
}

/// What is remembered after a frame: an image that was shown is fresh.
pub open spec fn stale_after_frame(stale: bool, file_exists: bool, uri: Option<Seq<char>>)
    -> bool {
    stale && !(file_exists && uri is Some)
}

/// The text of a location, if there is one.
pub open spec fn location_view(uri: Option<String>) -> Option<Seq<char>> {
    match uri {
        Some(uri) => Some(uri@),
        None => None,
    }
}

/// Calls `url::Url::from_file_path` and hands out the text of the result.
/// The contract claims what the documentation of that function says of every
/// result: it is a location in the `file` scheme. It claims nothing of the
/// paths for which there is no result; those are the paths that are not
/// absolute on the platform at hand.
#[verifier::external_body]
fn file_uri(path: &str) -> (uri: Option<String>)
    ensures
        uri is Some ==> has_file_scheme(uri->0@),
{
    url::Url::from_file_path(path).ok().map(String::from)
}

impl Picture {
    /// Whether the image file was written since it was shown last.
    pub closed spec fn stale(&self) -> bool {
        self.stale
    }

    /// A picture that was never shown: the first image is loaded anew.
    pub fn new() -> (picture: Picture)
        ensures
            picture.stale(),
    {
        Picture { stale: true }
    }

    /// The image file was written.
    pub fn image_saved(&mut self)
        ensures
            final(self).stale(),
    {
        self.stale = true;
    }

    /// One frame, for an image file that exists or not and whose location is
    /// `uri`, if it has one.
    pub fn frame(&mut self, file_exists: bool, uri: Option<String>) -> (action: PictureAction)
        ensures
            action@ == frame_action(old(self).stale(), file_exists, location_view(uri)),
            final(self).stale() == stale_after_frame(
                old(self).stale(),
                file_exists,
                location_view(uri),
            ),
    {
        match uri {
            Some(uri) => {
                if file_exists {
                    let reload: bool = self.stale;
                    self.stale = false;
                    PictureAction::Show { uri, reload }
                } else {
                    PictureAction::Hide
                }
            },
            None => PictureAction::Hide,
        }
    }

    /// One frame, for the image file at `output_path`.
    ///
    /// Nothing is shown where the file does not exist. Where it exists, its
    /// location is worked out, which succeeds for absolute paths only; the
    /// outcome is that of [`Picture::frame`] for that location.
    pub fn frame_for(&mut self, file_exists: bool, output_path: &str) -> (action: PictureAction)
        ensures
            !file_exists ==> action@ is Hide,
            action@ is Hide ==> final(self).stale() == old(self).stale(),
            action@ is Show ==> {
                &&& file_exists
                &&& has_file_scheme(action@->uri)
                &&& action@->reload == old(self).stale()
                &&& !final(self).stale()
            },
    {
        if !file_exists {
            return PictureAction::Hide;
        }
        let uri = file_uri(output_path);
        self.frame(file_exists, uri)
    }
}

} // verus!
