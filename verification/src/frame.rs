//! A single frame of an animation: a named reference to an image file
//! together with the time the image stays on screen.

use vstd::prelude::*;

verus! {

/// One named, timed reference to a source image.
#[derive(Clone, Debug, PartialEq, Eq)]
pub struct Frame {
    /// The name by which the frame is looked up inside a project.
    pub name: String,
    /// Location of the source image on disk.
    pub path: String,
    /// How long the frame is displayed, in milliseconds. Zero means that
    /// playback advances without waiting.
    pub duration: u32,
}

/// The mathematical value of a [`Frame`].
pub struct FrameView {
    pub name: Seq<char>,
    pub path: Seq<char>,
    pub duration: u32,
}

impl View for Frame {
    type V = FrameView;

    open spec fn view(&self) -> FrameView {
        FrameView { name: self.name@, path: self.path@, duration: self.duration }
    }
}

impl Frame {
    /// Builds a frame from its parts.
    ///
    /// A frame must refer to an existing regular file when it is made. The
    /// library never touches the file system, so the caller makes that test
    /// and hands over its outcome; a frame for a missing file is a violation
    /// of this function's precondition.
    pub fn new(name: String, path: String, duration: u32, path_is_file: bool) -> (frame: Frame)
        requires
            path_is_file,
        ensures
            frame@ == (FrameView { name: name@, path: path@, duration }),
    {
        Frame { name, path, duration }
    }
}

} // verus!
