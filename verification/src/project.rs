//! The ordered sequence of frames that makes up an animation, and the
//! operations that edit it.
//!
//! Every operation that takes an index checks it against the sequence. An
//! index or a name that matches no frame is an ordinary outcome: the
//! operation reports it and leaves the project as it was.

use vstd::prelude::*;
use vstd::string::*;
use crate::frame::{Frame, FrameView};

verus! {

/// An ordered collection of frames. The order of the frames is the order in
/// which they are played. Names may repeat; a lookup by name finds the first
/// frame that carries it.
#[derive(Clone, Debug, PartialEq, Eq)]
pub struct Project {
    frames: Vec<Frame>,
}

/// The mathematical values of a sequence of frames, in the same order.
pub open spec fn frames_view(frames: Seq<Frame>) -> Seq<FrameView> {
    frames.map_values(|frame: Frame| frame@)
}

/// Whether `index` is the position of the first frame called `name`.
pub open spec fn is_first_named(frames: Seq<FrameView>, name: Seq<char>, index: int) -> bool {
    &&& 0 <= index < frames.len()
    &&& frames[index].name == name
    &&& forall|earlier: int| 0 <= earlier < index ==> (#[trigger] frames[earlier]).name != name
}

/// Whether some frame is called `name`.
pub open spec fn has_frame_named(frames: Seq<FrameView>, name: Seq<char>) -> bool {
    exists|index: int| 0 <= index < frames.len() && (#[trigger] frames[index]).name == name
}

/// The sequence after the frame at `index` was taken out and put back at
/// `new_index`, counted in the sequence without that frame.
pub open spec fn moved(frames: Seq<FrameView>, index: int, new_index: int) -> Seq<FrameView> {
    frames.remove(index).insert(new_index, frames[index])
}

/// The same frame with another display duration.
pub open spec fn retimed(frame: FrameView, duration: u32) -> FrameView {
    FrameView { name: frame.name, path: frame.path, duration }
}

/// The same frames, each with the display duration `duration`.
pub open spec fn all_retimed(frames: Seq<FrameView>, duration: u32) -> Seq<FrameView> {
    frames.map_values(|frame: FrameView| retimed(frame, duration))
}

impl View for Project {
    type V = Seq<FrameView>;

    closed spec fn view(&self) -> Seq<FrameView> {
        frames_view(self.frames@)
    }
}

impl Project {
    /// A project without frames.
    pub fn new() -> (project: Project)
        ensures
            project@ == Seq::<FrameView>::empty(),
    {
        Project { frames: Vec::new() }
    }

    /// A project that holds the given frames in the given order.
    pub fn from(frames: Vec<Frame>) -> (project: Project)
        ensures
            project@ == frames_view(frames@),
    {
        Project { frames }
    }

    /// The project to go on with after an attempt to load one: the loaded
    /// frames where there are any, and an empty project where loading failed.
    pub fn loaded_or_new(loaded: Option<Vec<Frame>>) -> (project: Project)
        ensures
            project@ == match loaded {
                Some(frames) => frames_view(frames@),
                None => Seq::<FrameView>::empty(),
            },
    {
        match loaded {
            Some(frames) => Project::from(frames),
            None => Project::new(),
        }
    }

    /// The number of frames.
    pub fn len(&self) -> (len: usize)
        ensures
            len == self@.len(),
    {
        self.frames.len()
    }

    /// Whether the project has no frames.
    pub fn is_empty(&self) -> (empty: bool)
        ensures
            empty <==> self@.len() == 0,
    {
        self.frames.len() == 0
    }

    /// The frames in playback order.
    pub fn frames(&self) -> (frames: &Vec<Frame>)
        ensures
            frames_view(frames@) == self@,
    {
        &self.frames
    }

    /// The frame at `index`, if there is one.
    pub fn frame(&self, index: usize) -> (frame: Option<&Frame>)
        ensures
            match frame {
                Some(frame) => index < self@.len() && frame@ == self@[index as int],
                None => index >= self@.len(),
            },
    {
        if index < self.frames.len() {
            Some(&self.frames[index])
        } else {
            None
        }
    }

    /// The index that a position stands for. Positions are what a user
    /// counts: the first frame has position 1, the last has the number of
    /// frames. Any other number is no position, and the result is `None`.
    pub fn index_of_position(&self, position: usize) -> (index: Option<usize>)
        ensures
            index == if 1 <= position <= self@.len() {
                Some((position - 1) as usize)
            } else {
                None
            },
    {
        if 1 <= position && position <= self.frames.len() {
            Some(position - 1)
        } else {
            None
        }
    }

    /// Appends a frame to the end of the sequence.
    pub fn add_frame(&mut self, frame: Frame)
        ensures
            final(self)@ == old(self)@.push(frame@),
    {
        self.frames.push(frame);
    }

    /// The position of the first frame called `name`, or `None` where no
    /// frame carries that name.
    pub fn get_frame_index(&self, name: &str) -> (found: Option<usize>)
        ensures
            match found {
                Some(index) => is_first_named(self@, name@, index as int),
                None => !has_frame_named(self@, name@),
            },
    {
        let wanted = String::from_str(name);
        let mut index: usize = 0;
        while index < self.frames.len()
            invariant
                index <= self.frames.len(),
                wanted@ == name@,
                forall|earlier: int|
                    0 <= earlier < index ==> (#[trigger] self@[earlier]).name != name@,
            decreases self.frames.len() - index,
        {
            if self.frames[index].name == wanted {
                return Some(index);
            }
            index += 1;
        }
        None
    }

    /// Takes the frame at `index` out of the sequence and hands it back; the
    /// frames behind it move up by one. Where `index` is out of range nothing
    /// changes and the result is `None`.
    pub fn remove_frame(&mut self, index: usize) -> (removed: Option<Frame>)
        ensures
            match removed {
                Some(frame) => {
                    &&& index < old(self)@.len()
                    &&& frame@ == old(self)@[index as int]
                    &&& final(self)@ == old(self)@.remove(index as int)
                },
                None => index >= old(self)@.len() && final(self)@ == old(self)@,
            },
    {
        if index < self.frames.len() {
            let frame = self.frames.remove(index);
            Some(frame)
        } else {
            None
        }
    }

    /// Takes the frame at `index` out of the sequence and puts it back at
    /// `new_index`. The new position is counted in the sequence as it is
    /// after the frame was taken out, so the frame ends up at `new_index`, and
    /// the largest position, which appends, is one less than the number of
    /// frames.
    ///
    /// The frame is moved, and the result is `true`, exactly when both
    /// positions are less than the number of frames. Otherwise nothing
    /// changes.
    pub fn move_frame(&mut self, index: usize, new_index: usize) -> (was_moved: bool)
        ensures
            was_moved <==> index < old(self)@.len() && new_index < old(self)@.len(),
            was_moved ==> final(self)@ == moved(old(self)@, index as int, new_index as int),
            !was_moved ==> final(self)@ == old(self)@,
    {
        let len = self.frames.len();
        if index < len && new_index < len {
            let frame = self.frames.remove(index);
            self.frames.insert(new_index, frame);
            true
        } else {
            false
        }
    }

    /// Gives the frame at `index` the display duration `duration` and leaves
    /// every other frame alone. Where `index` is out of range nothing changes
    /// and the result is `false`.
    pub fn change_frame_duration(&mut self, index: usize, duration: u32) -> (changed: bool)
        ensures
            changed <==> index < old(self)@.len(),
            changed ==> final(self)@ == old(self)@.update(
                index as int,
                retimed(old(self)@[index as int], duration),
            ),
            !changed ==> final(self)@ == old(self)@,
    {
        if index < self.frames.len() {
            self.frames[index].duration = duration;
            true
        } else {
            false
        }
    }

    /// Gives every frame the display duration `duration`, whatever it had
    /// before. Names, paths and the order stay as they are.
    pub fn change_duration_of_all_frames(&mut self, duration: u32)
        ensures
            final(self)@ == all_retimed(old(self)@, duration),
            final(self)@.len() == old(self)@.len(),
            forall|index: int|
                0 <= index < final(self)@.len() ==> (#[trigger] final(self)@[index]).duration
                    == duration,
    {
        let mut index: usize = 0;
        while index < self.frames.len()
            invariant
                index <= self.frames.len(),
                self.frames@.len() == old(self).frames@.len(),
                forall|done: int|
                    0 <= done < index ==> (#[trigger] self.frames@[done])@ == retimed(
                        old(self).frames@[done]@,
                        duration,
                    ),
                forall|rest: int|
                    index <= rest < self.frames@.len() ==> (#[trigger] self.frames@[rest])
                        == old(self).frames@[rest],
            decreases self.frames.len() - index,
        {
            self.frames[index].duration = duration;
            index += 1;
        }
    }
}

/// Moving a frame and then moving it back restores the order: after
/// the frame at `index` went to `new_index`, the move from `new_index` to
/// `index` undoes it.
pub proof fn move_round_trip(frames: Seq<FrameView>, index: int, new_index: int)
    requires
        0 <= index < frames.len(),
        0 <= new_index < frames.len(),
    ensures
        moved(frames, index, new_index).len() == frames.len(),
        moved(frames, index, new_index)[new_index] == frames[index],
        moved(moved(frames, index, new_index), new_index, index) == frames,
{
    assert(moved(frames, index, new_index).remove(new_index) =~= frames.remove(index));
}

/// A frame that is removed and then added again comes back at the end, not
/// at the position it had: the frames that stood behind it have moved up by
/// one, and it follows them. The order is the order of insertion.
pub proof fn remove_then_add_appends(frames: Seq<FrameView>, index: int)
    requires
        0 <= index < frames.len(),
    ensures
        frames.remove(index).push(frames[index]).len() == frames.len(),
        frames.remove(index).push(frames[index]).last() == frames[index],
        forall|before: int|
            0 <= before < index ==> #[trigger] frames.remove(index).push(frames[index])[before]
                == frames[before],
        forall|behind: int|
            index <= behind < frames.len() - 1 ==> #[trigger] frames.remove(index).push(
                frames[index],
            )[behind] == frames[behind + 1],
{
}

/// Removing a frame and adding it again changes the order whenever two
/// neighbours from the removed frame onwards differ. (Where they are all
/// alike, as for the last frame, which has none behind it, the sequence
/// cannot change.)
pub proof fn remove_then_add_reorders(frames: Seq<FrameView>, index: int, differing: int)
    requires
        0 <= index < frames.len(),
        index <= differing < frames.len() - 1,
        frames[differing] != frames[differing + 1],
    ensures
        frames.remove(index).push(frames[index]) != frames,
{
    let again = frames.remove(index).push(frames[index]);
    assert(again[differing] == frames[differing + 1]);
}

} // verus!
