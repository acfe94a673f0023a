//! The playback engine: the rules by which the frames of a project are
//! shown one after another, for ever, until the viewer cancels.
//!
//! The engine decides; it performs nothing. Loading an image, drawing it and
//! waiting for a key are the caller's work. The caller reports what happened
//! as a [`PlaybackEvent`], and [`Playback::step`] answers with the actions
//! to perform next, in order. After the actions the caller reports the next
//! event: the outcome of a load after [`PlaybackAction::LoadImage`], the
//! outcome of a wait after [`PlaybackAction::Wait`].

use vstd::prelude::*;
use vstd::arithmetic::div_mod::{
    lemma_add_mod_noop_right, lemma_mod_bound, lemma_mod_self_0, lemma_small_mod,
};
use crate::frame::FrameView;
use crate::project::Project;

verus! {

/// Where a playback stands.
#[derive(Clone, Copy, Debug, PartialEq, Eq, Structural)]
pub enum PlaybackState {
    /// Playback has not begun.
    Idle,
    /// The frame at this position is being loaded and drawn.
    Displaying(usize),
    /// The frame at this position is on screen and its time is running.
    Waiting(usize),
    /// The viewer cancelled. Nothing follows.
    Stopped,
    /// There was no frame to play. Nothing follows.
    Empty,
}

/// What the caller reports to the engine.
#[derive(Clone, Copy, Debug, PartialEq, Eq, Structural)]
pub enum PlaybackEvent {
    /// Playback is asked to begin.
    Started,
    /// The image of the frame being displayed was read.
    ImageLoaded,
    /// The image of the frame being displayed could not be read.
    LoadFailed,
    /// The frame's time passed and no cancellation arrived.
    TimedOut,
    /// A cancellation arrived before the frame's time had passed.
    Cancelled,
}

/// What the engine asks the caller to do.
#[derive(Clone, Copy, Debug, PartialEq, Eq, Structural)]
pub enum PlaybackAction {
    /// Tell the viewer that the project has nothing to play.
    ReportNothingToPlay,
    /// Open the display surface.
    OpenSurface,
    /// Read the image of the frame at `index`.
    LoadImage { index: usize },
    /// Tell the viewer that the image of the frame at `index` could not be
    /// read.
    ReportLoadFailure { index: usize },
    /// Draw the image that was just read for the frame at `index`.
    Render { index: usize },
    /// Wait for a cancellation, for `timeout_ms` milliseconds at most. Zero
    /// means: look once whether a cancellation is pending, and go on.
    Wait { timeout_ms: u32 },
    /// Close the display surface.
    CloseSurface,
}

/// The position that is played after `index` in a sequence of `count`
/// frames: the next one, and the first one after the last.
pub open spec fn following(index: usize, count: nat) -> usize {
    ((index + 1) % (count as int)) as usize
}

/// Whether nothing follows a state.
pub open spec fn is_terminal(state: PlaybackState) -> bool {
    state is Stopped || state is Empty
}

/// The state that follows `state` when `event` is reported. An event that
/// does not belong to the state changes nothing.
pub open spec fn next_state(
    state: PlaybackState,
    event: PlaybackEvent,
    frames: Seq<FrameView>,
) -> PlaybackState {
    match (state, event) {
        (PlaybackState::Idle, PlaybackEvent::Started) => if frames.len() == 0 {
            PlaybackState::Empty
        } else {
            PlaybackState::Displaying(0)
        },
        (PlaybackState::Displaying(index), PlaybackEvent::ImageLoaded) => PlaybackState::Waiting(
            index,
        ),
        (PlaybackState::Displaying(index), PlaybackEvent::LoadFailed) => PlaybackState::Displaying(
            following(index, frames.len()),
        ),
        (PlaybackState::Waiting(index), PlaybackEvent::TimedOut) => PlaybackState::Displaying(
            following(index, frames.len()),
        ),
        (PlaybackState::Waiting(_), PlaybackEvent::Cancelled) => PlaybackState::Stopped,
        _ => state,
    }
}

/// The actions that the caller performs, in order, when `event` is reported
/// in `state`. An event that does not belong to the state asks for nothing.
pub open spec fn next_actions(
    state: PlaybackState,
    event: PlaybackEvent,
    frames: Seq<FrameView>,
) -> Seq<PlaybackAction> {
    match (state, event) {
        (PlaybackState::Idle, PlaybackEvent::Started) => if frames.len() == 0 {
            seq![PlaybackAction::ReportNothingToPlay]
        } else {
            seq![PlaybackAction::OpenSurface, PlaybackAction::LoadImage { index: 0 }]
        },
        (PlaybackState::Displaying(index), PlaybackEvent::ImageLoaded) => seq![
            PlaybackAction::Render { index },
            PlaybackAction::Wait { timeout_ms: frames[index as int].duration },
        ],
        (PlaybackState::Displaying(index), PlaybackEvent::LoadFailed) => seq![
            PlaybackAction::ReportLoadFailure { index },
            PlaybackAction::LoadImage { index: following(index, frames.len()) },
        ],
        (PlaybackState::Waiting(index), PlaybackEvent::TimedOut) => seq![
            PlaybackAction::LoadImage { index: following(index, frames.len()) },
        ],
        (PlaybackState::Waiting(_), PlaybackEvent::Cancelled) => seq![PlaybackAction::CloseSurface],
        _ => Seq::<PlaybackAction>::empty(),
    }
}

/// Whether a state can occur in the playback of `count` frames: a position
/// that is displayed or waited on is the position of a frame.
pub open spec fn state_fits(state: PlaybackState, count: nat) -> bool {
    match state {
        PlaybackState::Displaying(index) => index < count,
        PlaybackState::Waiting(index) => index < count,
        _ => true,
    }
}

/// One playback of a project. The project is borrowed for as long as the
/// playback lives, so its frames cannot change while they are played.
pub struct Playback<'a> {
    project: &'a Project,
    state: PlaybackState,
}

impl Project {
    /// A playback of this project that has not begun. It begins when it is
    /// told [`PlaybackEvent::Started`].
    pub fn play(&self) -> (playback: Playback<'_>)
        ensures
            playback.frames() == self@,
            playback.current() == PlaybackState::Idle,
    {
        Playback { project: self, state: PlaybackState::Idle }
    }
}

impl<'a> Playback<'a> {
    #[verifier::type_invariant]
    spec fn fits(self) -> bool {
        state_fits(self.state, self.project@.len())
    }

    /// The frames being played.
    pub closed spec fn frames(self) -> Seq<FrameView> {
        self.project@
    }

    /// Where the playback stands.
    pub closed spec fn current(self) -> PlaybackState {
        self.state
    }

    /// Where the playback stands.
    pub fn state(&self) -> (state: PlaybackState)
        ensures
            state == self.current(),
            state_fits(state, self.frames().len()),
    {
        proof {
            use_type_invariant(self);
        }
        self.state
    }

    /// Whether the playback has ended.
    pub fn is_finished(&self) -> (finished: bool)
        ensures
            finished == is_terminal(self.current()),
    {
        match self.state {
            PlaybackState::Stopped => true,
            PlaybackState::Empty => true,
            _ => false,
        }
    }

    /// The position played after `index`.
    fn position_after(&self, index: usize) -> (next: usize)
        requires
            index < self.frames().len(),
        ensures
            next == following(index, self.frames().len()),
            next < self.frames().len(),
    {
        let count = self.project.len();
        proof {
            following_is_a_position(index, count as nat);
        }
        if index + 1 == count {
            0
        } else {
            index + 1
        }
    }

    /// Takes in an event and answers with the actions to perform, in order.
    pub fn step(&mut self, event: PlaybackEvent) -> (actions: Vec<PlaybackAction>)
        ensures
            final(self).frames() == old(self).frames(),
            final(self).current() == next_state(old(self).current(), event, old(self).frames()),
            actions@ == next_actions(old(self).current(), event, old(self).frames()),
    {
        proof {
            use_type_invariant(&*self);
        }
        let mut actions: Vec<PlaybackAction> = Vec::new();
        match (self.state, event) {
            (PlaybackState::Idle, PlaybackEvent::Started) => {
                if self.project.is_empty() {
                    self.state = PlaybackState::Empty;
                    actions.push(PlaybackAction::ReportNothingToPlay);
                } else {
                    self.state = PlaybackState::Displaying(0);
                    actions.push(PlaybackAction::OpenSurface);
                    actions.push(PlaybackAction::LoadImage { index: 0 });
                }
            },
            (PlaybackState::Displaying(index), PlaybackEvent::ImageLoaded) => {
                let timeout_ms = self.project.frames()[index].duration;
                self.state = PlaybackState::Waiting(index);
                actions.push(PlaybackAction::Render { index });
                actions.push(PlaybackAction::Wait { timeout_ms });
            },
            (PlaybackState::Displaying(index), PlaybackEvent::LoadFailed) => {
                let next = self.position_after(index);
                self.state = PlaybackState::Displaying(next);
                actions.push(PlaybackAction::ReportLoadFailure { index });
                actions.push(PlaybackAction::LoadImage { index: next });
            },
            (PlaybackState::Waiting(index), PlaybackEvent::TimedOut) => {
                let next = self.position_after(index);
                self.state = PlaybackState::Displaying(next);
                actions.push(PlaybackAction::LoadImage { index: next });
            },
            (PlaybackState::Waiting(_), PlaybackEvent::Cancelled) => {
                self.state = PlaybackState::Stopped;
                actions.push(PlaybackAction::CloseSurface);
            },
            _ => {},
        }
        actions
    }
}

/// What a playback has come to: its state, and every action it has asked
/// for so far, oldest first.
pub struct Trace {
    pub state: PlaybackState,
    pub actions: Seq<PlaybackAction>,
}

/// The trace of a playback of `frames` that began idle and was told
/// `events`, one after another.
pub open spec fn run(frames: Seq<FrameView>, events: Seq<PlaybackEvent>) -> Trace
    decreases events.len(),
{
    if events.len() == 0 {
        Trace { state: PlaybackState::Idle, actions: Seq::<PlaybackAction>::empty() }
    } else {
        let before = run(frames, events.drop_last());
        Trace {
            state: next_state(before.state, events.last(), frames),
            actions: before.actions + next_actions(before.state, events.last(), frames),
        }
    }
}

/// How often `wanted` occurs among `actions`.
pub open spec fn count_of(actions: Seq<PlaybackAction>, wanted: PlaybackAction) -> nat
    decreases actions.len(),
{
    if actions.len() == 0 {
        0
    } else {
        count_of(actions.drop_last(), wanted) + if actions.last() == wanted {
            1nat
        } else {
            0nat
        }
    }
}

proof fn count_of_concat(
    first: Seq<PlaybackAction>,
    second: Seq<PlaybackAction>,
    wanted: PlaybackAction,
)
    ensures
        count_of(first + second, wanted) == count_of(first, wanted) + count_of(second, wanted),
    decreases second.len(),
{
    if second.len() > 0 {
        assert((first + second).drop_last() =~= first + second.drop_last());
        count_of_concat(first, second.drop_last(), wanted);
    }
}

proof fn count_of_one(action: PlaybackAction, wanted: PlaybackAction)
    ensures
        count_of(seq![action], wanted) == if action == wanted {
            1nat
        } else {
            0nat
        },
{
    reveal_with_fuel(count_of, 2);
}

proof fn count_of_two(first: PlaybackAction, second: PlaybackAction, wanted: PlaybackAction)
    ensures
        count_of(seq![first, second], wanted) == (if first == wanted {
            1nat
        } else {
            0nat
        }) + (if second == wanted {
            1nat
        } else {
            0nat
        }),
{
    assert(seq![first, second].drop_last() =~= seq![first]);
    count_of_one(first, wanted);
}

/// How often one step asks for `wanted`: the surface is opened once, on the
/// start of a project with frames, and closed once, on a cancellation during
/// a wait.
proof fn count_in_step(
    state: PlaybackState,
    event: PlaybackEvent,
    frames: Seq<FrameView>,
    wanted: PlaybackAction,
)
    requires
        wanted == PlaybackAction::OpenSurface || wanted == PlaybackAction::CloseSurface,
    ensures
        count_of(next_actions(state, event, frames), wanted) == if wanted
            == PlaybackAction::OpenSurface && state is Idle && event is Started && frames.len()
            > 0 {
            1nat
        } else if wanted == PlaybackAction::CloseSurface && state is Waiting && event
            is Cancelled {
            1nat
        } else {
            0nat
        },
{
    let actions = next_actions(state, event, frames);
    if actions.len() == 1 {
        count_of_one(actions[0], wanted);
    } else if actions.len() == 2 {
        count_of_two(actions[0], actions[1], wanted);
    }
}

/// The position that follows the position of a frame is the position of a
/// frame.
proof fn following_is_a_position(index: usize, count: nat)
    requires
        index < count,
        count <= usize::MAX,
    ensures
        following(index, count) < count,
        following(index, count) == if index + 1 == count {
            0int
        } else {
            index + 1
        },
{
    if index + 1 == count {
        lemma_mod_self_0(count as int);
    } else {
        lemma_small_mod((index + 1) as nat, count);
    }
}

/// The display surface is opened at most once in a playback, and is closed
/// exactly once where it was opened and the playback has ended. In full:
/// before the start, and after a start without frames, it was neither opened
/// nor closed; while frames are displayed and waited on it is open; and
/// after a cancellation it has been opened once and closed once. A failed
/// load does not close it.
pub proof fn surface_opened_once_closed_once(
    frames: Seq<FrameView>,
    events: Seq<PlaybackEvent>,
)
    requires
        frames.len() <= usize::MAX,
    ensures
        state_fits(run(frames, events).state, frames.len()),
        count_of(run(frames, events).actions, PlaybackAction::OpenSurface) == (match run(
            frames,
            events,
        ).state {
            PlaybackState::Idle => 0nat,
            PlaybackState::Empty => 0nat,
            _ => 1nat,
        }),
        count_of(run(frames, events).actions, PlaybackAction::CloseSurface) == (match run(
            frames,
            events,
        ).state {
            PlaybackState::Stopped => 1nat,
            _ => 0nat,
        }),
    decreases events.len(),
{
    if events.len() > 0 {
        let before = run(frames, events.drop_last());
        surface_opened_once_closed_once(frames, events.drop_last());
        let asked = next_actions(before.state, events.last(), frames);
        count_of_concat(before.actions, asked, PlaybackAction::OpenSurface);
        count_of_concat(before.actions, asked, PlaybackAction::CloseSurface);
        count_in_step(before.state, events.last(), frames, PlaybackAction::OpenSurface);
        count_in_step(before.state, events.last(), frames, PlaybackAction::CloseSurface);
        match before.state {
            PlaybackState::Displaying(index) => following_is_a_position(index, frames.len()),
            PlaybackState::Waiting(index) => following_is_a_position(index, frames.len()),
            _ => {},
        }
    }
}

/// The playback of a project without frames ends at once. Whatever it is
/// told, it never asks for the display surface to be opened, nor for an
/// image to be read or drawn: all it ever asks for is the report that there
/// is nothing to play, once, when it is started.
pub proof fn empty_project_opens_nothing(frames: Seq<FrameView>, events: Seq<PlaybackEvent>)
    requires
        frames.len() == 0,
    ensures
        events.len() > 0 && events[0] == PlaybackEvent::Started ==> run(frames, events)
            == (Trace {
            state: PlaybackState::Empty,
            actions: seq![PlaybackAction::ReportNothingToPlay],
        }),
        run(frames, events).state is Idle || run(frames, events).state is Empty,
        forall|at: int|
            0 <= at < run(frames, events).actions.len() ==> #[trigger] run(
                frames,
                events,
            ).actions[at] == PlaybackAction::ReportNothingToPlay,
    decreases events.len(),
{
    if events.len() > 0 {
        empty_project_opens_nothing(frames, events.drop_last());
    }
}

/// A cancellation during a wait ends the playback without going on to
/// another frame: the one action it brings is the closing of the display
/// surface, and whatever is reported afterwards asks for nothing more.
pub proof fn cancellation_ends_playback(
    frames: Seq<FrameView>,
    before: Seq<PlaybackEvent>,
    after: Seq<PlaybackEvent>,
)
    requires
        run(frames, before).state is Waiting,
    ensures
        run(frames, before.push(PlaybackEvent::Cancelled) + after) == (Trace {
            state: PlaybackState::Stopped,
            actions: run(frames, before).actions.push(PlaybackAction::CloseSurface),
        }),
    decreases after.len(),
{
    let cancelled = before.push(PlaybackEvent::Cancelled);
    if after.len() == 0 {
        assert(cancelled.drop_last() =~= before);
        assert(run(frames, before).actions + seq![PlaybackAction::CloseSurface] =~= run(
            frames,
            before,
        ).actions.push(PlaybackAction::CloseSurface));
    } else {
        cancellation_ends_playback(frames, before, after.drop_last());
        assert((cancelled + after).drop_last() =~= cancelled + after.drop_last());
    }
}

/// Nothing but a cancellation ends a playback that is under way: after any
/// other event, a failed load among them, a frame is being displayed or
/// waited on, and the display surface has not been asked to close.
pub proof fn only_cancellation_stops(
    frames: Seq<FrameView>,
    state: PlaybackState,
    event: PlaybackEvent,
)
    requires
        state is Displaying || state is Waiting,
        !(state is Waiting && event is Cancelled),
    ensures
        next_state(state, event, frames) is Displaying || next_state(state, event, frames)
            is Waiting,
        forall|at: int|
            0 <= at < next_actions(state, event, frames).len() ==> #[trigger] next_actions(
                state,
                event,
                frames,
            )[at] != PlaybackAction::CloseSurface,
{
}

/// The events of a playback that nobody disturbs: it is started, and then
/// `rounds` times an image is read and its frame's time passes.
pub open spec fn undisturbed(rounds: nat) -> Seq<PlaybackEvent>
    decreases rounds,
{
    if rounds == 0 {
        seq![PlaybackEvent::Started]
    } else {
        undisturbed((rounds - 1) as nat).push(PlaybackEvent::ImageLoaded).push(
            PlaybackEvent::TimedOut,
        )
    }
}

/// An undisturbed playback shows the frames in their order and begins again
/// with the first after the last, for ever: after `rounds` frames it is
/// about to display the frame at `rounds` modulo the number of frames, and
/// in each round it drew one frame, waited for exactly that frame's
/// duration, and asked for the next image.
pub proof fn frames_play_in_order(frames: Seq<FrameView>, rounds: nat)
    requires
        0 < frames.len() <= usize::MAX,
    ensures
        run(frames, undisturbed(rounds)).state == PlaybackState::Displaying(
            (rounds % frames.len()) as usize,
        ),
        rounds > 0 ==> run(frames, undisturbed(rounds)).actions == run(
            frames,
            undisturbed((rounds - 1) as nat),
        ).actions + seq![
            PlaybackAction::Render { index: ((rounds - 1) % (frames.len() as int)) as usize },
            PlaybackAction::Wait {
                timeout_ms: frames[(rounds - 1) % (frames.len() as int)].duration,
            },
            PlaybackAction::LoadImage { index: (rounds % frames.len()) as usize },
        ],
    decreases rounds,
{
    let count = frames.len() as int;
    if rounds == 0 {
        assert(run(frames, undisturbed(0).drop_last()).state == PlaybackState::Idle);
        lemma_small_mod(0, frames.len());
    } else {
        let earlier = undisturbed((rounds - 1) as nat);
        frames_play_in_order(frames, (rounds - 1) as nat);
        let shown = ((rounds - 1) % count) as usize;
        lemma_mod_bound(rounds - 1, count);
        lemma_add_mod_noop_right(1, rounds - 1, count);
        let loaded = earlier.push(PlaybackEvent::ImageLoaded);
        assert(loaded.drop_last() =~= earlier);
        assert(run(frames, loaded).state == PlaybackState::Waiting(shown));
        let timed_out = loaded.push(PlaybackEvent::TimedOut);
        assert(timed_out.drop_last() =~= loaded);
    }
}

} // verus!
