//! The camera controller's decisions: which mode a frame runs in, and which
//! pointer motions it applies.

use vstd::prelude::*;

verus! {

/// The two modes of the camera.
#[derive(Clone, Copy, Debug, PartialEq, Eq, Structural)]
pub enum CameraMode {
    /// The camera swings along its orbit as time passes.
    AutoOrbit,
    /// The pointer turns the camera in place.
    FreeLook,
}

impl CameraMode {
    /// The mode that goes with a capture flag.
    pub open spec fn of(captured: bool) -> CameraMode {
        if captured {
            CameraMode::FreeLook
        } else {
            CameraMode::AutoOrbit
        }
    }

    /// The mode of a frame: free look while the pointer is captured, the
    /// automatic orbit otherwise.
    pub fn from_capture(captured: bool) -> (mode: CameraMode)
        ensures
            mode == CameraMode::of(captured),
    {
        if captured {
            CameraMode::FreeLook
        } else {
            CameraMode::AutoOrbit
        }
    }
}

/// The capture flag after a frame's input signals.
pub open spec fn captured_after(captured: bool, capture_signal: bool, release_signal: bool) -> bool {
    if release_signal {
        false
    } else if capture_signal {
        true
    } else {
        captured
    }
}

/// Updates the capture flag from a frame's input: a capture signal sets it, a
/// release signal clears it, and where both arrive the release is the later
/// word. Without a signal the flag stays.
pub fn capture_after(captured: bool, capture_signal: bool, release_signal: bool) -> (next: bool)
    ensures
        next == captured_after(captured, capture_signal, release_signal),
{
    if release_signal {
        false
    } else if capture_signal {
        true
    } else {
        captured
    }
}

/// Pointer motions that have arrived and that no frame has taken yet, oldest
/// first.
pub struct PointerQueue<T> {
    pending: Vec<T>,
}

impl<T> View for PointerQueue<T> {
    type V = Seq<T>;

    closed spec fn view(&self) -> Seq<T> {
        self.pending@
    }
}

impl<T> PointerQueue<T> {
    /// A queue with nothing pending.
    pub fn new() -> (queue: Self)
        ensures
            queue@ == Seq::<T>::empty(),
    {
        PointerQueue { pending: Vec::new() }
    }

    /// Adds a motion behind those already pending.
    pub fn push(&mut self, motion: T)
        ensures
            final(self)@ == old(self)@.push(motion),
    {
        self.pending.push(motion);
    }

    /// How many motions are pending.
    pub fn len(&self) -> (n: usize)
        ensures
            n == self@.len(),
    {
        self.pending.len()
    }

    /// Whether nothing is pending.
    pub fn is_empty(&self) -> (empty: bool)
        ensures
            empty == (self@.len() == 0),
    {
        self.pending.len() == 0
    }

    /// Takes every pending motion, oldest first, and leaves the queue empty.
    pub fn drain(&mut self) -> (taken: Vec<T>)
        ensures
            taken@ == old(self)@,
            final(self)@ == Seq::<T>::empty(),
    {
        let mut taken: Vec<T> = Vec::new();
        std::mem::swap(&mut self.pending, &mut taken);
        taken
    }

    /// Drops every pending motion and says how many there were.
    pub fn discard(&mut self) -> (dropped: usize)
        ensures
            dropped == old(self)@.len(),
            final(self)@ == Seq::<T>::empty(),
    {
        let dropped = self.pending.len();
        self.pending.clear();
        dropped
    }
}

/// What the camera does in one frame.
#[derive(Debug)]
pub enum CameraUpdate<T> {
    /// The settings are not loaded: the camera is left as it is.
    Skip,
    /// The camera is placed on its orbit for the elapsed time and turned to
    /// its target. No pointer motion is applied.
    Orbit,
    /// The camera stays in place and turns by the sum of these motions, which
    /// are all that arrived since the frame before, oldest first.
    Look(Vec<T>),
}

/// A frame's camera update, with its motions as a sequence.
pub enum FramePlan<T> {
    /// The camera is left as it is.
    Skip,
    /// The camera follows its orbit; no motion is applied.
    Orbit,
    /// The camera turns by these motions, oldest first.
    Look(Seq<T>),
}

impl<T> View for CameraUpdate<T> {
    type V = FramePlan<T>;

    open spec fn view(&self) -> FramePlan<T> {
        match self {
            CameraUpdate::Skip => FramePlan::Skip,
            CameraUpdate::Orbit => FramePlan::Orbit,
            CameraUpdate::Look(motions) => FramePlan::Look(motions@),
        }
    }
}

/// The update of a frame, from whether the settings are loaded, the capture
/// flag and the motions pending when the frame starts.
pub open spec fn plan_of<T>(settings_loaded: bool, captured: bool, pending: Seq<T>) -> FramePlan<T> {
    if !settings_loaded {
        FramePlan::Skip
    } else if captured {
        FramePlan::Look(pending)
    } else {
        FramePlan::Orbit
    }
}

/// The motions still pending when a frame ends: all of them where the frame
/// was skipped, none otherwise.
pub open spec fn pending_after<T>(settings_loaded: bool, pending: Seq<T>) -> Seq<T> {
    if settings_loaded {
        Seq::<T>::empty()
    } else {
        pending
    }
}

/// Decides one frame of the camera. Without settings nothing happens and the
/// queue is untouched. On the automatic orbit the pending motions are dropped
/// unapplied. In free look they are handed out, in order, to turn the camera.
/// Either way a frame that runs leaves the queue empty.
pub fn plan_frame<T>(settings_loaded: bool, captured: bool, queue: &mut PointerQueue<T>) -> (update:
    CameraUpdate<T>)
    ensures
        update@ == plan_of(settings_loaded, captured, old(queue)@),
        final(queue)@ == pending_after(settings_loaded, old(queue)@),
{
    if !settings_loaded {
        return CameraUpdate::Skip;
    }
    match CameraMode::from_capture(captured) {
        CameraMode::AutoOrbit => {
            queue.discard();
            CameraUpdate::Orbit
        },
        CameraMode::FreeLook => CameraUpdate::Look(queue.drain()),
    }
}

/// Motions pending in a frame on the automatic orbit are never applied. That
/// frame hands none out and leaves none pending, so the frame after it,
/// whatever its flags, plans what it would plan had only the motions that
/// arrived in between been pending.
pub proof fn lemma_orbit_discards_stale<T>(
    stale: Seq<T>,
    fresh: Seq<T>,
    settings_loaded: bool,
    captured: bool,
)
    ensures
        plan_of(true, false, stale) == FramePlan::<T>::Orbit,
        pending_after(true, stale) == Seq::<T>::empty(),
        plan_of(settings_loaded, captured, pending_after(true, stale) + fresh) == plan_of(
            settings_loaded,
            captured,
            fresh,
        ),
{
    assert(Seq::<T>::empty() + fresh =~= fresh);
}

} // verus!
