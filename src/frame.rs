//! The per-frame protocol: wait on a frame slot's fence, acquire an image,
//! record and submit, present; and the rule that a swapchain is retired only
//! when no in-flight frame still uses its images.
//!
//! The host performs the waits, the acquire and the present, and hands their
//! outcomes to these methods, which decide what happens next.

use vstd::prelude::*;

verus! {

/// One of the frames that may be in flight at once. `in_flight` holds while
/// its submission fence has not been seen signalled; `generation` is the
/// swapchain generation of the image its last submission rendered to.
#[derive(Clone, Copy, Debug, PartialEq, Eq, Structural)]
pub struct FrameSlot {
    pub in_flight: bool,
    pub generation: u64,
}

/// A presentable image: its index in the swapchain and the generation of the
/// swapchain it belongs to, so that a handle outliving a recreation is detectable.
#[derive(Clone, Copy, Debug, PartialEq, Eq, Structural)]
pub struct ImageHandle {
    pub index: u32,
    pub generation: u64,
}

/// A frame between `begin_frame` and `end_frame`: its slot and its image.
#[derive(Clone, Copy, Debug, PartialEq, Eq, Structural)]
pub struct FrameToken {
    pub slot: usize,
    pub image: ImageHandle,
}

/// What the image acquire reported.
#[derive(Clone, Copy, Debug, PartialEq, Eq, Structural)]
pub enum AcquireResult {
    Acquired { image_index: u32, suboptimal: bool },
    OutOfDate,
    Failed,
}

/// What the present request reported.
#[derive(Clone, Copy, Debug, PartialEq, Eq, Structural)]
pub enum PresentResult {
    Presented { suboptimal: bool },
    OutOfDate,
    Failed,
}

#[derive(Clone, Copy, Debug, PartialEq, Eq, Structural)]
pub enum BeginError {
    /// The swapchain no longer matches the surface: recreate it, then begin again.
    NeedsRecreate,
    /// The driver failed the acquire, or handed out an index the swapchain
    /// does not have.
    AcquireFailed,
}

/// How a successful present leaves the swapchain.
#[derive(Clone, Copy, Debug, PartialEq, Eq, Structural)]
pub enum PresentOutcome {
    Presented,
    /// The frame was shown, but the swapchain must be recreated before the next one.
    RecreateNext,
}

#[derive(Clone, Copy, Debug, PartialEq, Eq, Structural)]
pub enum PresentError {
    PresentFailed,
}

#[derive(Clone, Copy, Debug, PartialEq, Eq, Structural)]
pub enum RetireError {
    /// A frame has begun and not ended.
    FrameOpen,
    /// Some slot's fence has not been seen signalled.
    FramesInFlight,
}

/// The abstract state of a `FrameSync`.
pub struct FrameSyncView {
    pub slots: Seq<FrameSlot>,
    pub current: usize,
    pub generation: u64,
    pub image_count: u32,
    pub open: Option<FrameToken>,
}

/// What holds between calls: a slot in flight renders to the live swapchain,
/// and an open frame holds the current slot with a valid image of it.
pub open spec fn inv(v: FrameSyncView) -> bool {
    &&& v.slots.len() > 0
    &&& v.current < v.slots.len()
    &&& forall|i: int|
        0 <= i < v.slots.len() && (#[trigger] v.slots[i]).in_flight ==> v.slots[i].generation
            == v.generation
    &&& v.open matches Some(t) ==> {
        &&& t.slot == v.current
        &&& t.image.generation == v.generation
        &&& t.image.index < v.image_count
        &&& !v.slots[v.current as int].in_flight
    }
}

pub open spec fn initial_state(frames_in_flight: nat, image_count: u32) -> FrameSyncView {
    FrameSyncView {
        slots: Seq::new(frames_in_flight, |i: int| FrameSlot { in_flight: false, generation: 0 }),
        current: 0,
        generation: 0,
        image_count,
        open: None,
    }
}

/// The current slot's fence has been waited on.
pub open spec fn waited(s: FrameSyncView) -> FrameSyncView {
    FrameSyncView {
        slots: s.slots.update(
            s.current as int,
            FrameSlot { in_flight: false, generation: s.slots[s.current as int].generation },
        ),
        ..s
    }
}

/// `begin_frame`: the new state and the result.
pub open spec fn begin_step(s: FrameSyncView, a: AcquireResult) -> (FrameSyncView, Result<
    FrameToken,
    BeginError,
>) {
    let w = waited(s);
    match a {
        AcquireResult::Acquired { image_index, suboptimal } => {
            if suboptimal {
                (w, Err(BeginError::NeedsRecreate))
            } else if image_index >= s.image_count {
                (w, Err(BeginError::AcquireFailed))
            } else {
                let t = FrameToken {
                    slot: s.current,
                    image: ImageHandle { index: image_index, generation: s.generation },
                };
                (FrameSyncView { open: Some(t), ..w }, Ok(t))
            }
        },
        AcquireResult::OutOfDate => (w, Err(BeginError::NeedsRecreate)),
        AcquireResult::Failed => (w, Err(BeginError::AcquireFailed)),
    }
}

/// `end_frame`: the open frame's slot is in flight and the next slot comes up,
/// whatever the present reported.
pub open spec fn end_step(s: FrameSyncView, p: PresentResult) -> (FrameSyncView, Result<
    PresentOutcome,
    PresentError,
>) {
    let t = s.open.unwrap();
    let next = FrameSyncView {
        slots: s.slots.update(
            t.slot as int,
            FrameSlot { in_flight: true, generation: t.image.generation },
        ),
        current: ((s.current + 1) % (s.slots.len() as int)) as usize,
        open: None,
        ..s
    };
    let r = match p {
        PresentResult::Presented { suboptimal } => if suboptimal {
            Ok(PresentOutcome::RecreateNext)
        } else {
            Ok(PresentOutcome::Presented)
        },
        PresentResult::OutOfDate => Ok(PresentOutcome::RecreateNext),
        PresentResult::Failed => Err(PresentError::PresentFailed),
    };
    (next, r)
}

pub open spec fn any_in_flight(s: FrameSyncView) -> bool {
    exists|i: int| 0 <= i < s.slots.len() && (#[trigger] s.slots[i]).in_flight
}

pub open spec fn next_generation(g: u64) -> u64 {
    if g == u64::MAX {
        0
    } else {
        (g + 1) as u64
    }
}

/// `retire_swapchain`: allowed only with no frame open and every fence seen
/// signalled; the retired generation is returned and a new one begins.
pub open spec fn retire_step(s: FrameSyncView, image_count: u32) -> (FrameSyncView, Result<
    u64,
    RetireError,
>) {
    if s.open is Some {
        (s, Err(RetireError::FrameOpen))
    } else if any_in_flight(s) {
        (s, Err(RetireError::FramesInFlight))
    } else {
        (
            FrameSyncView { generation: next_generation(s.generation), image_count, ..s },
            Ok(s.generation),
        )
    }
}

/// Owns the frame slots and drives the acquire / submit / present sequence.
pub struct FrameSync {
    slots: Vec<FrameSlot>,
    current: usize,
    generation: u64,
    image_count: u32,
    open: Option<FrameToken>,
}

impl View for FrameSync {
    type V = FrameSyncView;

    closed spec fn view(&self) -> FrameSyncView {
        FrameSyncView {
            slots: self.slots@,
            current: self.current,
            generation: self.generation,
            image_count: self.image_count,
            open: self.open,
        }
    }
}

impl FrameSync {
    /// `frames_in_flight` slots, none in flight, for a first swapchain of
    /// `image_count` images (generation 0).
    pub fn new(frames_in_flight: usize, image_count: u32) -> (r: FrameSync)
        requires
            frames_in_flight > 0,
        ensures
            r@ == initial_state(frames_in_flight as nat, image_count),
            inv(r@),
    {
        let mut slots: Vec<FrameSlot> = Vec::new();
        let mut i: usize = 0;
        while i < frames_in_flight
            invariant
                i <= frames_in_flight,
                slots@.len() == i,
                forall|j: int|
                    0 <= j < i ==> slots@[j] == (FrameSlot { in_flight: false, generation: 0 }),
            decreases frames_in_flight - i,
        {
            slots.push(FrameSlot { in_flight: false, generation: 0 });
            i = i + 1;
        }
        let r = FrameSync { slots, current: 0, generation: 0, image_count, open: None };
        assert(r@.slots =~= initial_state(frames_in_flight as nat, image_count).slots);
        r
    }

    pub fn frames_in_flight(&self) -> (r: usize)
        ensures
            r == self@.slots.len(),
    {
        self.slots.len()
    }

    /// The slot whose fence the host waits on before the next acquire.
    pub fn current_slot(&self) -> (r: usize)
        ensures
            r == self@.current,
    {
        self.current
    }

    pub fn generation(&self) -> (r: u64)
        ensures
            r == self@.generation,
    {
        self.generation
    }

    pub fn image_count(&self) -> (r: u32)
        ensures
            r == self@.image_count,
    {
        self.image_count
    }

    pub fn open_frame(&self) -> (r: Option<FrameToken>)
        ensures
            r == self@.open,
    {
        self.open
    }

    pub fn slot(&self, i: usize) -> (r: FrameSlot)
        requires
            i < self@.slots.len(),
        ensures
            r == self@.slots[i as int],
    {
        self.slots[i]
    }

    /// Whether `image` belongs to the live swapchain.
    pub fn is_current(&self, image: ImageHandle) -> (r: bool)
        ensures
            r == (image.generation == self@.generation),
    {
        image.generation == self.generation
    }

    /// Starts a frame once the host has waited on the current slot's fence and
    /// asked for the next image. An out-of-date or suboptimal swapchain drops
    /// the frame and asks for recreation.
    pub fn begin_frame(&mut self, acquired: AcquireResult) -> (r: Result<FrameToken, BeginError>)
        requires
            inv(old(self)@),
            old(self)@.open is None,
        ensures
            final(self)@ == begin_step(old(self)@, acquired).0,
            r == begin_step(old(self)@, acquired).1,
            inv(final(self)@),
    {
        let c = self.current;
        let g = self.slots[c].generation;
        self.slots.set(c, FrameSlot { in_flight: false, generation: g });
        match acquired {
            AcquireResult::Acquired { image_index, suboptimal } => {
                if suboptimal {
                    Err(BeginError::NeedsRecreate)
                } else if image_index >= self.image_count {
                    Err(BeginError::AcquireFailed)
                } else {
                    let t = FrameToken {
                        slot: c,
                        image: ImageHandle { index: image_index, generation: self.generation },
                    };
                    self.open = Some(t);
                    Ok(t)
                }
            },
            AcquireResult::OutOfDate => Err(BeginError::NeedsRecreate),
            AcquireResult::Failed => Err(BeginError::AcquireFailed),
        }
    }

    /// Ends the open frame after its work was submitted and its present
    /// requested: the slot is now in flight and the next slot comes up.
    pub fn end_frame(&mut self, token: FrameToken, presented: PresentResult) -> (r: Result<
        PresentOutcome,
        PresentError,
    >)
        requires
            inv(old(self)@),
            old(self)@.open == Some(token),
        ensures
            final(self)@ == end_step(old(self)@, presented).0,
            r == end_step(old(self)@, presented).1,
            inv(final(self)@),
    {
        self.slots.set(token.slot, FrameSlot { in_flight: true, generation: token.image.generation });
        let n = self.slots.len();
        self.current = (self.current + 1) % n;
        self.open = None;
        match presented {
            PresentResult::Presented { suboptimal } => {
                if suboptimal {
                    Ok(PresentOutcome::RecreateNext)
                } else {
                    Ok(PresentOutcome::Presented)
                }
            },
            PresentResult::OutOfDate => Ok(PresentOutcome::RecreateNext),
            PresentResult::Failed => Err(PresentError::PresentFailed),
        }
    }

    /// Records that the host saw slot `i`'s fence signalled.
    pub fn fence_signaled(&mut self, i: usize)
        requires
            inv(old(self)@),
            i < old(self)@.slots.len(),
            old(self)@.open matches Some(t) ==> t.slot != i,
        ensures
            final(self)@ == (FrameSyncView {
                slots: old(self)@.slots.update(
                    i as int,
                    FrameSlot { in_flight: false, generation: old(self)@.slots[i as int].generation },
                ),
                ..old(self)@
            }),
            inv(final(self)@),
    {
        let g = self.slots[i].generation;
        self.slots.set(i, FrameSlot { in_flight: false, generation: g });
    }

    /// The slots whose fences the host must wait on before it may retire the
    /// swapchain or release the device, in increasing order.
    pub fn in_flight_slots(&self) -> (r: Vec<usize>)
        ensures
            forall|k: int| 0 <= k < r@.len() ==> r@[k] < self@.slots.len() && self@.slots[r@[k] as int].in_flight,
            forall|k: int, l: int| 0 <= k < l < r@.len() ==> r@[k] < r@[l],
            forall|i: int|
                0 <= i < self@.slots.len() && (#[trigger] self@.slots[i]).in_flight ==> r@.contains(i as usize),
    {
        let mut r: Vec<usize> = Vec::new();
        let mut i: usize = 0;
        while i < self.slots.len()
            invariant
                i <= self@.slots.len(),
                forall|k: int| 0 <= k < r@.len() ==> r@[k] < i && self@.slots[r@[k] as int].in_flight,
                forall|k: int, l: int| 0 <= k < l < r@.len() ==> r@[k] < r@[l],
                forall|j: int|
                    0 <= j < i && (#[trigger] self@.slots[j]).in_flight ==> r@.contains(j as usize),
            decreases self@.slots.len() - i,
        {
            let ghost before = r@;
            if self.slots[i].in_flight {
                r.push(i);
                assert(r@[r@.len() - 1] == i);
                assert forall|j: int|
                    0 <= j < i && (#[trigger] self@.slots[j]).in_flight implies r@.contains(
                    j as usize,
                ) by {
                    let k = choose|k: int| 0 <= k < before.len() && before[k] == j as usize;
                    assert(r@[k] == j as usize);
                }
            }
            i = i + 1;
        }
        r
    }

    /// Whether any slot's fence is still unsignalled.
    pub fn has_frames_in_flight(&self) -> (r: bool)
        ensures
            r == any_in_flight(self@),
    {
        let mut i: usize = 0;
        while i < self.slots.len()
            invariant
                i <= self@.slots.len(),
                forall|j: int| 0 <= j < i ==> !(#[trigger] self@.slots[j]).in_flight,
            decreases self@.slots.len() - i,
        {
            if self.slots[i].in_flight {
                assert(self@.slots[i as int].in_flight);
                return true;
            }
            i = i + 1;
        }
        false
    }

    /// Retires the live swapchain so that the host may destroy it and install
    /// one of `image_count` images. Refused while a frame is open or a fence is
    /// unsignalled; on success returns the retired generation.
    pub fn retire_swapchain(&mut self, image_count: u32) -> (r: Result<u64, RetireError>)
        requires
            inv(old(self)@),
        ensures
            final(self)@ == retire_step(old(self)@, image_count).0,
            r == retire_step(old(self)@, image_count).1,
            inv(final(self)@),
    {
        if self.open.is_some() {
            return Err(RetireError::FrameOpen);
        }
        if self.has_frames_in_flight() {
            return Err(RetireError::FramesInFlight);
        }
        let old_generation = self.generation;
        self.generation = if self.generation == u64::MAX {
            0
        } else {
            self.generation + 1
        };
        self.image_count = image_count;
        Ok(old_generation)
    }
}

/// One `begin_frame`, followed by `end_frame` when the frame began.
pub open spec fn frame_pair(s: FrameSyncView, e: (AcquireResult, PresentResult)) -> FrameSyncView {
    let b = begin_step(s, e.0);
    if b.1 is Ok {
        end_step(b.0, e.1).0
    } else {
        b.0
    }
}

/// The state after a sequence of begin / end pairs with the given outcomes.
pub open spec fn run_frames(s: FrameSyncView, evs: Seq<(AcquireResult, PresentResult)>) -> FrameSyncView
    decreases evs.len(),
{
    if evs.len() == 0 {
        s
    } else {
        frame_pair(run_frames(s, evs.drop_last()), evs.last())
    }
}

/// Whether the fence `begin_frame` waits on next is still unsignalled.
pub open spec fn next_wait_pending(s: FrameSyncView) -> bool {
    s.slots[s.current as int].in_flight
}

spec fn fresh_shape(s: FrameSyncView, n: nat, j: int) -> bool {
    &&& s.slots.len() == n
    &&& s.current <= j
    &&& s.open is None
    &&& forall|i: int| 0 <= i < n && (#[trigger] s.slots[i]).in_flight ==> i < s.current
}

proof fn lemma_fresh_run(n: nat, c: u32, evs: Seq<(AcquireResult, PresentResult)>, j: int)
    requires
        0 < n <= usize::MAX,
        0 <= j < n,
        j <= evs.len(),
    ensures
        fresh_shape(run_frames(initial_state(n, c), evs.take(j)), n, j),
    decreases j,
{
    let s0 = initial_state(n, c);
    if j == 0 {
        assert(evs.take(0).len() == 0);
    } else {
        lemma_fresh_run(n, c, evs, j - 1);
        assert(evs.take(j).drop_last() =~= evs.take(j - 1));
        let prev = run_frames(s0, evs.take(j - 1));
        let e = evs.take(j).last();
        assert(run_frames(s0, evs.take(j)) == frame_pair(prev, e));
        let b = begin_step(prev, e.0);
        if b.1 is Ok {
            let next = end_step(b.0, e.1).0;
            assert(b.0.current == prev.current && b.0.slots.len() == n);
            vstd::arithmetic::div_mod::lemma_small_mod((prev.current + 1) as nat, n);
            assert(next.current == prev.current + 1);
            assert forall|i: int| 0 <= i < n && (#[trigger] next.slots[i]).in_flight implies i
                < next.current by {
                if i != prev.current {
                    assert(b.0.slots[i] == prev.slots[i]);
                }
            }
        } else {
            let w = b.0;
            assert forall|i: int| 0 <= i < n && (#[trigger] w.slots[i]).in_flight implies i
                < w.current by {
                assert(w.slots[i] == prev.slots[i] || i == prev.current);
            }
        }
    }
}

/// Starting from fresh slots, over any run of at most `frames_in_flight`
/// begin / end pairs, whatever the acquires and presents report, no
/// `begin_frame` finds its slot's fence unsignalled: none of them waits on the GPU.
pub proof fn lemma_first_frames_never_wait(
    frames_in_flight: nat,
    image_count: u32,
    evs: Seq<(AcquireResult, PresentResult)>,
)
    requires
        0 < frames_in_flight <= usize::MAX,
        evs.len() <= frames_in_flight,
    ensures
        forall|j: int|
            0 <= j < evs.len() ==> !next_wait_pending(
                #[trigger] run_frames(initial_state(frames_in_flight, image_count), evs.take(j)),
            ),
{
    assert forall|j: int|
        0 <= j < evs.len() implies !next_wait_pending(
        #[trigger] run_frames(initial_state(frames_in_flight, image_count), evs.take(j)),
    ) by {
        lemma_fresh_run(frames_in_flight, image_count, evs, j);
    }
}

/// Every acquire in `evs` hands out an image the swapchain has, with no
/// complaint about the swapchain: every frame of the run begins.
pub open spec fn acquires_succeed(evs: Seq<(AcquireResult, PresentResult)>, image_count: u32) -> bool {
    forall|k: int|
        0 <= k < evs.len() ==> match (#[trigger] evs[k]).0 {
            AcquireResult::Acquired { image_index, suboptimal } => !suboptimal && image_index
                < image_count,
            _ => false,
        }
}

/// Frames take the slots in turn: after `j` frames that each began, the next
/// frame uses slot `(c + j) mod n`, where `c` was the current slot and `n` the
/// number of slots. So `n` consecutive frames use `n` different slots, and the
/// fence a frame waits on is the one armed by the frame `n` before it.
pub proof fn lemma_slots_round_robin(
    s: FrameSyncView,
    evs: Seq<(AcquireResult, PresentResult)>,
    j: int,
)
    requires
        inv(s),
        s.open is None,
        s.slots.len() <= usize::MAX,
        acquires_succeed(evs, s.image_count),
        0 <= j <= evs.len(),
    ensures
        run_frames(s, evs.take(j)).current == (s.current + j) % (s.slots.len() as int),
        run_frames(s, evs.take(j)).slots.len() == s.slots.len(),
        run_frames(s, evs.take(j)).image_count == s.image_count,
        run_frames(s, evs.take(j)).open is None,
    decreases j,
{
    let n = s.slots.len() as int;
    if j == 0 {
        assert(evs.take(0).len() == 0);
        vstd::arithmetic::div_mod::lemma_small_mod(s.current as nat, n as nat);
    } else {
        lemma_slots_round_robin(s, evs, j - 1);
        assert(evs.take(j).drop_last() =~= evs.take(j - 1));
        let prev = run_frames(s, evs.take(j - 1));
        let e = evs.take(j).last();
        assert(e == evs[j - 1]);
        assert(run_frames(s, evs.take(j)) == frame_pair(prev, e));
        let b = begin_step(prev, e.0);
        assert(b.1 is Ok);
        let next = end_step(b.0, e.1).0;
        assert(b.0.current == prev.current && b.0.slots.len() == n);
        vstd::arithmetic::div_mod::lemma_add_mod_noop_right(1, s.current + j - 1, n);
        assert(next.current == (s.current + j) % n);
    }
}

/// A generation is handed out for destruction only when no slot with an
/// unsignalled fence renders to its images; and the frames that follow render
/// to a different generation.
pub proof fn lemma_retired_swapchain_unreferenced(s: FrameSyncView, image_count: u32)
    requires
        inv(s),
    ensures
        retire_step(s, image_count).1 matches Ok(g) ==> {
            &&& forall|i: int|
                0 <= i < s.slots.len() ==> !((#[trigger] s.slots[i]).in_flight
                    && s.slots[i].generation == g)
            &&& forall|i: int|
                0 <= i < retire_step(s, image_count).0.slots.len() ==> !(#[trigger] retire_step(
                    s,
                    image_count,
                ).0.slots[i]).in_flight
            &&& retire_step(s, image_count).0.generation != g
        },
{
}

} // verus!
