//! The frame loop of the renderer, as the host drives it.
//!
//! The host performs each [`Action`] on the graphics device and reports what
//! came of it as an [`Event`]; [`Vulkan::step`] decides what follows.

use crate::clock::precise_time_ns;
use vstd::prelude::*;

verus! {

/// Something that draws one frame at a time.
pub trait Renderer {
    fn render(&mut self);
}

/// Milliseconds the host waits for a presentable image.
pub const ACQUIRE_TIMEOUT_MS: u64 = 1;

/// The step of a frame that failed. Every one of them ends the loop.
#[derive(Clone, Copy, Debug, PartialEq, Eq, Structural)]
pub enum Fault {
    /// No image came within the wait, or the swapchain reported an error.
    Acquire,
    /// No command buffer was recorded for the acquired image.
    CommandBuffer,
    /// The uniform buffer could not be locked for writing.
    Uniform,
    /// The queue did not take the command buffer.
    Submit,
    /// The image could not be queued for presentation.
    Present,
}

/// Where the loop stands. A frame runs from `Idle` through `Acquiring`,
/// `Recording`, `Submitting`, `Presenting` and `Polling` back to `Idle`.
#[derive(Clone, Copy, Debug, PartialEq, Eq, Structural)]
pub enum Phase {
    /// Between two frames.
    Idle,
    /// Waiting for a presentable image.
    Acquiring,
    /// The image is acquired; the uniform transform is being written.
    Recording(usize),
    /// The image's command buffer is on its way to the queue.
    Submitting(usize),
    /// The image is being queued for presentation.
    Presenting(usize),
    /// The window's pending events are being read.
    Polling,
    /// The window was closed: the loop has ended in the ordinary way.
    Closed,
    /// A step failed: the loop has ended on a fault.
    Failed(Fault),
}

/// An event of the window, as far as the loop tells events apart.
#[derive(Clone, Copy, Debug, PartialEq, Eq, Structural)]
pub enum WindowEvent {
    /// The user asked to close the window.
    Closed,
    /// Anything else.
    Other,
}

/// Whether one of `events` asks to close the window.
pub open spec fn close_requested(events: Seq<WindowEvent>) -> bool {
    exists|i: int| 0 <= i < events.len() && #[trigger] events[i] == WindowEvent::Closed
}

/// What the host reports back.
#[derive(Clone, Copy, Debug, PartialEq, Eq, Structural)]
pub enum Event {
    /// A new frame is due.
    Frame,
    /// The swapchain handed out the image with this number.
    Acquired(usize),
    /// The world matrix stands in the uniform buffer.
    Updated,
    /// The queue took the command buffer.
    Submitted,
    /// The image is queued for presentation.
    Presented,
    /// The window's events were read; `close` tells whether one of them
    /// asked to close the window. All others are dropped.
    Polled { close: bool },
    /// The action that was asked for failed.
    Failed,
}

impl Event {
    /// The report of one reading of the window's events.
    pub fn polled(events: &Vec<WindowEvent>) -> (event: Event)
        ensures
            event == (Event::Polled { close: close_requested(events@) }),
    {
        let n = events.len();
        let mut i: usize = 0;
        while i < n
            invariant
                n == events@.len(),
                i <= n,
                forall|k: int| 0 <= k < i ==> events@[k] != WindowEvent::Closed,
            decreases n - i,
        {
            match events[i] {
                WindowEvent::Closed => {
                    return Event::Polled { close: true };
                },
                WindowEvent::Other => {},
            }
            i = i + 1;
        }
        Event::Polled { close: false }
    }
}

/// What the host is to do next.
#[derive(Clone, Copy, Debug, PartialEq, Eq, Structural)]
pub enum Action {
    /// Acquire a presentable image, waiting no longer than this.
    Acquire { timeout_ms: u64 },
    /// Write the world matrix for this clock reading into the uniform buffer.
    Update { time_ns: u64 },
    /// Submit the command buffer recorded for this image.
    Submit { image: usize },
    /// Present this image.
    Present { image: usize },
    /// Read the window's pending events.
    Poll,
    /// Nothing: the frame is over, or the event came out of turn.
    Rest,
    /// Leave the loop.
    Stop,
}

/// The state of the loop as the contracts see it.
pub struct VulkanView {
    pub phase: Phase,
    /// Presentable images of the swapchain, each with its frame buffer.
    pub frame_buffers: usize,
    /// Command buffers recorded so far: none, or one for each frame buffer.
    pub command_buffers: usize,
    /// The image of each submission that has not been retired, oldest first.
    pub submissions: Seq<usize>,
}

impl VulkanView {
    /// The image a frame under way is about, if one is.
    pub open spec fn image(self) -> Option<usize> {
        match self.phase {
            Phase::Recording(image) => Some(image),
            Phase::Submitting(image) => Some(image),
            Phase::Presenting(image) => Some(image),
            _ => None,
        }
    }

    /// Command buffers exist for all frame buffers or for none, and a frame
    /// under way is about an image that has one.
    pub open spec fn wf(self) -> bool {
        &&& self.command_buffers == 0 || self.command_buffers == self.frame_buffers
        &&& self.image() matches Some(image) ==> image < self.command_buffers
    }

    /// Whether the loop has ended.
    pub open spec fn ended(self) -> bool {
        self.phase is Closed || self.phase is Failed
    }

    pub open spec fn at(self, phase: Phase) -> VulkanView {
        VulkanView { phase, ..self }
    }

    /// The loop after `event`, and what the host is to do then. `now` is the
    /// clock reading at the time of the event.
    pub open spec fn next(self, event: Event, now: u64) -> (VulkanView, Action) {
        match (self.phase, event) {
            (Phase::Closed, _) => (self, Action::Stop),
            (Phase::Failed(_), _) => (self, Action::Stop),
            (Phase::Idle, Event::Frame) => (
                self.at(Phase::Acquiring),
                Action::Acquire { timeout_ms: ACQUIRE_TIMEOUT_MS },
            ),
            (Phase::Acquiring, Event::Acquired(image)) => if image < self.command_buffers {
                (self.at(Phase::Recording(image)), Action::Update { time_ns: now })
            } else {
                (self.at(Phase::Failed(Fault::CommandBuffer)), Action::Stop)
            },
            (Phase::Acquiring, Event::Failed) => (
                self.at(Phase::Failed(Fault::Acquire)),
                Action::Stop,
            ),
            (Phase::Recording(image), Event::Updated) => (
                self.at(Phase::Submitting(image)),
                Action::Submit { image },
            ),
            (Phase::Recording(_), Event::Failed) => (
                self.at(Phase::Failed(Fault::Uniform)),
                Action::Stop,
            ),
            (Phase::Submitting(image), Event::Submitted) => (
                VulkanView {
                    phase: Phase::Presenting(image),
                    submissions: self.submissions.push(image),
                    ..self
                },
                Action::Present { image },
            ),
            (Phase::Submitting(_), Event::Failed) => (
                self.at(Phase::Failed(Fault::Submit)),
                Action::Stop,
            ),
            (Phase::Presenting(_), Event::Presented) => (self.at(Phase::Polling), Action::Poll),
            (Phase::Presenting(_), Event::Failed) => (
                self.at(Phase::Failed(Fault::Present)),
                Action::Stop,
            ),
            (Phase::Polling, Event::Polled { close }) => if close {
                (self.at(Phase::Closed), Action::Stop)
            } else {
                (self.at(Phase::Idle), Action::Rest)
            },
            _ => (self, Action::Rest),
        }
    }

    /// The loop after a run of events, each with its clock reading.
    pub open spec fn run(self, events: Seq<(Event, u64)>) -> VulkanView
        decreases events.len(),
    {
        if events.len() == 0 {
            self
        } else {
            self.run(events.drop_last()).next(events.last().0, events.last().1).0
        }
    }

    /// What the host was told after the last event of a run.
    pub open spec fn last_action(self, events: Seq<(Event, u64)>) -> Action
        recommends
            events.len() > 0,
    {
        self.run(events.drop_last()).next(events.last().0, events.last().1).1
    }
}

/// What stays of the records of submissions after the device has reported
/// on them. `would_block[i]` tells whether giving up record `i` would still
/// wait for the device; such a record stays, and so does one without a
/// report. Those that stay keep their order.
pub open spec fn retained<T>(records: Seq<T>, would_block: Seq<bool>) -> Seq<T>
    decreases records.len(),
{
    if records.len() == 0 {
        Seq::empty()
    } else {
        let last = records.len() - 1;
        let front = retained(records.drop_last(), would_block);
        if last >= would_block.len() || would_block[last] {
            front.push(records[last])
        } else {
            front
        }
    }
}

/// Drops the records of the submissions that the device has finished with.
/// The host keeps what belongs to a submission in a list of its own, beside
/// the book of the loop, and retires both by the same reports.
pub fn retain_blocking<T>(records: &mut Vec<T>, would_block: &Vec<bool>)
    ensures
        final(records)@ == retained(old(records)@, would_block@),
{
    let ghost before = records@;
    let count = records.len();
    let mut rest: Vec<T> = Vec::new();
    while records.len() > 0
        invariant
            count == before.len(),
            records@.len() + rest@.len() == before.len(),
            records@ == before.take(records@.len() as int),
            forall|k: int| 0 <= k < rest@.len() ==> rest@[k] == before[before.len() - 1 - k],
        decreases records@.len(),
    {
        let record = records.pop().unwrap();
        rest.push(record);
    }
    let mut i: usize = 0;
    while i < count
        invariant
            count == before.len(),
            i + rest@.len() == before.len(),
            forall|k: int| 0 <= k < rest@.len() ==> rest@[k] == before[before.len() - 1 - k],
            records@ == retained(before.take(i as int), would_block@),
        decreases count - i,
    {
        let record = rest.pop().unwrap();
        proof {
            assert(before.take(i + 1).drop_last() == before.take(i as int));
        }
        if i >= would_block.len() || would_block[i] {
            records.push(record);
        }
        i = i + 1;
    }
    proof {
        assert(before.take(i as int) == before);
    }
}

/// The host's book on the frame loop: where it stands, how many command
/// buffers are recorded, and which submissions are still in flight.
pub struct Vulkan {
    phase: Phase,
    frame_buffers: usize,
    command_buffers: usize,
    submissions: Vec<usize>,
}

impl View for Vulkan {
    type V = VulkanView;

    closed spec fn view(&self) -> VulkanView {
        VulkanView {
            phase: self.phase,
            frame_buffers: self.frame_buffers,
            command_buffers: self.command_buffers,
            submissions: self.submissions@,
        }
    }
}

impl Vulkan {
    /// The loop before its first frame, for a swapchain of `frame_buffers`
    /// images: idle, nothing recorded, nothing in flight.
    pub fn new(frame_buffers: usize) -> (vulkan: Vulkan)
        ensures
            vulkan@ == (VulkanView {
                phase: Phase::Idle,
                frame_buffers,
                command_buffers: 0,
                submissions: Seq::empty(),
            }),
            vulkan@.wf(),
    {
        Vulkan { phase: Phase::Idle, frame_buffers, command_buffers: 0, submissions: Vec::new() }
    }

    /// Notes that a command buffer has been recorded for every frame buffer.
    pub fn set_draw_buffers(&mut self)
        requires
            old(self)@.wf(),
        ensures
            final(self)@ == (VulkanView {
                command_buffers: old(self)@.frame_buffers,
                ..old(self)@
            }),
            final(self)@.wf(),
    {
        self.command_buffers = self.frame_buffers;
    }

    pub fn phase(&self) -> (phase: Phase)
        ensures
            phase == self@.phase,
    {
        self.phase
    }

    pub fn frame_buffers(&self) -> (count: usize)
        ensures
            count == self@.frame_buffers,
    {
        self.frame_buffers
    }

    pub fn command_buffers(&self) -> (count: usize)
        ensures
            count == self@.command_buffers,
    {
        self.command_buffers
    }

    /// The image of each submission still in flight, oldest first.
    pub fn submissions(&self) -> (images: &Vec<usize>)
        ensures
            images@ == self@.submissions,
    {
        &self.submissions
    }

    /// Whether the loop goes on.
    pub fn running(&self) -> (yes: bool)
        ensures
            yes == !self@.ended(),
    {
        match self.phase {
            Phase::Closed => false,
            Phase::Failed(_) => false,
            _ => true,
        }
    }

    /// Takes `event` at the clock reading `now`.
    pub fn step_at(&mut self, event: Event, now: u64) -> (action: Action)
        requires
            old(self)@.wf(),
        ensures
            (final(self)@, action) == old(self)@.next(event, now),
            final(self)@.wf(),
    {
        match (self.phase, event) {
            (Phase::Closed, _) => Action::Stop,
            (Phase::Failed(_), _) => Action::Stop,
            (Phase::Idle, Event::Frame) => {
                self.phase = Phase::Acquiring;
                Action::Acquire { timeout_ms: ACQUIRE_TIMEOUT_MS }
            },
            (Phase::Acquiring, Event::Acquired(image)) => {
                if image < self.command_buffers {
                    self.phase = Phase::Recording(image);
                    Action::Update { time_ns: now }
                } else {
                    self.phase = Phase::Failed(Fault::CommandBuffer);
                    Action::Stop
                }
            },
            (Phase::Acquiring, Event::Failed) => {
                self.phase = Phase::Failed(Fault::Acquire);
                Action::Stop
            },
            (Phase::Recording(image), Event::Updated) => {
                self.phase = Phase::Submitting(image);
                Action::Submit { image }
            },
            (Phase::Recording(_), Event::Failed) => {
                self.phase = Phase::Failed(Fault::Uniform);
                Action::Stop
            },
            (Phase::Submitting(image), Event::Submitted) => {
                self.phase = Phase::Presenting(image);
                self.submissions.push(image);
                Action::Present { image }
            },
            (Phase::Submitting(_), Event::Failed) => {
                self.phase = Phase::Failed(Fault::Submit);
                Action::Stop
            },
            (Phase::Presenting(_), Event::Presented) => {
                self.phase = Phase::Polling;
                Action::Poll
            },
            (Phase::Presenting(_), Event::Failed) => {
                self.phase = Phase::Failed(Fault::Present);
                Action::Stop
            },
            (Phase::Polling, Event::Polled { close }) => {
                if close {
                    self.phase = Phase::Closed;
                    Action::Stop
                } else {
                    self.phase = Phase::Idle;
                    Action::Rest
                }
            },
            _ => Action::Rest,
        }
    }

    /// Takes `event` now: reads the clock and goes on as [`Vulkan::step_at`].
    pub fn step(&mut self, event: Event) -> (action: Action)
        requires
            old(self)@.wf(),
        ensures
            exists|now: u64| (final(self)@, action) == #[trigger] old(self)@.next(event, now),
            final(self)@.wf(),
    {
        let now = precise_time_ns();
        self.step_at(event, now)
    }

    /// Drops the submissions that the device has finished with.
    pub fn retire(&mut self, would_block: &Vec<bool>)
        requires
            old(self)@.wf(),
        ensures
            final(self)@ == (VulkanView {
                submissions: retained(old(self)@.submissions, would_block@),
                ..old(self)@
            }),
            final(self)@.wf(),
    {
        retain_blocking(&mut self.submissions, would_block);
    }
}

impl VulkanView {
    /// A step keeps the loop well formed.
    pub proof fn lemma_next_wf(self, event: Event, now: u64)
        requires
            self.wf(),
        ensures
            self.next(event, now).0.wf(),
    {
    }

    /// The steps of a frame come in one order. An image is acquired before
    /// anything is recorded for it; its command buffer is submitted only
    /// after the uniform transform is written; it is presented only after
    /// the queue took its command buffer, which is then booked as in flight;
    /// and events are polled only after it is presented. The image of each
    /// of these steps has a command buffer.
    pub proof fn lemma_frame_order(self, event: Event, now: u64)
        requires
            self.wf(),
        ensures
            ({
                let (after, action) = self.next(event, now);
                &&& action is Acquire ==> self.phase == Phase::Idle && event == Event::Frame
                &&& action is Update ==> self.phase == Phase::Acquiring && event is Acquired
                    && after.phase == Phase::Recording(event->Acquired_0) && event->Acquired_0
                    < self.command_buffers
                &&& action matches Action::Submit { image } ==> self.phase == Phase::Recording(image)
                    && event == Event::Updated && image < self.command_buffers
                &&& action matches Action::Present { image } ==> self.phase == Phase::Submitting(
                    image,
                ) && event == Event::Submitted && image < self.command_buffers
                    && after.submissions == self.submissions.push(image)
                &&& action is Poll ==> self.phase is Presenting && event == Event::Presented
                &&& !(action is Present) ==> after.submissions == self.submissions
                &&& after.frame_buffers == self.frame_buffers
                &&& after.command_buffers == self.command_buffers
            }),
    {
    }

    /// Once the loop has ended, no event changes anything and the host is
    /// told to stop, whatever comes and however much of it.
    pub proof fn lemma_ended_stays(self, events: Seq<(Event, u64)>)
        requires
            self.ended(),
        ensures
            self.run(events) == self,
            events.len() > 0 ==> self.last_action(events) == Action::Stop,
        decreases events.len(),
    {
        if events.len() > 0 {
            self.lemma_ended_stays(events.drop_last());
        }
    }

    /// A request to close the window, seen when the window's events are
    /// polled, ends the loop at that very step: the host is told to stop,
    /// and whatever it reports afterwards, no action but `Stop` is ever
    /// issued and the book of submissions stays as it is.
    pub proof fn lemma_close_ends_loop(self, now: u64, later: Seq<(Event, u64)>)
        requires
            self.phase == Phase::Polling,
        ensures
            ({
                let (closed, action) = self.next(Event::Polled { close: true }, now);
                &&& action == Action::Stop
                &&& closed == self.at(Phase::Closed)
                &&& closed.run(later) == closed
                &&& forall|k: int|
                    0 < k <= later.len() ==> closed.last_action(#[trigger] later.take(k))
                        == Action::Stop
            }),
    {
        let closed = self.next(Event::Polled { close: true }, now).0;
        closed.lemma_ended_stays(later);
        assert forall|k: int| 0 < k <= later.len() implies closed.last_action(
            #[trigger] later.take(k),
        ) == Action::Stop by {
            closed.lemma_ended_stays(later.take(k));
        }
    }
}

/// A submission stays tracked until it is reported as complete. What is
/// kept is never more than what was there; where no report says that a
/// submission is complete, all of them are kept as they are; and a
/// submission whose report says that giving it up would block, or that has
/// no report, is among those kept.
pub proof fn lemma_retained<T>(submissions: Seq<T>, would_block: Seq<bool>)
    ensures
        retained(submissions, would_block).len() <= submissions.len(),
        (forall|i: int| 0 <= i < submissions.len() && i < would_block.len() ==> would_block[i])
            ==> retained(submissions, would_block) == submissions,
        forall|i: int|
            0 <= i < submissions.len() && (i >= would_block.len() || would_block[i])
                ==> retained(submissions, would_block).contains(#[trigger] submissions[i]),
    decreases submissions.len(),
{
    if submissions.len() > 0 {
        let last = submissions.len() - 1;
        let front = submissions.drop_last();
        let kept = retained(front, would_block);
        let all = retained(submissions, would_block);
        lemma_retained(front, would_block);
        assert forall|i: int|
            0 <= i < submissions.len() && (i >= would_block.len()
                || would_block[i]) implies all.contains(#[trigger] submissions[i]) by {
            if i < last {
                let at = choose|at: int| 0 <= at < kept.len() && kept[at] == front[i];
                assert(all[at] == submissions[i]);
            } else {
                assert(all[kept.len() as int] == submissions[i]);
            }
        }
    }
}

} // verus!
