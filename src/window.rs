use vstd::prelude::*;

use crate::geometry::{Position, Size};
use crate::render::DrawCommand;
use crate::signal::{closed_after, closed_through, react, reaction_of, Reaction, Signal};

verus! {

/// Reacts to a click of the primary pointer button.
pub trait ClickHandler<S> {
    /// What a click at `pos` does to the application state: `before` may
    /// become `after`.
    spec fn clicked(&self, before: S, pos: Position, after: S) -> bool;

    /// Called with the application state and the normalised click position.
    fn on_click(&self, state: &mut S, pos: Position)
        requires
            pos.wf(),
        ensures
            self.clicked(*old(state), pos, *final(state)),
    ;
}

/// Produces the drawing of one frame.
pub trait TickHandler<S> {
    /// What one tick does: from state `before` and a client area of size
    /// `client`, it may leave state `after` and draw `frame`.
    spec fn ticked(&self, before: S, client: Size, after: S, frame: Seq<DrawCommand>) -> bool;

    /// Called once per loop iteration, before the frame is presented, with
    /// the application state and the current client size.
    fn on_tick(&self, state: &mut S, client: Size) -> (r: Vec<DrawCommand>)
        ensures
            self.ticked(*old(state), client, *final(state), r@),
    ;
}

/// What a window is made from.
pub struct CreateOptions<S, C, T> {
    pub title: String,
    pub size: Size,
    pub state: S,
    pub click_handler: C,
    pub tick_handler: T,
}

/// Where the run loop stands.
#[derive(Clone, Copy, Debug, PartialEq, Eq, Structural)]
pub enum Phase {
    /// Pending signals are being taken from the queue.
    Draining,
    /// The frame was drawn and waits to be presented.
    Presenting,
    /// The loop is over; the drawing surface is to be released.
    Finished,
}

/// What the platform reports to the run loop.
#[derive(Clone, Copy, Debug, PartialEq, Eq, Structural)]
pub enum LoopEvent {
    /// One pending signal.
    Signal(Signal),
    /// The queue is empty; the client area has this size.
    Drained { client: Size },
    /// The back buffer was presented, or presenting it failed.
    Presented { ok: bool },
}

/// What the platform is to do next.
pub enum Step {
    /// Carry out this reaction to the signal just reported, then report the
    /// next pending signal, or that the queue is empty.
    Dispatch(Reaction),
    /// Issue these commands, present the back buffer and report the outcome.
    Draw(Vec<DrawCommand>),
    /// Report the next pending signal, or that the queue is empty.
    Drain,
    /// Release the drawing surface and stop.
    Exit,
}

/// A window: its closed flag, where its run loop stands, and what it was
/// made from.
pub struct Window<S, C, T> {
    closed: bool,
    present_failed: bool,
    phase: Phase,
    options: CreateOptions<S, C, T>,
    signals: Ghost<Seq<Signal>>,
}

impl<S, C: ClickHandler<S>, T: TickHandler<S>> Window<S, C, T> {
    /// The window is closed once a close signal has been handled or a frame
    /// could not be presented, and a finished loop belongs to a closed window.
    pub open spec fn wf(self) -> bool {
        &&& self.is_closed() == (closed_through(false, self.signals_seen())
            || self.present_failed())
        &&& self.phase() is Finished ==> self.is_closed()
    }

    pub closed spec fn is_closed(self) -> bool {
        self.closed
    }

    /// Presenting a frame failed, which closed the window.
    pub closed spec fn present_failed(self) -> bool {
        self.present_failed
    }

    pub closed spec fn phase(self) -> Phase {
        self.phase
    }

    /// The signals handled so far, oldest first.
    pub closed spec fn signals_seen(self) -> Seq<Signal> {
        self.signals@
    }

    pub closed spec fn options(self) -> CreateOptions<S, C, T> {
        self.options
    }

    /// Title, size and handlers are those of `o`.
    pub open spec fn same_setup(self, o: Self) -> bool {
        &&& self.options().title@ == o.options().title@
        &&& self.options().size == o.options().size
        &&& self.options().click_handler == o.options().click_handler
        &&& self.options().tick_handler == o.options().tick_handler
    }

    /// Nothing but the phase differs from `o`.
    pub open spec fn same_but_phase(self, o: Self) -> bool {
        &&& self.same_setup(o)
        &&& self.options().state == o.options().state
        &&& self.is_closed() == o.is_closed()
        &&& self.present_failed() == o.present_failed()
        &&& self.signals_seen() == o.signals_seen()
    }

    /// A window that has seen no signal and is about to drain its queue.
    pub fn create(options: CreateOptions<S, C, T>) -> (r: Self)
        ensures
            r.wf(),
            !r.is_closed(),
            !r.present_failed(),
            r.phase() == Phase::Draining,
            r.signals_seen() == Seq::<Signal>::empty(),
            r.options() == options,
    {
        Window {
            closed: false,
            present_failed: false,
            phase: Phase::Draining,
            options,
            signals: Ghost(Seq::empty()),
        }
    }

    /// Handles one signal: a close sets the closed flag, a press inside a
    /// drawable client area of an open window goes to the click handler.
    pub fn dispatch(&mut self, s: Signal) -> (r: Reaction)
        requires
            old(self).wf(),
        ensures
            final(self).wf(),
            r == reaction_of(old(self).is_closed(), s),
            final(self).is_closed() == closed_after(old(self).is_closed(), s),
            final(self).present_failed() == old(self).present_failed(),
            final(self).signals_seen() == old(self).signals_seen().push(s),
            final(self).phase() == old(self).phase(),
            final(self).same_setup(*old(self)),
            r matches Reaction::Click(p) ==> old(self).options().click_handler.clicked(
                old(self).options().state,
                p,
                final(self).options().state,
            ),
            !(r is Click) ==> final(self).options().state == old(self).options().state,
    {
        let r = react(self.closed, s);
        proof {
            crate::signal::lemma_closed_through_push(false, self.signals@, s);
        }
        if let Signal::Close = s {
            self.closed = true;
        }
        self.signals = Ghost(self.signals@.push(s));
        if let Reaction::Click(pos) = r {
            self.options.click_handler.on_click(&mut self.options.state, pos);
        }
        r
    }

    /// The test at the head of the run loop: a closed window finishes
    /// without draining its queue, an open one drains it.
    pub fn begin(&mut self) -> (r: Step)
        requires
            old(self).wf(),
        ensures
            final(self).wf(),
            final(self).same_but_phase(*old(self)),
            old(self).is_closed() ==> r is Exit && final(self).phase() == Phase::Finished,
            !old(self).is_closed() ==> r is Drain && final(self).phase() == old(self).phase(),
    {
        if self.closed {
            self.phase = Phase::Finished;
            Step::Exit
        } else {
            Step::Drain
        }
    }

    /// One move of the run loop. Until the loop finishes, each reported
    /// signal is dispatched. Once the queue is empty, a closed window
    /// finishes; an open one has the tick handler draw the frame. Once the
    /// frame is presented the loop drains again, unless the window was
    /// closed meanwhile or presenting failed, which closes it; then it
    /// finishes. A finished loop only says to exit; an empty queue or a
    /// presented frame reported out of turn changes nothing. The loop only
    /// ever says to exit from a closed window.
    pub fn step(&mut self, event: LoopEvent) -> (r: Step)
        requires
            old(self).wf(),
        ensures
            final(self).wf(),
            final(self).same_setup(*old(self)),
            r is Exit ==> final(self).is_closed() && final(self).phase() == Phase::Finished,
            old(self).phase() is Finished ==> r is Exit && *final(self) == *old(self),
            !(old(self).phase() is Finished) ==> match event {
                LoopEvent::Signal(s) => {
                    &&& r == Step::Dispatch(reaction_of(old(self).is_closed(), s))
                    &&& final(self).signals_seen() == old(self).signals_seen().push(s)
                    &&& final(self).is_closed() == closed_after(old(self).is_closed(), s)
                    &&& final(self).present_failed() == old(self).present_failed()
                    &&& final(self).phase() == old(self).phase()
                    &&& reaction_of(old(self).is_closed(), s) matches Reaction::Click(p)
                        ==> old(self).options().click_handler.clicked(
                        old(self).options().state,
                        p,
                        final(self).options().state,
                    )
                    &&& !(reaction_of(old(self).is_closed(), s) is Click)
                        ==> final(self).options().state == old(self).options().state
                },
                LoopEvent::Drained { client } => {
                    &&& final(self).signals_seen() == old(self).signals_seen()
                    &&& final(self).is_closed() == old(self).is_closed()
                    &&& final(self).present_failed() == old(self).present_failed()
                    &&& old(self).phase() is Draining && old(self).is_closed() ==> r is Exit
                        && final(self).same_but_phase(*old(self))
                    &&& old(self).phase() is Draining && !old(self).is_closed() ==> {
                        &&& r matches Step::Draw(c) && old(self).options().tick_handler.ticked(
                            old(self).options().state,
                            client,
                            final(self).options().state,
                            c@,
                        )
                        &&& final(self).phase() == Phase::Presenting
                    }
                    &&& old(self).phase() is Presenting ==> r is Drain
                        && *final(self) == *old(self)
                },
                LoopEvent::Presented { ok } => {
                    &&& final(self).options().state == old(self).options().state
                    &&& final(self).signals_seen() == old(self).signals_seen()
                    &&& old(self).phase() is Draining ==> r is Drain
                        && *final(self) == *old(self)
                    &&& old(self).phase() is Presenting && ok && !old(self).is_closed() ==> {
                        &&& r is Drain
                        &&& final(self).phase() == Phase::Draining
                        &&& final(self).same_but_phase(*old(self))
                    }
                    &&& old(self).phase() is Presenting && ok && old(self).is_closed() ==> {
                        &&& r is Exit
                        &&& final(self).same_but_phase(*old(self))
                    }
                    &&& old(self).phase() is Presenting && !ok ==> {
                        &&& r is Exit
                        &&& final(self).is_closed()
                        &&& final(self).present_failed()
                    }
                },
            },
    {
        match self.phase {
            Phase::Finished => Step::Exit,
            _ => match event {
                LoopEvent::Signal(s) => Step::Dispatch(self.dispatch(s)),
                LoopEvent::Drained { client } => {
                    if let Phase::Draining = self.phase {
                        if self.closed {
                            self.phase = Phase::Finished;
                            Step::Exit
                        } else {
                            let cmds = self.options.tick_handler.on_tick(
                                &mut self.options.state,
                                client,
                            );
                            self.phase = Phase::Presenting;
                            Step::Draw(cmds)
                        }
                    } else {
                        Step::Drain
                    }
                },
                LoopEvent::Presented { ok } => {
                    if let Phase::Presenting = self.phase {
                        if ok && !self.closed {
                            self.phase = Phase::Draining;
                            Step::Drain
                        } else {
                            if !ok {
                                self.present_failed = true;
                                self.closed = true;
                            }
                            self.phase = Phase::Finished;
                            Step::Exit
                        }
                    } else {
                        Step::Drain
                    }
                },
            },
        }
    }

    /// Whether a close signal has been handled or a frame could not be
    /// presented.
    pub fn closed(&self) -> (r: bool)
        ensures
            r == self.is_closed(),
    {
        self.closed
    }
    /// Where the run loop stands.
    pub fn current_phase(&self) -> (r: Phase)
        ensures
            r == self.phase(),
    {
        self.phase
    }

    /// The title the window was made with.
    pub fn title(&self) -> (r: &String)
        ensures
            r@ == self.options().title@,
    {
        &self.options.title
    }

    /// The size the window was made with.
    pub fn size(&self) -> (r: Size)
        ensures
            r == self.options().size,
    {
        self.options.size
    }

    /// The application state.
    pub fn state(&self) -> (r: &S)
        ensures
            *r == self.options().state,
    {
        &self.options.state
    }

    /// Ends the window and hands back the application state.
    pub fn into_state(self) -> (r: S)
        ensures
            r == self.options().state,
    {
        self.options.state
    }
}

} // verus!
