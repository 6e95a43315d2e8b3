//! The surface lifecycle state machine.
//!
//! A surface is created bare, overlaid with exactly one shell role (windowed
//! or layered), committed once without a buffer, and then carried through
//! configure -> acknowledge -> attach -> commit cycles. Two invariants rule
//! the choreography: no buffer is ever attached before at least one configure
//! has been acknowledged, and every configure is acknowledged exactly once
//! with its own serial.
//!
//! The executable methods mirror the total transition function
//! [`lifecycle_step`] exactly, so trace properties proved of the spec hold of
//! every run of the executable machine.

use vstd::prelude::*;

use crate::protocol::Request;
use crate::shm::BufferHandle;

verus! {

/// Anchor bit: the top edge.
pub const ANCHOR_TOP: u32 = 1;

/// Anchor bit: the bottom edge.
pub const ANCHOR_BOTTOM: u32 = 2;

/// Anchor bit: the left edge.
pub const ANCHOR_LEFT: u32 = 4;

/// Anchor bit: the right edge.
pub const ANCHOR_RIGHT: u32 = 8;

/// The band a layered surface is stacked in.
#[derive(PartialEq, Eq, Structural, Clone, Copy, Debug)]
pub enum LayerBand {
    Background,
    Bottom,
    Top,
    Overlay,
}

/// How a layered surface takes keyboard focus.
#[derive(PartialEq, Eq, Structural, Clone, Copy, Debug)]
pub enum KeyboardInteractivity {
    NoInput,
    Exclusive,
    OnDemand,
}

/// The placement a layered shell surface is created with.
#[derive(PartialEq, Eq, Structural, Clone, Copy, Debug)]
pub struct LayerSettings {
    pub band: LayerBand,
    pub anchor: u32,
    pub width: u32,
    pub height: u32,
    pub interactivity: KeyboardInteractivity,
}

/// The one shell role chosen for a surface: a windowed toplevel or a layered
/// surface with its placement. Exactly one role exists per surface; the state
/// machine refuses a second.
#[derive(PartialEq, Eq, Structural, Clone, Copy, Debug)]
pub enum ShellChoice {
    Windowed,
    Layered(LayerSettings),
}

/// Where a surface stands in its life.
#[derive(PartialEq, Eq, Structural, Clone, Copy, Debug)]
pub enum SurfaceState {
    /// Bare surface, no shell role yet.
    Created,
    /// Shell role chosen; the initial commit is still owed.
    ShellAttached,
    /// Initial commit issued; waiting for the first configure.
    AwaitingConfigure,
    /// At least one configure acknowledged; no buffer shown yet.
    Configured,
    /// A buffer is attached and committed; re-entered on later configures.
    Presenting,
    /// Torn down.
    Destroyed,
}

/// The lifecycle of one surface. All fields are plain data; the spec-level
/// transition function operates on the struct directly.
#[derive(PartialEq, Eq, Structural, Clone, Copy, Debug)]
pub struct SurfaceLifecycle {
    /// Object id of the surface itself.
    pub surface_id: u32,
    /// Object id of the shell overlay, once one is attached.
    pub shell_id: Option<u32>,
    /// The chosen shell role, once one is attached.
    pub shell: Option<ShellChoice>,
    /// The buffer currently held for presentation, if any. Holding a buffer
    /// stages it; it is only attached after a configure is acknowledged.
    pub buffer: Option<BufferHandle>,
    /// Whether at least one configure has been acknowledged.
    pub acked: bool,
    /// The current state.
    pub state: SurfaceState,
}

/// Everything the machine can be asked to do: the application-driven setup
/// steps and the compositor-driven configure event.
#[derive(PartialEq, Eq, Structural, Clone, Copy, Debug)]
pub enum LifecycleCommand {
    /// Choose the shell role, giving the overlay a fresh object id.
    AttachShell { shell_id: u32, choice: ShellChoice },
    /// The initial commit, with no buffer attached.
    InitialCommit,
    /// Stage a buffer for presentation.
    HoldBuffer { buffer: BufferHandle },
    /// A configure event with its serial arrived for the shell overlay.
    Configure { serial: u32 },
    /// Attach the held buffer and commit, outside a configure cycle.
    Present,
    /// Tear the surface down.
    Destroy,
}

impl SurfaceLifecycle {
    /// Well-formedness of a lifecycle value. Established at creation and
    /// preserved by every transition.
    pub open spec fn wf(self) -> bool {
        &&& (self.state is Created ==> self.shell is None && !self.acked)
        &&& ((self.state is ShellAttached || self.state is AwaitingConfigure || self.state is Configured
            || self.state is Presenting) ==> self.shell is Some)
        &&& (self.shell is Some <==> self.shell_id is Some)
        &&& ((self.state is Configured || self.state is Presenting) ==> self.acked)
        &&& (self.acked ==> (self.state is Configured || self.state is Presenting || self.state is Destroyed))
        &&& (self.state is Presenting ==> self.buffer is Some)
    }
}

/// The total transition function of the lifecycle machine: from a state and a
/// command to the next state and the requests to issue, in order. A command
/// that is not legal in the current state changes nothing and issues nothing.
pub open spec fn lifecycle_step(s: SurfaceLifecycle, cmd: LifecycleCommand) -> (SurfaceLifecycle, Seq<Request>) {
    match cmd {
        LifecycleCommand::AttachShell { shell_id, choice } => if s.state is Created {
            (
                SurfaceLifecycle {
                    state: SurfaceState::ShellAttached,
                    shell: Some(choice),
                    shell_id: Some(shell_id),
                    ..s
                },
                seq![Request::CreateShellSurface { shell_id, surface_id: s.surface_id, choice }],
            )
        } else {
            (s, seq![])
        },
        LifecycleCommand::InitialCommit => if s.state is ShellAttached {
            (
                SurfaceLifecycle { state: SurfaceState::AwaitingConfigure, ..s },
                seq![Request::Commit { surface_id: s.surface_id }],
            )
        } else {
            (s, seq![])
        },
        LifecycleCommand::HoldBuffer { buffer } => if !(s.state is Destroyed) {
            (SurfaceLifecycle { buffer: Some(buffer), ..s }, seq![])
        } else {
            (s, seq![])
        },
        LifecycleCommand::Configure { serial } => if s.state is AwaitingConfigure || s.state is Configured
            || s.state is Presenting {
            let ack = Request::AckConfigure { shell_id: s.shell_id.unwrap(), serial };
            match s.buffer {
                Some(b) => (
                    SurfaceLifecycle { state: SurfaceState::Presenting, acked: true, ..s },
                    seq![
                        ack,
                        Request::Attach { surface_id: s.surface_id, buffer_id: b.id },
                        Request::Commit { surface_id: s.surface_id },
                    ],
                ),
                None => (SurfaceLifecycle { state: SurfaceState::Configured, acked: true, ..s }, seq![ack]),
            }
        } else {
            (s, seq![])
        },
        LifecycleCommand::Present => if (s.state is Configured || s.state is Presenting) && s.buffer is Some {
            (
                SurfaceLifecycle { state: SurfaceState::Presenting, ..s },
                seq![
                    Request::Attach { surface_id: s.surface_id, buffer_id: s.buffer.unwrap().id },
                    Request::Commit { surface_id: s.surface_id },
                ],
            )
        } else {
            (s, seq![])
        },
        LifecycleCommand::Destroy => if !(s.state is Destroyed) {
            (
                SurfaceLifecycle { state: SurfaceState::Destroyed, ..s },
                seq![Request::DestroySurface { surface_id: s.surface_id }],
            )
        } else {
            (s, seq![])
        },
    }
}

/// Every step preserves well-formedness.
pub proof fn lemma_step_preserves_wf(s: SurfaceLifecycle, cmd: LifecycleCommand)
    requires
        s.wf(),
    ensures
        lifecycle_step(s, cmd).0.wf(),
{
}

/// Run the machine over a whole sequence of commands, concatenating the
/// issued requests into one trace.
pub open spec fn lifecycle_run(s: SurfaceLifecycle, cmds: Seq<LifecycleCommand>) -> (SurfaceLifecycle, Seq<Request>)
    decreases cmds.len(),
{
    if cmds.len() == 0 {
        (s, Seq::<Request>::empty())
    } else {
        let first = lifecycle_step(s, cmds[0]);
        let rest = lifecycle_run(first.0, cmds.drop_first());
        (rest.0, first.1 + rest.1)
    }
}

/// Every attach request in the trace comes after some acknowledge request.
pub open spec fn every_attach_after_an_ack(trace: Seq<Request>) -> bool {
    forall|i: int|
        0 <= i < trace.len() && trace[i] is Attach ==> exists|j: int| 0 <= j < i && trace[j] is AckConfigure
}

/// One step from a state that has never acknowledged a configure either
/// leaves the machine unacknowledged and attaches nothing, or acknowledges
/// first: the step's trace then opens with the acknowledge request.
pub proof fn lemma_step_unacked(s: SurfaceLifecycle, cmd: LifecycleCommand)
    requires
        s.wf(),
        !s.acked,
    ensures
        !lifecycle_step(s, cmd).0.acked ==> (forall|i: int|
            0 <= i < lifecycle_step(s, cmd).1.len() ==> !(lifecycle_step(s, cmd).1[i] is Attach)),
        lifecycle_step(s, cmd).0.acked ==> lifecycle_step(s, cmd).1.len() >= 1 && lifecycle_step(
            s,
            cmd,
        ).1[0] is AckConfigure,
{
}

/// No buffer attach request is ever issued before at least one configure has
/// been acknowledged: over every command sequence whatsoever, starting from a
/// well-formed surface that has not acknowledged a configure, each attach
/// request in the emitted trace is preceded by an acknowledge request.
pub proof fn lemma_no_attach_before_ack(s: SurfaceLifecycle, cmds: Seq<LifecycleCommand>)
    requires
        s.wf(),
        !s.acked,
    ensures
        every_attach_after_an_ack(lifecycle_run(s, cmds).1),
    decreases cmds.len(),
{
    if cmds.len() == 0 {
    } else {
        let step = lifecycle_step(s, cmds[0]);
        let s1 = step.0;
        let t1 = step.1;
        let rest = lifecycle_run(s1, cmds.drop_first());
        let t2 = rest.1;
        let trace = t1 + t2;
        lemma_step_preserves_wf(s, cmds[0]);
        lemma_step_unacked(s, cmds[0]);
        if !s1.acked {
            lemma_no_attach_before_ack(s1, cmds.drop_first());
            assert forall|i: int| 0 <= i < trace.len() && trace[i] is Attach implies exists|j: int|
                0 <= j < i && trace[j] is AckConfigure by {
                assert(trace[i] == t2[i - t1.len()]);
                let j2 = choose|j2: int| 0 <= j2 < i - t1.len() && t2[j2] is AckConfigure;
                assert(trace[j2 + t1.len()] == t2[j2]);
            }
        } else {
            assert forall|i: int| 0 <= i < trace.len() && trace[i] is Attach implies exists|j: int|
                0 <= j < i && trace[j] is AckConfigure by {
                assert(trace[0] == t1[0]);
                assert(trace[0] is AckConfigure);
            }
        }
    }
}

/// The trace holds exactly one acknowledge request, and it echoes `serial` to
/// the shell overlay `shell_id`.
pub open spec fn exactly_one_ack(trace: Seq<Request>, shell_id: u32, serial: u32) -> bool {
    &&& exists|i: int| 0 <= i < trace.len() && trace[i] == (Request::AckConfigure { shell_id, serial })
    &&& forall|i: int, j: int|
        0 <= i < trace.len() && 0 <= j < trace.len() && trace[i] is AckConfigure && trace[j] is AckConfigure ==> i
            == j
}

/// A configure event is answered by exactly one acknowledge request, carrying
/// the identical serial, within the same step: before any further dispatch.
pub proof fn lemma_configure_acked_exactly_once(s: SurfaceLifecycle, serial: u32)
    requires
        s.wf(),
        s.state is AwaitingConfigure || s.state is Configured || s.state is Presenting,
    ensures
        exactly_one_ack(
            lifecycle_step(s, LifecycleCommand::Configure { serial }).1,
            s.shell_id.unwrap(),
            serial,
        ),
{
    let t = lifecycle_step(s, LifecycleCommand::Configure { serial }).1;
    assert(t[0] == (Request::AckConfigure { shell_id: s.shell_id.unwrap(), serial }));
}

impl SurfaceLifecycle {
    /// The lifecycle value of a freshly created bare surface.
    pub open spec fn spec_new(surface_id: u32) -> SurfaceLifecycle {
        SurfaceLifecycle {
            surface_id,
            shell_id: None,
            shell: None,
            buffer: None,
            acked: false,
            state: SurfaceState::Created,
        }
    }

    /// A freshly created bare surface with the given object id.
    pub fn new(surface_id: u32) -> (r: SurfaceLifecycle)
        ensures
            r.wf(),
            r == SurfaceLifecycle::spec_new(surface_id),
            r == (SurfaceLifecycle {
                surface_id,
                shell_id: None,
                shell: None,
                buffer: None,
                acked: false,
                state: SurfaceState::Created,
            }),
    {
        SurfaceLifecycle {
            surface_id,
            shell_id: None,
            shell: None,
            buffer: None,
            acked: false,
            state: SurfaceState::Created,
        }
    }

    /// Overlay the bare surface with its one shell role. Only a bare surface
    /// accepts a role, so a second overlay is refused before it could reach
    /// the wire.
    pub fn attach_shell(&mut self, shell_id: u32, choice: ShellChoice) -> (reqs: Vec<Request>)
        requires
            old(self).wf(),
            old(self).state is Created,
        ensures
            final(self).wf(),
            *final(self) == lifecycle_step(*old(self), LifecycleCommand::AttachShell { shell_id, choice }).0,
            reqs@ == lifecycle_step(*old(self), LifecycleCommand::AttachShell { shell_id, choice }).1,
    {
        let surface_id = self.surface_id;
        self.state = SurfaceState::ShellAttached;
        self.shell = Some(choice);
        self.shell_id = Some(shell_id);
        let mut reqs: Vec<Request> = Vec::new();
        reqs.push(Request::CreateShellSurface { shell_id, surface_id, choice });
        proof {
            assert(reqs@ =~= lifecycle_step(*old(self), LifecycleCommand::AttachShell { shell_id, choice }).1);
        }
        reqs
    }

    /// The initial commit: no buffer is attached, the compositor answers with
    /// the first configure.
    pub fn initial_commit(&mut self) -> (reqs: Vec<Request>)
        requires
            old(self).wf(),
            old(self).state is ShellAttached,
        ensures
            final(self).wf(),
            *final(self) == lifecycle_step(*old(self), LifecycleCommand::InitialCommit).0,
            reqs@ == lifecycle_step(*old(self), LifecycleCommand::InitialCommit).1,
    {
        self.state = SurfaceState::AwaitingConfigure;
        let mut reqs: Vec<Request> = Vec::new();
        reqs.push(Request::Commit { surface_id: self.surface_id });
        proof {
            assert(reqs@ =~= lifecycle_step(*old(self), LifecycleCommand::InitialCommit).1);
        }
        reqs
    }

    /// Stage a buffer. It is not attached here: attaching waits until a
    /// configure has been acknowledged.
    pub fn hold_buffer(&mut self, buffer: BufferHandle)
        requires
            old(self).wf(),
            !(old(self).state is Destroyed),
        ensures
            final(self).wf(),
            *final(self) == lifecycle_step(*old(self), LifecycleCommand::HoldBuffer { buffer }).0,
            lifecycle_step(*old(self), LifecycleCommand::HoldBuffer { buffer }).1 =~= Seq::<Request>::empty(),
    {
        self.buffer = Some(buffer);
    }

    /// Answer a configure event: acknowledge it with the identical serial,
    /// first and exactly once; then, if a buffer is held, attach it and
    /// commit. Re-entered on every later configure.
    pub fn handle_configure(&mut self, serial: u32) -> (reqs: Vec<Request>)
        requires
            old(self).wf(),
            old(self).state is AwaitingConfigure || old(self).state is Configured || old(self).state is Presenting,
        ensures
            final(self).wf(),
            *final(self) == lifecycle_step(*old(self), LifecycleCommand::Configure { serial }).0,
            reqs@ == lifecycle_step(*old(self), LifecycleCommand::Configure { serial }).1,
            reqs@.len() >= 1,
            reqs@[0] == (Request::AckConfigure { shell_id: old(self).shell_id.unwrap(), serial }),
            final(self).acked,
    {
        let shell_id = self.shell_id.unwrap();
        let surface_id = self.surface_id;
        let mut reqs: Vec<Request> = Vec::new();
        reqs.push(Request::AckConfigure { shell_id, serial });
        match self.buffer {
            Some(b) => {
                reqs.push(Request::Attach { surface_id, buffer_id: b.id });
                reqs.push(Request::Commit { surface_id });
                self.state = SurfaceState::Presenting;
            },
            None => {
                self.state = SurfaceState::Configured;
            },
        }
        self.acked = true;
        proof {
            assert(reqs@ =~= lifecycle_step(*old(self), LifecycleCommand::Configure { serial }).1);
        }
        reqs
    }

    /// Attach the held buffer and commit outside a configure cycle. Legal only
    /// once `Configured` has been reached, which the precondition enforces: a
    /// well-formed lifecycle in these states has acknowledged a configure.
    pub fn present(&mut self) -> (reqs: Vec<Request>)
        requires
            old(self).wf(),
            old(self).state is Configured || old(self).state is Presenting,
            old(self).buffer is Some,
        ensures
            final(self).wf(),
            *final(self) == lifecycle_step(*old(self), LifecycleCommand::Present).0,
            reqs@ == lifecycle_step(*old(self), LifecycleCommand::Present).1,
    {
        let surface_id = self.surface_id;
        let buffer_id = self.buffer.unwrap().id;
        self.state = SurfaceState::Presenting;
        let mut reqs: Vec<Request> = Vec::new();
        reqs.push(Request::Attach { surface_id, buffer_id });
        reqs.push(Request::Commit { surface_id });
        proof {
            assert(reqs@ =~= lifecycle_step(*old(self), LifecycleCommand::Present).1);
        }
        reqs
    }

    /// Explicit teardown, from any live state.
    pub fn destroy(&mut self) -> (reqs: Vec<Request>)
        requires
            old(self).wf(),
            !(old(self).state is Destroyed),
        ensures
            final(self).wf(),
            *final(self) == lifecycle_step(*old(self), LifecycleCommand::Destroy).0,
            reqs@ == lifecycle_step(*old(self), LifecycleCommand::Destroy).1,
    {
        let surface_id = self.surface_id;
        self.state = SurfaceState::Destroyed;
        let mut reqs: Vec<Request> = Vec::new();
        reqs.push(Request::DestroySurface { surface_id });
        proof {
            assert(reqs@ =~= lifecycle_step(*old(self), LifecycleCommand::Destroy).1);
        }
        reqs
    }
}

} // verus!
