use vstd::prelude::*;

use crate::errors::RenderError;

verus! {

/// Where a render session sends its output: into a caller-owned byte
/// buffer, or straight to a file written by the engine.
#[derive(Clone, Copy, Debug, PartialEq, Eq, Structural)]
pub enum Target {
    Memory,
    File,
}

/// The position of a render session in its strictly ordered sequence.
/// Each non-final phase names the one engine call the session is
/// waiting on.
#[derive(Clone, Copy, Debug, PartialEq, Eq, Structural)]
pub enum Phase {
    /// Waiting for the next attribute namespace registration (only when
    /// attribute seeding was requested at the start of the session).
    NeedAttributes,
    /// Waiting for the engine to allocate a rendering context.
    NeedContext,
    /// Waiting for the layout computation.
    NeedLayout,
    /// Waiting for output generation (to memory or to a file).
    NeedOutput,
    /// Waiting for the engine-owned output buffer to be released (the
    /// in-memory path only, after its bytes were copied out).
    NeedDataFree,
    /// Waiting for the layout resources to be released.
    NeedLayoutFree,
    /// Waiting for the rendering context to be released.
    NeedContextFree,
    /// The session is over; no engine call remains and no native
    /// resource is still held.
    Finished,
}

/// The engine call a driver is asked to perform next.
#[derive(Clone, Copy, Debug, PartialEq, Eq, Structural)]
pub enum Action {
    /// Register one presentation attribute namespace on the graph.
    SeedAttribute,
    /// Allocate a rendering context.
    AcquireContext,
    /// Run the layout step on the graph.
    ComputeLayout,
    /// Generate the output (into memory or into the destination file,
    /// according to the session's target).
    ProduceOutput,
    /// Release the engine-owned output buffer.
    FreeEngineData,
    /// Release the layout resources.
    FreeLayout,
    /// Release the rendering context.
    FreeContext,
    /// Nothing remains to be done.
    Stop,
}

/// What an engine call reported back to the session.
pub enum Event {
    /// A call that returns a pointer came back; `null` records whether
    /// the pointer was null (context allocation, attribute
    /// registration).
    Pointer { null: bool },
    /// A call that returns a status code came back; zero is success.
    Status { code: i32 },
    /// The in-memory output step came back: its status code, and the
    /// bytes copied out of the engine-owned buffer (empty on failure).
    Output { status: i32, bytes: Vec<u8> },
    /// The engine-owned output buffer was released (a call that
    /// returns nothing).
    Released,
}

/// One render session: the decision half of the render operation.
///
/// A driver repeatedly asks [`Session::next_action`] which engine call
/// to make, performs it, and hands the outcome to [`Session::step`].
/// The session decides everything else: the strict order of the steps,
/// which error the first non-zero status maps to, and the teardown of
/// every resource acquired so far even when a later step has failed —
/// the first failure alone is reported.
pub struct Session {
    /// Where the output of this session goes.
    pub target: Target,
    /// Whether the session registers the three presentation attribute
    /// namespaces (node, graph, edge) before layout.
    pub seed_attributes: bool,
    /// How many of the three attribute namespaces are registered.
    pub attrs_done: u8,
    /// The engine call the session is waiting on.
    pub phase: Phase,
    /// The first failure observed, if any.
    pub failure: Option<RenderError>,
    /// The rendered bytes, once the in-memory output step succeeded.
    pub output: Option<Vec<u8>>,
}

impl Session {
    /// The rendering context is currently allocated and not yet
    /// released.
    pub open spec fn context_live(self) -> bool {
        match self.phase {
            Phase::NeedLayout => true,
            Phase::NeedOutput => true,
            Phase::NeedDataFree => true,
            Phase::NeedLayoutFree => true,
            Phase::NeedContextFree => true,
            _ => false,
        }
    }

    /// Layout resources are currently attached to the graph and not
    /// yet released.
    pub open spec fn layout_live(self) -> bool {
        match self.phase {
            Phase::NeedOutput => true,
            Phase::NeedDataFree => true,
            Phase::NeedLayoutFree => true,
            _ => false,
        }
    }

    /// The engine still owns an output buffer that must be released.
    pub open spec fn engine_buffer_live(self) -> bool {
        self.phase is NeedDataFree
    }

    /// Well-formedness of a session.  Established by [`Session::start`]
    /// and preserved by [`Session::step`].
    pub open spec fn inv(self) -> bool {
        &&& self.attrs_done <= 3
        &&& (self.phase is NeedAttributes ==> self.seed_attributes && self.attrs_done < 3)
        &&& (self.output is Some ==> self.target is Memory)
        &&& (match self.phase {
            Phase::NeedAttributes => self.failure is None && self.output is None,
            Phase::NeedContext => self.failure is None && self.output is None,
            Phase::NeedLayout => self.failure is None && self.output is None,
            Phase::NeedOutput => self.failure is None && self.output is None,
            Phase::NeedDataFree => self.failure is None && self.output is Some,
            _ => true,
        })
        &&& (self.target is Memory && self.failure is None ==> match self.phase {
            Phase::NeedLayoutFree => self.output is Some,
            Phase::NeedContextFree => self.output is Some,
            Phase::Finished => self.output is Some,
            _ => true,
        })
    }

    /// The session a render operation starts from.
    pub open spec fn spec_start(target: Target, seed_attributes: bool) -> Session {
        Session {
            target,
            seed_attributes,
            attrs_done: 0,
            phase: if seed_attributes {
                Phase::NeedAttributes
            } else {
                Phase::NeedContext
            },
            failure: None,
            output: None,
        }
    }

    /// Opens a render session.  Attribute seeding is a configurable
    /// option: when `seed_attributes` is set, the session first asks
    /// for the three attribute namespace registrations; otherwise it
    /// goes straight to acquiring a context.
    pub fn start(target: Target, seed_attributes: bool) -> (s: Session)
        ensures
            s == Session::spec_start(target, seed_attributes),
            s.inv(),
    {
        Session {
            target,
            seed_attributes,
            attrs_done: 0,
            phase: if seed_attributes {
                Phase::NeedAttributes
            } else {
                Phase::NeedContext
            },
            failure: None,
            output: None,
        }
    }

    /// The kind of event the session's current phase waits for.  The
    /// driver meets it by construction when it performs exactly the
    /// call that [`Session::next_action`] named.
    pub open spec fn accepts(self, e: Event) -> bool {
        match self.phase {
            Phase::NeedAttributes => e is Pointer,
            Phase::NeedContext => e is Pointer,
            Phase::NeedLayout => e is Status,
            Phase::NeedOutput => if self.target is Memory {
                e is Output
            } else {
                e is Status
            },
            Phase::NeedDataFree => e is Released,
            Phase::NeedLayoutFree => e is Status,
            Phase::NeedContextFree => e is Status,
            Phase::Finished => false,
        }
    }

    /// How many engine calls the session can still ask for.  Strictly
    /// decreased by every step, so a session performs a bounded number
    /// of calls and a driver's loop terminates.
    pub open spec fn steps_left(self) -> int {
        match self.phase {
            Phase::NeedAttributes => 9 - self.attrs_done,
            Phase::NeedContext => 6,
            Phase::NeedLayout => 5,
            Phase::NeedOutput => 4,
            Phase::NeedDataFree => 3,
            Phase::NeedLayoutFree => 2,
            Phase::NeedContextFree => 1,
            Phase::Finished => 0,
        }
    }

    /// Keeps the first failure of a session: a later failure never
    /// replaces one already recorded.
    pub open spec fn spec_record(failure: Option<RenderError>, err: RenderError) -> Option<
        RenderError,
    > {
        if failure is None {
            Some(err)
        } else {
            failure
        }
    }

    /// The full transition table of a session, one case per engine
    /// call outcome.
    ///
    /// On a mid-sequence failure the session still asks for the release
    /// of everything acquired so far — a failed layout step releases
    /// the context, a failed output step releases layout and context —
    /// and only the first failure becomes the reported error.  On a
    /// pair the table does not accept, the session is left unchanged.
    pub open spec fn spec_step(self, e: Event) -> Session {
        match (self.phase, e) {
            (Phase::NeedAttributes, Event::Pointer { null }) => if null {
                Session {
                    phase: Phase::Finished,
                    failure: Session::spec_record(self.failure, RenderError::AgAttr),
                    ..self
                }
            } else if self.attrs_done >= 2 {
                Session { phase: Phase::NeedContext, attrs_done: 3, ..self }
            } else {
                Session { attrs_done: (self.attrs_done + 1) as u8, ..self }
            },
            (Phase::NeedContext, Event::Pointer { null }) => if null {
                Session {
                    phase: Phase::Finished,
                    failure: Session::spec_record(self.failure, RenderError::ContextNull),
                    ..self
                }
            } else {
                Session { phase: Phase::NeedLayout, ..self }
            },
            (Phase::NeedLayout, Event::Status { code }) => if code == 0 {
                Session { phase: Phase::NeedOutput, ..self }
            } else {
                Session {
                    phase: Phase::NeedContextFree,
                    failure: Session::spec_record(self.failure, RenderError::GvLayout(code)),
                    ..self
                }
            },
            (Phase::NeedOutput, Event::Status { code }) => if code == 0 {
                Session { phase: Phase::NeedLayoutFree, ..self }
            } else {
                Session {
                    phase: Phase::NeedLayoutFree,
                    failure: Session::spec_record(
                        self.failure,
                        RenderError::GvRenderFilename(code),
                    ),
                    ..self
                }
            },
            (Phase::NeedOutput, Event::Output { status, bytes }) => if status == 0 {
                Session { phase: Phase::NeedDataFree, output: Some(bytes), ..self }
            } else {
                Session {
                    phase: Phase::NeedLayoutFree,
                    failure: Session::spec_record(
                        self.failure,
                        RenderError::GvRenderFilename(status),
                    ),
                    ..self
                }
            },
            (Phase::NeedDataFree, Event::Released) => Session {
                phase: Phase::NeedLayoutFree,
                ..self
            },
            (Phase::NeedLayoutFree, Event::Status { code }) => if code == 0 {
                Session { phase: Phase::NeedContextFree, ..self }
            } else {
                Session {
                    phase: Phase::NeedContextFree,
                    failure: Session::spec_record(self.failure, RenderError::GvFreeLayout(code)),
                    ..self
                }
            },
            (Phase::NeedContextFree, Event::Status { code }) => if code == 0 {
                Session { phase: Phase::Finished, ..self }
            } else {
                Session {
                    phase: Phase::Finished,
                    failure: Session::spec_record(self.failure, RenderError::GvFreeContext(code)),
                    ..self
                }
            },
            _ => self,
        }
    }

    /// The engine call to perform next.  [`Action::Stop`] exactly when
    /// the session is finished.
    pub open spec fn spec_next_action(self) -> Action {
        match self.phase {
            Phase::NeedAttributes => Action::SeedAttribute,
            Phase::NeedContext => Action::AcquireContext,
            Phase::NeedLayout => Action::ComputeLayout,
            Phase::NeedOutput => Action::ProduceOutput,
            Phase::NeedDataFree => Action::FreeEngineData,
            Phase::NeedLayoutFree => Action::FreeLayout,
            Phase::NeedContextFree => Action::FreeContext,
            Phase::Finished => Action::Stop,
        }
    }

    /// Tells the driver which engine call to make now.
    pub fn next_action(&self) -> (a: Action)
        ensures
            a == self.spec_next_action(),
    {
        match self.phase {
            Phase::NeedAttributes => Action::SeedAttribute,
            Phase::NeedContext => Action::AcquireContext,
            Phase::NeedLayout => Action::ComputeLayout,
            Phase::NeedOutput => Action::ProduceOutput,
            Phase::NeedDataFree => Action::FreeEngineData,
            Phase::NeedLayoutFree => Action::FreeLayout,
            Phase::NeedContextFree => Action::FreeContext,
            Phase::Finished => Action::Stop,
        }
    }

    /// Advances the session by the outcome of the engine call it was
    /// waiting on.
    ///
    /// The new session is exactly what the transition table
    /// [`Session::spec_step`] says; well-formedness is preserved, a
    /// failure already recorded stays the reported one, and the number
    /// of calls still to come strictly decreases.
    pub fn step(self, e: Event) -> (next: Session)
        requires
            self.inv(),
            self.accepts(e),
        ensures
            next == self.spec_step(e),
            next.inv(),
            self.failure is Some ==> next.failure == self.failure,
            next.steps_left() < self.steps_left(),
    {
        match (self.phase, e) {
            (Phase::NeedAttributes, Event::Pointer { null }) => if null {
                Session {
                    phase: Phase::Finished,
                    failure: Some(RenderError::AgAttr),
                    ..self
                }
            } else if self.attrs_done >= 2 {
                Session { phase: Phase::NeedContext, attrs_done: 3, ..self }
            } else {
                Session { attrs_done: self.attrs_done + 1, ..self }
            },
            (Phase::NeedContext, Event::Pointer { null }) => if null {
                Session {
                    phase: Phase::Finished,
                    failure: Some(RenderError::ContextNull),
                    ..self
                }
            } else {
                Session { phase: Phase::NeedLayout, ..self }
            },
            (Phase::NeedLayout, Event::Status { code }) => if code == 0 {
                Session { phase: Phase::NeedOutput, ..self }
            } else {
                Session {
                    phase: Phase::NeedContextFree,
                    failure: Some(RenderError::GvLayout(code)),
                    ..self
                }
            },
            (Phase::NeedOutput, Event::Status { code }) => if code == 0 {
                Session { phase: Phase::NeedLayoutFree, ..self }
            } else {
                Session {
                    phase: Phase::NeedLayoutFree,
                    failure: Some(RenderError::GvRenderFilename(code)),
                    ..self
                }
            },
            (Phase::NeedOutput, Event::Output { status, bytes }) => if status == 0 {
                Session { phase: Phase::NeedDataFree, output: Some(bytes), ..self }
            } else {
                Session {
                    phase: Phase::NeedLayoutFree,
                    failure: Some(RenderError::GvRenderFilename(status)),
                    ..self
                }
            },
            (Phase::NeedDataFree, Event::Released) => Session {
                phase: Phase::NeedLayoutFree,
                ..self
            },
            (Phase::NeedLayoutFree, Event::Status { code }) => if code == 0 {
                Session { phase: Phase::NeedContextFree, ..self }
            } else {
                Session {
                    phase: Phase::NeedContextFree,
                    failure: if self.failure.is_some() {
                        self.failure
                    } else {
                        Some(RenderError::GvFreeLayout(code))
                    },
                    ..self
                }
            },
            (Phase::NeedContextFree, Event::Status { code }) => if code == 0 {
                Session { phase: Phase::Finished, ..self }
            } else {
                Session {
                    phase: Phase::Finished,
                    failure: if self.failure.is_some() {
                        self.failure
                    } else {
                        Some(RenderError::GvFreeContext(code))
                    },
                    ..self
                }
            },
            _ => self,
        }
    }

    /// Closes a finished in-memory session: the first failure if one
    /// was recorded, otherwise exactly the bytes the engine handed
    /// over.
    pub fn finish_memory(self) -> (r: Result<Vec<u8>, RenderError>)
        requires
            self.inv(),
            self.phase is Finished,
            self.target is Memory,
        ensures
            match self.failure {
                Some(err) => r == Err::<Vec<u8>, RenderError>(err),
                None => self.output matches Some(bytes) && r == Ok::<Vec<u8>, RenderError>(bytes),
            },
    {
        let Session { failure, output, .. } = self;
        match failure {
            Some(err) => Err(err),
            None => match output {
                Some(bytes) => Ok(bytes),
                None => vstd::pervasive::unreached(),
            },
        }
    }

    /// Closes a finished render-to-file session: the first failure if
    /// one was recorded, otherwise confirmation that the file was
    /// written.
    pub fn finish_file(self) -> (r: Result<(), RenderError>)
        requires
            self.inv(),
            self.phase is Finished,
            self.target is File,
        ensures
            match self.failure {
                Some(err) => r == Err::<(), RenderError>(err),
                None => r is Ok,
            },
    {
        match self.failure {
            Some(err) => Err(err),
            None => Ok(()),
        }
    }
}

} // verus!
