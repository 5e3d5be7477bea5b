//! Verified control core for a binding to a native graph layout and
//! rendering engine (Graphviz).
//!
//! The engine itself — parsing the textual graph grammar, computing a
//! layout, emitting SVG — is a native library reached through foreign
//! calls that no verifier can see.  What *can* be verified is the part
//! of the binding that carries all of its safety obligations: the
//! strictly ordered render sequence, the exactly-once release of every
//! native resource the sequence acquires, the mapping of each native
//! status code to a typed error, and the rejection of input that the
//! C string convention would silently truncate.
//!
//! This crate holds exactly that part.  [`session::Session`] is a pure
//! state machine: a driver asks it for the next engine call to make
//! ([`session::Session::next_action`]), performs the call, and hands the
//! outcome back ([`session::Session::step`]).  The machine decides what
//! follows — continue, record the first failure, and tear down whatever
//! was acquired — and its contracts pin every transition down.
//! [`input`] holds the decisions made while constructing a graph handle,
//! and [`laws`] proves the lifecycle properties the binding promises:
//! bounded runs, no resource held at the end, the first failure
//! reported, equal outcomes for equal engine responses.
//!
//! The unverified half of the binding — the foreign declarations and the
//! loop that performs the calls — lives outside this crate and follows
//! the machine's instructions verbatim.

pub mod errors;
pub mod input;
pub mod laws;
pub mod session;

pub use errors::RenderError;
pub use input::accept_parse;
pub use input::validate_graph_text;
pub use session::Action;
pub use session::Event;
pub use session::Phase;
pub use session::Session;
pub use session::Target;
