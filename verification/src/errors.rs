use vstd::prelude::*;

verus! {

/// The closed set of failures the binding can report.
///
/// Every failure is deterministic for a given input and engine state and
/// none is retryable: each reflects either malformed input or an engine
/// condition the binding cannot recover from.  Variants that correspond
/// to an engine call returning a status code carry that raw code.
#[derive(Clone, Copy, Debug, PartialEq, Eq, Structural)]
pub enum RenderError {
    /// The engine could not allocate a rendering context.
    ContextNull,
    /// The engine rejected the graph description as unparseable, or the
    /// description could not be handed to the engine at all (it embeds
    /// the C string terminator).
    ParseError,
    /// The layout step returned a non-zero status.
    GvLayout(i32),
    /// The output-generation step returned a non-zero status.
    GvRenderFilename(i32),
    /// Releasing the layout resources returned a non-zero status.
    GvFreeLayout(i32),
    /// Releasing the rendering context returned a non-zero status.
    GvFreeContext(i32),
    /// The engine refused to register a presentation attribute namespace.
    AgAttr,
}

} // verus!
