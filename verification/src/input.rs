use vstd::prelude::*;

use crate::errors::RenderError;

verus! {

/// True when no byte of `s` is the NUL terminator of the C string
/// convention under which graph descriptions travel to the engine.
pub open spec fn nul_free(s: Seq<u8>) -> bool {
    forall|i: int| 0 <= i < s.len() ==> s[i] != 0
}

/// Decides whether a graph description may be handed to the engine.
///
/// The engine receives the description as a NUL-terminated C string, so
/// a description that itself contains a NUL byte cannot be transferred
/// faithfully: it would be silently truncated at the embedded
/// terminator.  Such input is rejected cleanly as unparseable before
/// any engine call is made; no resource is acquired for it.
pub fn validate_graph_text(text: &Vec<u8>) -> (r: Result<(), RenderError>)
    ensures
        r is Ok <==> nul_free(text@),
        !nul_free(text@) ==> r == Err::<(), RenderError>(RenderError::ParseError),
{
    let mut i: usize = 0;
    while i < text.len()
        invariant
            i <= text.len(),
            forall|j: int| 0 <= j < i ==> text@[j] != 0,
        decreases text.len() - i,
    {
        if text[i] == 0 {
            return Err(RenderError::ParseError);
        }
        i = i + 1;
    }
    Ok(())
}

/// Decides the outcome of graph construction from what the engine
/// reported: a null graph pointer means the description was
/// unparseable, and no handle — hence nothing the caller would have to
/// release — comes into existence.
pub fn accept_parse(engine_returned_null: bool) -> (r: Result<(), RenderError>)
    ensures
        r is Ok <==> !engine_returned_null,
        engine_returned_null ==> r == Err::<(), RenderError>(RenderError::ParseError),
{
    if engine_returned_null {
        Err(RenderError::ParseError)
    } else {
        Ok(())
    }
}

} // verus!
