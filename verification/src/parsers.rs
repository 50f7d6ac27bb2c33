//! The input boundary: a parser turns one input source into rows, columns
//! and per-row parse errors. The concrete CSV tokenizer lives outside the
//! library.

use vstd::prelude::*;

use crate::models::{InputSource, ParseError, ParsedContent};

verus! {

/// What the orchestrator needs from an input parser. A parser may fail for
/// a whole source; a parsed source is well-formed: it never hands over more
/// rows than it counted as parsed.
pub trait InputService {
    /// Parses one source into its content.
    fn parse(&self, input: InputSource) -> (r: Result<ParsedContent, ParseError>)
        ensures
            r matches Ok(pc) ==> pc.wf(),
    ;
}

} // verus!
