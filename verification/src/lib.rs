//! Dictionary lookup core: flattens a loosely-schematized markup document
//! into an ordered record sequence, projects the records into a typed query
//! result, and renders the result as titled text sections. The network
//! fetch and the terminal output stay outside; this crate turns the raw
//! response text into the report lines.

use vstd::prelude::*;

pub mod events;
pub mod flatten;
pub mod project;
pub mod query;
pub mod render;
pub mod text;

use crate::flatten::{flatten, flatten_spec, ParseError};
use crate::project::{project, project_spec, QueryResultV};
use crate::render::render_spec;

verus! {

/// Reserved trailing path segment: the text of such an element is folded,
/// parenthesized, into the previously emitted record.
pub open spec fn merge_marker() -> Seq<char> {
    "cl"@
}

/// The document-root element name of the dictionary's responses. It wraps
/// all other elements and never contributes a path segment.
pub open spec fn root_element_spec() -> Seq<char> {
    "yodaodict"@
}

/// The document-root element name of the dictionary's responses.
pub fn root_element() -> (s: &'static str)
    ensures
        s@ == root_element_spec(),
{
    "yodaodict"
}

/// The typed result of one raw response text: flattening, then projection;
/// `None` exactly on a malformed document.
pub open spec fn pipeline_result_spec(s: Seq<char>) -> Option<QueryResultV> {
    match flatten_spec(s, root_element_spec()) {
        Some(recs) => Some(project_spec(recs)),
        None => None,
    }
}

/// The rendered report of one raw response text, or `None` exactly on a
/// malformed document.
pub open spec fn report_spec(s: Seq<char>) -> Option<Seq<Seq<char>>> {
    match pipeline_result_spec(s) {
        Some(q) => Some(render_spec(q)),
        None => None,
    }
}

/// Flattening followed by projection is deterministic: identical input
/// text yields an identical typed result, field for field, and likewise
/// an identical report.
pub proof fn lemma_pipeline_deterministic(s1: Seq<char>, s2: Seq<char>)
    requires
        s1 == s2,
    ensures
        pipeline_result_spec(s1) == pipeline_result_spec(s2),
        report_spec(s1) == report_spec(s2),
{
}

/// Turns one raw response text into the rendered report lines: flatten,
/// project, render. Fails exactly on a malformed document, and the
/// projection and the rendering are then never reached.
pub fn search_word(xml: &str) -> (res: Result<Vec<String>, ParseError>)
    ensures
        match res {
            Ok(lines) => report_spec(xml@) == Some(lines.deep_view()),
            Err(_) => report_spec(xml@) is None,
        },
{
    match flatten(xml, root_element()) {
        Ok(recs) => {
            let q = project(&recs);
            Ok(q.print_to_stdio())
        },
        Err(e) => Err(e),
    }
}

} // verus!
