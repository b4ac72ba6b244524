//! The markup flattener: converts the parse-event stream of a document into
//! an ordered sequence of `(path, text)` records. An explicit path stack
//! addresses each element; the designated document-root element is never
//! pushed. Character text is trimmed and buffered apart from literal data;
//! on element close the two are composed, and an element whose path ends in
//! the merge marker folds its text, parenthesized, into the previously
//! emitted record instead of emitting a new one.

use vstd::prelude::*;
use vstd::string::StringExecFns;
use crate::events::{EventV, RawEvent, is_terminal, well_formed_stream, xml_events,
    reader_events, reader_from_str, read_raw_event};
use crate::text::{trim_spec, trim_ws, str_eq, all_ws, lemma_trim_all_ws_empty};
use crate::merge_marker;

verus! {

/// A record emitted by the flattener: the path of element names that
/// addresses a position in the document, and the element's composed text.
pub struct Record {
    pub path: Vec<String>,
    pub text: String,
}

/// Spec-level image of a record.
pub struct RecordV {
    pub path: Seq<Seq<char>>,
    pub text: Seq<char>,
}

impl View for Record {
    type V = RecordV;

    open spec fn view(&self) -> RecordV {
        RecordV { path: self.path.deep_view(), text: self.text@ }
    }
}

impl DeepView for Record {
    type V = RecordV;

    open spec fn deep_view(&self) -> RecordV {
        self.view()
    }
}

/// A syntax error in the source document. The flattener surfaces it and
/// discards any partially produced records.
#[derive(Debug, Clone, Copy, PartialEq, Eq)]
pub struct ParseError;

/// The flattener's state between two events.
pub struct FlatState {
    /// The open path, the document-root element excluded.
    pub stack: Seq<Seq<char>>,
    /// The number of open elements, the document-root element included.
    pub depth: nat,
    /// Buffered literal data of the current element.
    pub lit: Seq<char>,
    /// Buffered (trimmed) character text of the current element.
    pub chr: Seq<char>,
    /// The records emitted so far, in document order.
    pub out: Seq<RecordV>,
}

/// The state before the first event.
pub open spec fn init_state() -> FlatState {
    FlatState {
        stack: Seq::empty(),
        depth: 0,
        lit: Seq::empty(),
        chr: Seq::empty(),
        out: Seq::empty(),
    }
}

/// The replacement text of a general reference: the five predefined
/// references resolve, every other one is a parse error.
pub open spec fn resolve_ref_spec(name: Seq<char>) -> Option<Seq<char>> {
    if name == "lt"@ {
        Some("<"@)
    } else if name == "gt"@ {
        Some(">"@)
    } else if name == "amp"@ {
        Some("&"@)
    } else if name == "apos"@ {
        Some("'"@)
    } else if name == "quot"@ {
        Some("\""@)
    } else {
        None
    }
}

/// The state after closing element `n`: the buffered text is composed,
/// literal data first; an empty composition emits nothing; a path ending
/// in the merge marker folds the text, parenthesized, into the last
/// emitted record (or discards it when no record exists yet); any other
/// non-empty text becomes a new record for the current path. Both buffers
/// reset, and the path pops unless the closing element is the root.
pub open spec fn close_step(st: FlatState, n: Seq<char>, root: Seq<char>) -> FlatState {
    let text = st.lit + st.chr;
    let out = if text.len() == 0 {
        st.out
    } else if st.stack.len() > 0 && st.stack.last() == merge_marker() {
        if st.out.len() > 0 {
            let prev = st.out.last();
            st.out.update(
                st.out.len() - 1,
                RecordV { path: prev.path, text: prev.text + "("@ + text + ")"@ },
            )
        } else {
            st.out
        }
    } else {
        st.out.push(RecordV { path: st.stack, text })
    };
    FlatState {
        stack: if n == root || st.stack.len() == 0 {
            st.stack
        } else {
            st.stack.drop_last()
        },
        depth: if st.depth > 0 {
            (st.depth - 1) as nat
        } else {
            0
        },
        lit: Seq::empty(),
        chr: Seq::empty(),
        out,
    }
}

/// The state after one non-terminal event, or `None` on an unresolvable
/// reference. A root-named start tag opens depth but is not pushed onto
/// the path; character text is trimmed before buffering, literal data is
/// buffered untrimmed.
pub open spec fn flat_step(st: FlatState, ev: EventV, root: Seq<char>) -> Option<FlatState> {
    match ev {
        EventV::Open(n) => Some(
            FlatState {
                stack: if n == root {
                    st.stack
                } else {
                    st.stack.push(n)
                },
                depth: st.depth + 1,
                ..st
            },
        ),
        EventV::Close(n) => Some(close_step(st, n, root)),
        EventV::Text(t) => Some(FlatState { chr: st.chr + trim_spec(t), ..st }),
        EventV::Literal(t) => Some(FlatState { lit: st.lit + t, ..st }),
        EventV::Ref(name) => match resolve_ref_spec(name) {
            Some(t) => Some(FlatState { chr: st.chr + t, ..st }),
            None => None,
        },
        EventV::EmptyElem(_) => Some(st),
        EventV::Skip => Some(st),
        EventV::Eof => None,
        EventV::Malformed => None,
    }
}

/// Runs the flattener over an event stream from state `st`: a syntax
/// error yields `None`; end of input yields the emitted records, provided
/// every element was closed.
pub open spec fn run_events(evs: Seq<EventV>, st: FlatState, root: Seq<char>) -> Option<
    Seq<RecordV>,
>
    decreases evs.len(),
{
    if evs.len() == 0 {
        None
    } else {
        match evs[0] {
            EventV::Malformed => None,
            EventV::Eof => if st.depth == 0 {
                Some(st.out)
            } else {
                None
            },
            _ => match flat_step(st, evs[0], root) {
                Some(st2) => run_events(evs.drop_first(), st2, root),
                None => None,
            },
        }
    }
}

/// The records that flattening the text `s` yields, or `None` on a
/// malformed document.
pub open spec fn flatten_spec(s: Seq<char>, root: Seq<char>) -> Option<Seq<RecordV>> {
    run_events(xml_events(s), init_state(), root)
}

/// Closing a merge-marker element with non-empty text after at least one
/// emitted record rewrites the last record in place: its path stays, its
/// text gains the parenthesized merge text, and no new record appears.
pub proof fn lemma_merge_rewrites_last(st: FlatState, n: Seq<char>, root: Seq<char>)
    requires
        st.stack.len() > 0,
        st.stack.last() == merge_marker(),
        st.out.len() > 0,
        (st.lit + st.chr).len() > 0,
    ensures
        close_step(st, n, root).out.len() == st.out.len(),
        close_step(st, n, root).out.last().path == st.out.last().path,
        close_step(st, n, root).out.last().text == st.out.last().text + "("@ + (st.lit + st.chr)
            + ")"@,
        forall|i: int| 0 <= i < st.out.len() - 1 ==> close_step(st, n, root).out[i] == st.out[i],
{
}

/// Closing a merge-marker element with no prior emitted record leaves the
/// output sequence unchanged, and is no error: flattening steps on.
pub proof fn lemma_merge_without_target_discards(st: FlatState, n: Seq<char>, root: Seq<char>)
    requires
        st.stack.len() > 0,
        st.stack.last() == merge_marker(),
        st.out.len() == 0,
    ensures
        close_step(st, n, root).out == st.out,
        flat_step(st, EventV::Close(n), root) is Some,
{
}

/// An element whose character text is empty or whitespace-only, with no
/// literal data, emits no record when it closes.
pub proof fn lemma_ws_only_text_no_record(
    st: FlatState,
    t: Seq<char>,
    n: Seq<char>,
    root: Seq<char>,
)
    requires
        st.lit.len() == 0,
        st.chr.len() == 0,
        all_ws(t),
    ensures
        match flat_step(st, EventV::Text(t), root) {
            Some(st2) => close_step(st2, n, root).out == st.out,
            None => false,
        },
{
    lemma_trim_all_ws_empty(t);
    let st2 = flat_step(st, EventV::Text(t), root)->Some_0;
    assert(st2.chr =~= Seq::<char>::empty());
    assert(st2.lit + st2.chr =~= Seq::<char>::empty());
}

/// Resolves a predefined general reference, or reports it unresolvable.
fn resolve_ref(name: &String) -> (r: Option<&'static str>)
    ensures
        match r {
            Some(t) => resolve_ref_spec(name@) == Some(t@),
            None => resolve_ref_spec(name@) is None,
        },
{
    if str_eq(name.as_str(), "lt") {
        Some("<")
    } else if str_eq(name.as_str(), "gt") {
        Some(">")
    } else if str_eq(name.as_str(), "amp") {
        Some("&")
    } else if str_eq(name.as_str(), "apos") {
        Some("'")
    } else if str_eq(name.as_str(), "quot") {
        Some("\"")
    } else {
        None
    }
}

/// A copy of a path whose element views are unchanged.
fn clone_path(v: &Vec<String>) -> (r: Vec<String>)
    ensures
        r.deep_view() == v.deep_view(),
{
    let mut r: Vec<String> = Vec::new();
    let mut i: usize = 0;
    while i < v.len()
        invariant
            0 <= i <= v@.len(),
            r@.len() == i,
            forall|k: int| 0 <= k < i ==> r@[k]@ == #[trigger] v@[k]@,
        decreases v@.len() - i,
    {
        r.push(v[i].clone());
        i = i + 1;
    }
    proof {
        assert(r.deep_view() =~= v.deep_view());
    }
    r
}

/// Flattens the markup text `input` into its ordered record sequence.
/// The element named `root` is treated as the document root: it never
/// contributes a path segment. Fails exactly on malformed input, and
/// then returns no partial output.
pub fn flatten(input: &str, root: &str) -> (res: Result<Vec<Record>, ParseError>)
    ensures
        match res {
            Ok(recs) => flatten_spec(input@, root@) == Some(recs.deep_view()),
            Err(_) => flatten_spec(input@, root@) is None,
        },
{
    let mut reader = reader_from_str(input);
    let mut stack: Vec<String> = Vec::new();
    let mut depth: Vec<bool> = Vec::new();
    let mut lit: String = String::new();
    let mut chr: String = String::new();
    let mut out: Vec<Record> = Vec::new();
    proof {
        assert(stack.deep_view() =~= Seq::<Seq<char>>::empty());
        assert(out.deep_view() =~= Seq::<RecordV>::empty());
    }
    loop
        invariant
            well_formed_stream(reader_events(reader)),
            run_events(
                reader_events(reader),
                (FlatState {
                    stack: stack.deep_view(),
                    depth: depth@.len() as nat,
                    lit: lit@,
                    chr: chr@,
                    out: out.deep_view(),
                }),
                root@,
            ) == flatten_spec(input@, root@),
        decreases reader_events(reader).len(),
    {
        let ghost evs = reader_events(reader);
        let ghost st = FlatState {
            stack: stack.deep_view(),
            depth: depth@.len() as nat,
            lit: lit@,
            chr: chr@,
            out: out.deep_view(),
        };
        let ev = read_raw_event(&mut reader);
        let ghost evv = ev@;
        proof {
            if !is_terminal(evv) {
                assert(evs.len() >= 2);
                assert(well_formed_stream(evs.drop_first())) by {
                    assert(evs.drop_first().last() == evs.last());
                    assert(forall|i: int|
                        0 <= i < evs.drop_first().len() - 1 ==> !is_terminal(
                            #[trigger] evs.drop_first()[i],
                        ));
                }
            }
        }
        match ev {
            RawEvent::Malformed => {
                return Err(ParseError);
            },
            RawEvent::Eof => {
                if depth.len() == 0 {
                    return Ok(out);
                } else {
                    return Err(ParseError);
                }
            },
            RawEvent::Open(n) => {
                depth.push(true);
                if !str_eq(n.as_str(), root) {
                    let ghost old_dv = stack.deep_view();
                    let ghost nv = n@;
                    stack.push(n);
                    proof {
                        assert(stack.deep_view() =~= old_dv.push(nv));
                    }
                }
                proof {
                    assert(flat_step(st, evv, root@) == Some(
                        FlatState {
                            stack: stack.deep_view(),
                            depth: depth@.len() as nat,
                            lit: lit@,
                            chr: chr@,
                            out: out.deep_view(),
                        },
                    ));
                }
            },
            RawEvent::Close(n) => {
                let composed = lit.clone().concat(chr.as_str());
                if !composed.as_str().is_empty() {
                    let merge = stack.len() > 0 && str_eq(
                        stack[stack.len() - 1].as_str(),
                        "cl",
                    );
                    if merge && out.len() > 0 {
                        let ghost old_out_dv = out.deep_view();
                        match out.pop() {
                            Some(mut prev) => {
                                prev.text.append("(");
                                prev.text.append(composed.as_str());
                                prev.text.append(")");
                                let ghost newtext = prev.text@;
                                let ghost newpath = prev.path.deep_view();
                                out.push(prev);
                                proof {
                                    assert(newpath == old_out_dv.last().path);
                                    assert(newtext =~= old_out_dv.last().text + "("@ + composed@
                                        + ")"@);
                                    assert(out.deep_view() =~= old_out_dv.update(
                                        old_out_dv.len() - 1,
                                        (RecordV { path: newpath, text: newtext }),
                                    ));
                                }
                            },
                            None => {},
                        }
                    } else if merge {
                        // no prior record: the classification text is discarded
                    } else {
                        let path = clone_path(&stack);
                        let ghost old_out_dv = out.deep_view();
                        let ghost newrec = RecordV { path: path.deep_view(), text: composed@ };
                        out.push(Record { path, text: composed });
                        proof {
                            assert(out.deep_view() =~= old_out_dv.push(newrec));
                            assert(newrec == (RecordV { path: st.stack, text: st.lit + st.chr }));
                        }
                    }
                }
                lit = String::new();
                chr = String::new();
                if depth.len() > 0 {
                    let _ = depth.pop();
                }
                if !str_eq(n.as_str(), root) {
                    if stack.len() > 0 {
                        let ghost old_dv = stack.deep_view();
                        let _ = stack.pop();
                        proof {
                            assert(stack.deep_view() =~= old_dv.drop_last());
                        }
                    }
                }
                proof {
                    assert(close_step(st, n@, root@) == (FlatState {
                        stack: stack.deep_view(),
                        depth: depth@.len() as nat,
                        lit: lit@,
                        chr: chr@,
                        out: out.deep_view(),
                    }));
                }
            },
            RawEvent::Text(t) => {
                let trimmed = trim_ws(t.as_str());
                chr.append(trimmed.as_str());
            },
            RawEvent::Literal(t) => {
                lit.append(t.as_str());
            },
            RawEvent::Ref(name) => {
                match resolve_ref(&name) {
                    Some(t) => {
                        chr.append(t);
                    },
                    None => {
                        return Err(ParseError);
                    },
                }
            },
            RawEvent::EmptyElem(_) => {
            },
            RawEvent::Skip => {
            },
        }
    }
}

} // verus!
