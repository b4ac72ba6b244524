//! The parse-event boundary: the markup reader of the `quick_xml` crate is
//! driven one event at a time, and each event is converted to a plain value
//! of this crate. The event stream of a given input text is deterministic,
//! so it is given a name (`xml_events`) that the flattener's contract and
//! the pipeline's determinism law are stated over.

use vstd::prelude::*;
use quick_xml::Reader;
use quick_xml::events::Event;

verus! {

/// Spec-level image of one parse event.
pub enum EventV {
    /// A start tag, with the element's local name.
    Open(Seq<char>),
    /// An end tag, with the element's local name.
    Close(Seq<char>),
    /// An empty element tag (`<a/>`), with its local name.
    EmptyElem(Seq<char>),
    /// Ordinary character content between tags.
    Text(Seq<char>),
    /// Literal character data (`<![CDATA[...]]>`).
    Literal(Seq<char>),
    /// A general reference (`&name;`), with the name between `&` and `;`.
    Ref(Seq<char>),
    /// Markup without addressable content: a comment, a declaration,
    /// a processing instruction, or document-type data.
    Skip,
    /// End of the input text.
    Eof,
    /// A syntax error; no further event follows it.
    Malformed,
}

/// One parse event, as handed out by the reader wrapper.
pub enum RawEvent {
    Open(String),
    Close(String),
    EmptyElem(String),
    Text(String),
    Literal(String),
    Ref(String),
    Skip,
    Eof,
    Malformed,
}

impl View for RawEvent {
    type V = EventV;

    open spec fn view(&self) -> EventV {
        match self {
            RawEvent::Open(s) => EventV::Open(s@),
            RawEvent::Close(s) => EventV::Close(s@),
            RawEvent::EmptyElem(s) => EventV::EmptyElem(s@),
            RawEvent::Text(s) => EventV::Text(s@),
            RawEvent::Literal(s) => EventV::Literal(s@),
            RawEvent::Ref(s) => EventV::Ref(s@),
            RawEvent::Skip => EventV::Skip,
            RawEvent::Eof => EventV::Eof,
            RawEvent::Malformed => EventV::Malformed,
        }
    }
}

/// A terminal event ends the stream: end of input, or a syntax error.
pub open spec fn is_terminal(e: EventV) -> bool {
    e is Eof || e is Malformed
}

/// A stream is well formed when it ends with its one terminal event.
pub open spec fn well_formed_stream(evs: Seq<EventV>) -> bool {
    &&& evs.len() > 0
    &&& is_terminal(evs.last())
    &&& forall|i: int| 0 <= i < evs.len() - 1 ==> !is_terminal(#[trigger] evs[i])
}

/// The event sequence that parsing the text `s` yields, in document order,
/// up to and including the first terminal event. Parsing is a function of
/// the input text alone, so the sequence bears a name rather than a
/// definition.
pub uninterp spec fn xml_events(s: Seq<char>) -> Seq<EventV>;

/// The events that a reader will still yield, in order, up to and
/// including the first terminal event.
pub uninterp spec fn reader_events(r: Reader<&[u8]>) -> Seq<EventV>;

#[verifier::external_type_specification]
#[verifier::external_body]
#[verifier::reject_recursive_types(R)]
pub struct ExReader<R>(Reader<R>);

/// Relies on `quick_xml::Reader::from_str`: the reader parses exactly the
/// given text, deterministically, so its pending events are `xml_events`
/// of that text; the stream ends with `Eof`, or earlier with the first
/// syntax error.
#[verifier::external_body]
pub fn reader_from_str<'s>(s: &'s str) -> (r: Reader<&'s [u8]>)
    ensures
        reader_events(r) == xml_events(s@),
        well_formed_stream(reader_events(r)),
{
    Reader::from_str(s)
}

/// Relies on `quick_xml::Reader::read_event`: each call yields the next
/// pending event; element names are handed out as local names, text,
/// literal and reference content with end-of-line normalization, and any
/// syntax error as the terminal `Malformed`.
#[verifier::external_body]
pub fn read_raw_event(r: &mut Reader<&[u8]>) -> (ev: RawEvent)
    requires
        reader_events(*old(r)).len() > 0,
    ensures
        ev@ == reader_events(*old(r))[0],
        reader_events(*final(r)) == reader_events(*old(r)).drop_first(),
{
    match r.read_event() {
        Ok(Event::Start(e)) => RawEvent::Open(e.local_name().into_inner().to_owned()),
        Ok(Event::End(e)) => RawEvent::Close(e.local_name().into_inner().to_owned()),
        Ok(Event::Empty(e)) => RawEvent::EmptyElem(e.local_name().into_inner().to_owned()),
        Ok(Event::Text(t)) => RawEvent::Text(t.xml10_content().into_owned()),
        Ok(Event::CData(c)) => RawEvent::Literal(c.xml10_content().into_owned()),
        Ok(Event::GeneralRef(g)) => RawEvent::Ref(g.xml10_content().into_owned()),
        Ok(Event::Eof) => RawEvent::Eof,
        Ok(_) => RawEvent::Skip,
        Err(_) => RawEvent::Malformed,
    }
}

} // verus!
