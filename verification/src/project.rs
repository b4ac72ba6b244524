//! The result projector: interprets the flattened record sequence against a
//! fixed table of known path patterns and produces the typed query result.
//! Unknown paths are ignored; group membership of web-translation values is
//! positional, so the records are consumed strictly in document order. Only
//! one encyclopedia alternative is populated: the wiki entry takes priority
//! over the person entity when a document carries both subtrees.

use vstd::prelude::*;
use crate::flatten::{Record, RecordV};
use crate::text::str_eq;

verus! {

/// The custom translation of a query: its kind and its ordered contents.
pub struct CustomTranslation {
    pub kind: Option<String>,
    pub contents: Vec<String>,
}

/// Spec-level image of a custom translation.
pub struct CustomV {
    pub kind: Option<Seq<char>>,
    pub contents: Seq<Seq<char>>,
}

/// One web-translation group: a key and its ordered values.
pub struct WebGroup {
    pub key: String,
    pub values: Vec<String>,
}

/// Spec-level image of a web-translation group.
pub struct GroupV {
    pub key: Seq<char>,
    pub values: Seq<Seq<char>>,
}

/// The encyclopedia entry of a query: a wiki entry or a person entity,
/// mutually exclusive alternatives.
pub enum Encyclopedia {
    Wiki { entry: Option<String>, summary: Option<String> },
    Person { name: Option<String>, nationality: Option<String>, summary: Option<String> },
}

/// Spec-level image of an encyclopedia entry.
pub enum EncycV {
    Wiki { entry: Option<Seq<char>>, summary: Option<Seq<char>> },
    Person {
        name: Option<Seq<char>>,
        nationality: Option<Seq<char>>,
        summary: Option<Seq<char>>,
    },
}

/// The projected, typed view of one query's records. An absent optional
/// field means the corresponding subtree was absent from the document.
pub struct QueryResult {
    pub headword: Option<String>,
    pub phonetic: Option<String>,
    pub custom_translation: Option<CustomTranslation>,
    pub web_translations: Option<Vec<WebGroup>>,
    pub encyclopedia: Option<Encyclopedia>,
}

/// Spec-level image of a query result.
pub struct QueryResultV {
    pub headword: Option<Seq<char>>,
    pub phonetic: Option<Seq<char>>,
    pub custom_translation: Option<CustomV>,
    pub web_translations: Option<Seq<GroupV>>,
    pub encyclopedia: Option<EncycV>,
}

impl View for CustomTranslation {
    type V = CustomV;

    open spec fn view(&self) -> CustomV {
        CustomV { kind: self.kind.deep_view(), contents: self.contents.deep_view() }
    }
}

impl DeepView for CustomTranslation {
    type V = CustomV;

    open spec fn deep_view(&self) -> CustomV {
        self.view()
    }
}

impl View for WebGroup {
    type V = GroupV;

    open spec fn view(&self) -> GroupV {
        GroupV { key: self.key@, values: self.values.deep_view() }
    }
}

impl DeepView for WebGroup {
    type V = GroupV;

    open spec fn deep_view(&self) -> GroupV {
        self.view()
    }
}

impl View for Encyclopedia {
    type V = EncycV;

    open spec fn view(&self) -> EncycV {
        match self {
            Encyclopedia::Wiki { entry, summary } => EncycV::Wiki {
                entry: entry.deep_view(),
                summary: summary.deep_view(),
            },
            Encyclopedia::Person { name, nationality, summary } => EncycV::Person {
                name: name.deep_view(),
                nationality: nationality.deep_view(),
                summary: summary.deep_view(),
            },
        }
    }
}

impl DeepView for Encyclopedia {
    type V = EncycV;

    open spec fn deep_view(&self) -> EncycV {
        self.view()
    }
}

impl View for QueryResult {
    type V = QueryResultV;

    open spec fn view(&self) -> QueryResultV {
        QueryResultV {
            headword: self.headword.deep_view(),
            phonetic: self.phonetic.deep_view(),
            custom_translation: self.custom_translation.deep_view(),
            web_translations: self.web_translations.deep_view(),
            encyclopedia: self.encyclopedia.deep_view(),
        }
    }
}

impl DeepView for QueryResult {
    type V = QueryResultV;

    open spec fn deep_view(&self) -> QueryResultV {
        self.view()
    }
}

/// Path of the headword record.
pub open spec fn headword_path() -> Seq<Seq<char>> {
    seq!["return-phrase"@]
}

/// Path of the phonetic-symbol record.
pub open spec fn phonetic_path() -> Seq<Seq<char>> {
    seq!["phonetic-symbol"@]
}

/// Path prefix of a custom-translation content record.
pub open spec fn content_prefix() -> Seq<Seq<char>> {
    seq!["custom-translation"@, "translation"@, "content"@]
}

/// Path of the custom-translation kind record.
pub open spec fn kind_path() -> Seq<Seq<char>> {
    seq!["custom-translation"@, "type"@]
}

/// Path prefix of the web-translation subtree.
pub open spec fn web_prefix() -> Seq<Seq<char>> {
    seq!["yodao-web-dict"@, "web-translation"@]
}

/// Path prefix of the wiki-entry subtree.
pub open spec fn wiki_prefix() -> Seq<Seq<char>> {
    seq!["wand-result"@, "wand"@, "entity"@, "wiki-entry"@]
}

/// Path prefix of the person-entity subtree.
pub open spec fn person_prefix() -> Seq<Seq<char>> {
    seq!["wand-result"@, "wand"@, "entity"@, "person-data"@]
}

/// Whether `p` is non-empty and ends in segment `s`.
pub open spec fn last_seg_is(p: Seq<Seq<char>>, s: Seq<char>) -> bool {
    p.len() > 0 && p.last() == s
}

/// The projection state while the records are consumed: every candidate
/// field, and the open web-translation groups in document order.
pub struct ProjState {
    pub headword: Option<Seq<char>>,
    pub phonetic: Option<Seq<char>>,
    pub kind: Option<Seq<char>>,
    pub contents: Seq<Seq<char>>,
    pub groups: Seq<GroupV>,
    pub wiki_entry: Option<Seq<char>>,
    pub wiki_summary: Option<Seq<char>>,
    pub person_name: Option<Seq<char>>,
    pub person_nationality: Option<Seq<char>>,
    pub person_summary: Option<Seq<char>>,
}

/// The projection state before the first record.
pub open spec fn init_proj() -> ProjState {
    ProjState {
        headword: None,
        phonetic: None,
        kind: None,
        contents: Seq::empty(),
        groups: Seq::empty(),
        wiki_entry: None,
        wiki_summary: None,
        person_name: None,
        person_nationality: None,
        person_summary: None,
    }
}

/// The state after consuming one record. A `key` record opens a new group;
/// a `value` record extends the most recently opened group and is a no-op
/// when no group is open yet; a record whose path matches nothing is
/// ignored.
pub open spec fn project_step(st: ProjState, rec: RecordV) -> ProjState {
    let p = rec.path;
    let t = rec.text;
    if p == headword_path() {
        ProjState { headword: Some(t), ..st }
    } else if p == phonetic_path() {
        ProjState { phonetic: Some(t), ..st }
    } else if content_prefix().is_prefix_of(p) {
        ProjState { contents: st.contents.push(t), ..st }
    } else if p == kind_path() {
        ProjState { kind: Some(t), ..st }
    } else if web_prefix().is_prefix_of(p) && last_seg_is(p, "key"@) {
        ProjState { groups: st.groups.push(GroupV { key: t, values: Seq::empty() }), ..st }
    } else if web_prefix().is_prefix_of(p) && last_seg_is(p, "value"@) {
        if st.groups.len() > 0 {
            let g = st.groups.last();
            ProjState {
                groups: st.groups.update(
                    st.groups.len() - 1,
                    GroupV { key: g.key, values: g.values.push(t) },
                ),
                ..st
            }
        } else {
            st
        }
    } else if wiki_prefix().is_prefix_of(p) && last_seg_is(p, "entry"@) {
        ProjState { wiki_entry: Some(t), ..st }
    } else if wiki_prefix().is_prefix_of(p) && last_seg_is(p, "summary"@) {
        ProjState { wiki_summary: Some(t), ..st }
    } else if person_prefix().is_prefix_of(p) && last_seg_is(p, "name"@) {
        ProjState { person_name: Some(t), ..st }
    } else if person_prefix().is_prefix_of(p) && last_seg_is(p, "nationality"@) {
        ProjState { person_nationality: Some(t), ..st }
    } else if person_prefix().is_prefix_of(p) && last_seg_is(p, "summary"@) {
        ProjState { person_summary: Some(t), ..st }
    } else {
        st
    }
}

/// Consumes the records in document order.
pub open spec fn run_project(recs: Seq<RecordV>, st: ProjState) -> ProjState
    decreases recs.len(),
{
    if recs.len() == 0 {
        st
    } else {
        run_project(recs.drop_first(), project_step(st, recs[0]))
    }
}

/// The typed result of a final projection state: a candidate section is
/// present exactly when some record of its subtree was seen, and the wiki
/// alternative of the encyclopedia takes priority over the person entity.
pub open spec fn finish_spec(st: ProjState) -> QueryResultV {
    QueryResultV {
        headword: st.headword,
        phonetic: st.phonetic,
        custom_translation: if st.kind is Some || st.contents.len() > 0 {
            Some(CustomV { kind: st.kind, contents: st.contents })
        } else {
            None
        },
        web_translations: if st.groups.len() > 0 {
            Some(st.groups)
        } else {
            None
        },
        encyclopedia: if st.wiki_entry is Some || st.wiki_summary is Some {
            Some(EncycV::Wiki { entry: st.wiki_entry, summary: st.wiki_summary })
        } else if st.person_name is Some || st.person_nationality is Some
            || st.person_summary is Some {
            Some(
                EncycV::Person {
                    name: st.person_name,
                    nationality: st.person_nationality,
                    summary: st.person_summary,
                },
            )
        } else {
            None
        },
    }
}

/// The typed result of projecting a record sequence.
pub open spec fn project_spec(recs: Seq<RecordV>) -> QueryResultV {
    finish_spec(run_project(recs, init_proj()))
}

/// A key record under the web-translation subtree starts a new group,
/// after all existing groups and with no values yet; every earlier group
/// is unchanged.
pub proof fn lemma_key_starts_group(st: ProjState, rec: RecordV)
    requires
        web_prefix().is_prefix_of(rec.path),
        last_seg_is(rec.path, "key"@),
    ensures
        project_step(st, rec).groups == st.groups.push(
            GroupV { key: rec.text, values: Seq::empty() },
        ),
{
    reveal_strlit("custom-translation");
    reveal_strlit("yodao-web-dict");
    assert(rec.path[0] == "yodao-web-dict"@);
}

/// A value record under the web-translation subtree extends only the most
/// recently opened group: earlier groups and their values are unchanged,
/// and with no open group the record is a no-op. Values never leak across
/// a key boundary.
pub proof fn lemma_value_extends_last_group(st: ProjState, rec: RecordV)
    requires
        web_prefix().is_prefix_of(rec.path),
        last_seg_is(rec.path, "value"@),
    ensures
        st.groups.len() == 0 ==> project_step(st, rec) == st,
        st.groups.len() > 0 ==> {
            &&& project_step(st, rec).groups.len() == st.groups.len()
            &&& project_step(st, rec).groups.last().key == st.groups.last().key
            &&& project_step(st, rec).groups.last().values == st.groups.last().values.push(
                rec.text,
            )
            &&& forall|i: int|
                0 <= i < st.groups.len() - 1 ==> project_step(st, rec).groups[i] == st.groups[i]
        },
{
    reveal_strlit("custom-translation");
    reveal_strlit("yodao-web-dict");
    reveal_strlit("key");
    reveal_strlit("value");
    assert(rec.path[0] == "yodao-web-dict"@);
    assert("key"@.len() == 3);
    assert("value"@.len() == 5);
    assert(rec.path.last() != "key"@);
}

/// Whether segment `i` of `p` is the text `name`.
fn seg_is(p: &Vec<String>, i: usize, name: &str) -> (b: bool)
    requires
        i < p@.len(),
    ensures
        b == (p.deep_view()[i as int] == name@),
{
    proof {
        assert(p.deep_view()[i as int] == p@[i as int]@);
    }
    str_eq(p[i].as_str(), name)
}

/// Whether the path is exactly the one segment `a`.
fn path_is1(p: &Vec<String>, a: &str) -> (b: bool)
    ensures
        b == (p.deep_view() == seq![a@]),
{
    let r = p.len() == 1 && seg_is(p, 0, a);
    proof {
        if r {
            assert(p.deep_view() =~= seq![a@]);
        } else {
            if p.deep_view() == seq![a@] {
                assert(p.deep_view().len() == 1);
                assert(p.deep_view()[0] == a@);
                assert(false);
            }
        }
    }
    r
}

/// Whether the path is exactly the two segments `a`, `b`.
fn path_is2(p: &Vec<String>, a: &str, b: &str) -> (r: bool)
    ensures
        r == (p.deep_view() == seq![a@, b@]),
{
    let r = p.len() == 2 && seg_is(p, 0, a) && seg_is(p, 1, b);
    proof {
        if r {
            assert(p.deep_view() =~= seq![a@, b@]);
        } else {
            if p.deep_view() == seq![a@, b@] {
                assert(p.deep_view().len() == 2);
                assert(p.deep_view()[0] == a@);
                assert(p.deep_view()[1] == b@);
                assert(false);
            }
        }
    }
    r
}

/// Whether the path starts with the two segments `a`, `b`.
fn has_prefix2(p: &Vec<String>, a: &str, b: &str) -> (r: bool)
    ensures
        r == seq![a@, b@].is_prefix_of(p.deep_view()),
{
    let r = p.len() >= 2 && seg_is(p, 0, a) && seg_is(p, 1, b);
    proof {
        if r {
            assert(seq![a@, b@] =~= p.deep_view().subrange(0, 2));
        } else {
            if seq![a@, b@].is_prefix_of(p.deep_view()) {
                assert(p.deep_view().subrange(0, 2)[0] == p.deep_view()[0]);
                assert(p.deep_view().subrange(0, 2)[1] == p.deep_view()[1]);
                assert(false);
            }
        }
    }
    r
}

/// Whether the path starts with the three segments `a`, `b`, `c`.
fn has_prefix3(p: &Vec<String>, a: &str, b: &str, c: &str) -> (r: bool)
    ensures
        r == seq![a@, b@, c@].is_prefix_of(p.deep_view()),
{
    let r = p.len() >= 3 && seg_is(p, 0, a) && seg_is(p, 1, b) && seg_is(p, 2, c);
    proof {
        if r {
            assert(seq![a@, b@, c@] =~= p.deep_view().subrange(0, 3));
        } else {
            if seq![a@, b@, c@].is_prefix_of(p.deep_view()) {
                assert(p.deep_view().subrange(0, 3)[0] == p.deep_view()[0]);
                assert(p.deep_view().subrange(0, 3)[1] == p.deep_view()[1]);
                assert(p.deep_view().subrange(0, 3)[2] == p.deep_view()[2]);
                assert(false);
            }
        }
    }
    r
}

/// Whether the path starts with the four segments `a`, `b`, `c`, `d`.
fn has_prefix4(p: &Vec<String>, a: &str, b: &str, c: &str, d: &str) -> (r: bool)
    ensures
        r == seq![a@, b@, c@, d@].is_prefix_of(p.deep_view()),
{
    let r = p.len() >= 4 && seg_is(p, 0, a) && seg_is(p, 1, b) && seg_is(p, 2, c) && seg_is(
        p,
        3,
        d,
    );
    proof {
        if r {
            assert(seq![a@, b@, c@, d@] =~= p.deep_view().subrange(0, 4));
        } else {
            if seq![a@, b@, c@, d@].is_prefix_of(p.deep_view()) {
                assert(p.deep_view().subrange(0, 4)[0] == p.deep_view()[0]);
                assert(p.deep_view().subrange(0, 4)[1] == p.deep_view()[1]);
                assert(p.deep_view().subrange(0, 4)[2] == p.deep_view()[2]);
                assert(p.deep_view().subrange(0, 4)[3] == p.deep_view()[3]);
                assert(false);
            }
        }
    }
    r
}

/// Whether the path is non-empty and ends in segment `name`.
fn last_is(p: &Vec<String>, name: &str) -> (r: bool)
    ensures
        r == last_seg_is(p.deep_view(), name@),
{
    if p.len() == 0 {
        return false;
    }
    let r = seg_is(p, p.len() - 1, name);
    proof {
        assert(p.deep_view().last() == p.deep_view()[p@.len() - 1]);
    }
    r
}

/// The running projection, one field per candidate of the typed result.
struct Projector {
    headword: Option<String>,
    phonetic: Option<String>,
    kind: Option<String>,
    contents: Vec<String>,
    groups: Vec<WebGroup>,
    wiki_entry: Option<String>,
    wiki_summary: Option<String>,
    person_name: Option<String>,
    person_nationality: Option<String>,
    person_summary: Option<String>,
}

impl View for Projector {
    type V = ProjState;

    closed spec fn view(&self) -> ProjState {
        ProjState {
            headword: self.headword.deep_view(),
            phonetic: self.phonetic.deep_view(),
            kind: self.kind.deep_view(),
            contents: self.contents.deep_view(),
            groups: self.groups.deep_view(),
            wiki_entry: self.wiki_entry.deep_view(),
            wiki_summary: self.wiki_summary.deep_view(),
            person_name: self.person_name.deep_view(),
            person_nationality: self.person_nationality.deep_view(),
            person_summary: self.person_summary.deep_view(),
        }
    }
}

impl Projector {
    /// The projection state before the first record.
    fn new() -> (pr: Projector)
        ensures
            pr@ == init_proj(),
    {
        let pr = Projector {
            headword: None,
            phonetic: None,
            kind: None,
            contents: Vec::new(),
            groups: Vec::new(),
            wiki_entry: None,
            wiki_summary: None,
            person_name: None,
            person_nationality: None,
            person_summary: None,
        };
        proof {
            assert(pr.contents.deep_view() =~= Seq::<Seq<char>>::empty());
            assert(pr.groups.deep_view() =~= Seq::<GroupV>::empty());
        }
        pr
    }

    /// Consumes one record.
    fn absorb(&mut self, rec: &Record)
        ensures
            final(self)@ == project_step(old(self)@, rec@),
    {
        if path_is1(&rec.path, "return-phrase") {
            self.headword = Some(rec.text.clone());
        } else if path_is1(&rec.path, "phonetic-symbol") {
            self.phonetic = Some(rec.text.clone());
        } else if has_prefix3(&rec.path, "custom-translation", "translation", "content") {
            let ghost old_c = self.contents.deep_view();
            self.contents.push(rec.text.clone());
            proof {
                assert(self.contents.deep_view() =~= old_c.push(rec.text@));
            }
        } else if path_is2(&rec.path, "custom-translation", "type") {
            self.kind = Some(rec.text.clone());
        } else if has_prefix2(&rec.path, "yodao-web-dict", "web-translation") && last_is(
            &rec.path,
            "key",
        ) {
            let ghost old_g = self.groups.deep_view();
            let vals: Vec<String> = Vec::new();
            proof {
                assert(vals.deep_view() =~= Seq::<Seq<char>>::empty());
            }
            self.groups.push(WebGroup { key: rec.text.clone(), values: vals });
            proof {
                assert(self.groups.deep_view() =~= old_g.push(
                    (GroupV { key: rec.text@, values: Seq::empty() }),
                ));
            }
        } else if has_prefix2(&rec.path, "yodao-web-dict", "web-translation") && last_is(
            &rec.path,
            "value",
        ) {
            if self.groups.len() > 0 {
                let ghost old_g = self.groups.deep_view();
                match self.groups.pop() {
                    Some(mut g) => {
                        g.values.push(rec.text.clone());
                        let ghost gv = GroupV { key: g.key@, values: g.values.deep_view() };
                        self.groups.push(g);
                        proof {
                            assert(gv.key == old_g.last().key);
                            assert(gv.values =~= old_g.last().values.push(rec.text@));
                            assert(self.groups.deep_view() =~= old_g.update(
                                old_g.len() - 1,
                                gv,
                            ));
                        }
                    },
                    None => {},
                }
            }
        } else if has_prefix4(&rec.path, "wand-result", "wand", "entity", "wiki-entry")
            && last_is(&rec.path, "entry") {
            self.wiki_entry = Some(rec.text.clone());
        } else if has_prefix4(&rec.path, "wand-result", "wand", "entity", "wiki-entry")
            && last_is(&rec.path, "summary") {
            self.wiki_summary = Some(rec.text.clone());
        } else if has_prefix4(&rec.path, "wand-result", "wand", "entity", "person-data")
            && last_is(&rec.path, "name") {
            self.person_name = Some(rec.text.clone());
        } else if has_prefix4(&rec.path, "wand-result", "wand", "entity", "person-data")
            && last_is(&rec.path, "nationality") {
            self.person_nationality = Some(rec.text.clone());
        } else if has_prefix4(&rec.path, "wand-result", "wand", "entity", "person-data")
            && last_is(&rec.path, "summary") {
            self.person_summary = Some(rec.text.clone());
        }
    }

    /// The typed result of the final state.
    fn finish(self) -> (q: QueryResult)
        ensures
            q@ == finish_spec(self@),
    {
        let custom = if self.kind.is_some() || self.contents.len() > 0 {
            Some(CustomTranslation { kind: self.kind, contents: self.contents })
        } else {
            None
        };
        let web = if self.groups.len() > 0 {
            Some(self.groups)
        } else {
            None
        };
        let encyclopedia = if self.wiki_entry.is_some() || self.wiki_summary.is_some() {
            Some(Encyclopedia::Wiki { entry: self.wiki_entry, summary: self.wiki_summary })
        } else if self.person_name.is_some() || self.person_nationality.is_some()
            || self.person_summary.is_some() {
            Some(
                Encyclopedia::Person {
                    name: self.person_name,
                    nationality: self.person_nationality,
                    summary: self.person_summary,
                },
            )
        } else {
            None
        };
        QueryResult {
            headword: self.headword,
            phonetic: self.phonetic,
            custom_translation: custom,
            web_translations: web,
            encyclopedia,
        }
    }
}

/// Projects the flattened records, in document order, into the typed
/// query result. Pure and total: unmatched or absent paths leave the
/// corresponding optional field unset.
pub fn project(records: &Vec<Record>) -> (q: QueryResult)
    ensures
        q@ == project_spec(records.deep_view()),
{
    let mut pr = Projector::new();
    let ghost dv = records.deep_view();
    let mut i: usize = 0;
    proof {
        assert(dv.skip(0) =~= dv);
    }
    while i < records.len()
        invariant
            0 <= i <= records@.len(),
            dv == records.deep_view(),
            dv.len() == records@.len(),
            run_project(dv.skip(i as int), pr@) == run_project(dv, init_proj()),
        decreases records@.len() - i,
    {
        proof {
            assert(dv.skip(i as int)[0] == dv[i as int]);
            assert(dv.skip(i as int).drop_first() =~= dv.skip(i + 1));
            assert(dv[i as int] == records@[i as int]@);
        }
        pr.absorb(&records[i]);
        i = i + 1;
    }
    proof {
        assert(dv.skip(records@.len() as int) =~= Seq::<RecordV>::empty());
    }
    pr.finish()
}

} // verus!
