//! The section renderer: turns a typed query result into the ordered,
//! formatted report lines. The order is fixed: the headword and phonetic
//! line, then a titled section each for the custom translation, the web
//! translations and the encyclopedia entry. An unset optional field
//! suppresses its whole section, title included.

use vstd::prelude::*;
use vstd::string::StringExecFns;
use crate::project::{QueryResult, QueryResultV, CustomV, GroupV, EncycV, WebGroup,
    CustomTranslation, Encyclopedia};
use crate::text::{center_spec, center, join_spec, join_semi};

verus! {

/// A section title line: the title centered to eight characters between
/// two rules of eight equals signs.
pub open spec fn title_line_spec(t: Seq<char>) -> Seq<char> {
    "========"@ + center_spec(t, 8) + "========"@
}

/// The headword line: two spaces and the headword, then two spaces and
/// the bracketed phonetic symbol; either part is empty when unset.
pub open spec fn basic_line_spec(q: QueryResultV) -> Seq<char> {
    (match q.headword {
        Some(h) => "  "@ + h,
        None => Seq::empty(),
    }) + (match q.phonetic {
        Some(p) => "  ["@ + p + "]"@,
        None => Seq::empty(),
    })
}

/// Each content string on its own line, indented by two spaces.
pub open spec fn content_lines_spec(cs: Seq<Seq<char>>) -> Seq<Seq<char>> {
    Seq::new(cs.len(), |i: int| "  "@ + cs[i])
}

/// The custom-translation section: title, one line per content string,
/// and a closing blank line; empty when the field is unset.
pub open spec fn translation_lines_spec(c: Option<CustomV>) -> Seq<Seq<char>> {
    match c {
        None => Seq::empty(),
        Some(cv) => seq![title_line_spec("Translation"@)] + content_lines_spec(cv.contents)
            + seq![Seq::<char>::empty()],
    }
}

/// One web-translation group: its key line, then its values joined with
/// `"; "` on one indented line.
pub open spec fn group_lines_spec(g: GroupV) -> Seq<Seq<char>> {
    seq![g.key, "  "@ + join_spec(g.values)]
}

/// All web-translation groups in order, a blank line between neighbours.
pub open spec fn web_groups_lines_spec(gs: Seq<GroupV>) -> Seq<Seq<char>>
    decreases gs.len(),
{
    if gs.len() == 0 {
        Seq::empty()
    } else if gs.len() == 1 {
        group_lines_spec(gs[0])
    } else {
        web_groups_lines_spec(gs.drop_last()) + seq![Seq::<char>::empty()] + group_lines_spec(
            gs.last(),
        )
    }
}

/// The web-translation section: title, the groups, and a closing blank
/// line; empty when the field is unset.
pub open spec fn web_lines_spec(w: Option<Seq<GroupV>>) -> Seq<Seq<char>> {
    match w {
        None => Seq::empty(),
        Some(gs) => seq![title_line_spec("Web Translation"@)] + web_groups_lines_spec(gs)
            + seq![Seq::<char>::empty()],
    }
}

/// A bracketed heading line for a present text, nothing for an absent one.
pub open spec fn opt_bracket_line(o: Option<Seq<char>>) -> Seq<Seq<char>> {
    match o {
        Some(t) => seq!["[ "@ + t + " ]"@],
        None => Seq::empty(),
    }
}

/// An indented line for a present text, nothing for an absent one.
pub open spec fn opt_indent_line(o: Option<Seq<char>>) -> Seq<Seq<char>> {
    match o {
        Some(t) => seq!["  "@ + t],
        None => Seq::empty(),
    }
}

/// The encyclopedia section: title, then the bracketed entry title and
/// indented summary of a wiki entry, or the bracketed name, indented
/// nationality and indented summary of a person entity, each line present
/// exactly when its field is; a closing blank line. Empty when the field
/// is unset.
pub open spec fn encyc_lines_spec(e: Option<EncycV>) -> Seq<Seq<char>> {
    match e {
        None => Seq::empty(),
        Some(EncycV::Wiki { entry, summary }) => seq![title_line_spec("Encyclopedia"@)]
            + opt_bracket_line(entry) + opt_indent_line(summary) + seq![Seq::<char>::empty()],
        Some(EncycV::Person { name, nationality, summary }) => seq![
            title_line_spec("Encyclopedia"@),
        ] + opt_bracket_line(name) + opt_indent_line(nationality) + opt_indent_line(summary)
            + seq![Seq::<char>::empty()],
    }
}

/// The whole report: the headword line, then each present section.
pub open spec fn render_spec(q: QueryResultV) -> Seq<Seq<char>> {
    seq![basic_line_spec(q)] + translation_lines_spec(q.custom_translation) + web_lines_spec(
        q.web_translations,
    ) + encyc_lines_spec(q.encyclopedia)
}

/// An unset optional field suppresses its whole section, title included:
/// the report consists of exactly the remaining parts.
pub proof fn lemma_unset_section_omitted(q: QueryResultV)
    ensures
        q.custom_translation is None ==> render_spec(q) == seq![basic_line_spec(q)]
            + web_lines_spec(q.web_translations) + encyc_lines_spec(q.encyclopedia),
        q.web_translations is None ==> render_spec(q) == seq![basic_line_spec(q)]
            + translation_lines_spec(q.custom_translation) + encyc_lines_spec(q.encyclopedia),
        q.encyclopedia is None ==> render_spec(q) == seq![basic_line_spec(q)]
            + translation_lines_spec(q.custom_translation) + web_lines_spec(q.web_translations),
        (q.custom_translation is None && q.web_translations is None && q.encyclopedia is None)
            ==> render_spec(q) == seq![basic_line_spec(q)],
{
    if q.custom_translation is None {
        assert(render_spec(q) =~= seq![basic_line_spec(q)] + web_lines_spec(q.web_translations)
            + encyc_lines_spec(q.encyclopedia));
    }
    if q.web_translations is None {
        assert(render_spec(q) =~= seq![basic_line_spec(q)] + translation_lines_spec(
            q.custom_translation,
        ) + encyc_lines_spec(q.encyclopedia));
    }
    if q.encyclopedia is None {
        assert(render_spec(q) =~= seq![basic_line_spec(q)] + translation_lines_spec(
            q.custom_translation,
        ) + web_lines_spec(q.web_translations));
    }
    if q.custom_translation is None && q.web_translations is None && q.encyclopedia is None {
        assert(render_spec(q) =~= seq![basic_line_spec(q)]);
    }
}

/// Formats a section title line.
pub fn title_line(t: &str) -> (r: String)
    ensures
        r@ == title_line_spec(t@),
{
    let mut s = String::from_str("========");
    let c = center(t, 8);
    s.append(c.as_str());
    s.append("========");
    s
}

/// Formats the headword and phonetic-symbol line.
pub fn basic_line(q: &QueryResult) -> (r: String)
    ensures
        r@ == basic_line_spec(q@),
{
    let mut s = String::new();
    match &q.headword {
        Some(h) => {
            s.append("  ");
            s.append(h.as_str());
        },
        None => {},
    }
    match &q.phonetic {
        Some(p) => {
            s.append("  [");
            s.append(p.as_str());
            s.append("]");
        },
        None => {},
    }
    proof {
        assert(s@ =~= basic_line_spec(q@));
    }
    s
}

/// Appends every line of `src` to `dst`, in order.
fn extend_lines(dst: &mut Vec<String>, src: &Vec<String>)
    ensures
        final(dst).deep_view() == old(dst).deep_view() + src.deep_view(),
{
    let mut i: usize = 0;
    while i < src.len()
        invariant
            0 <= i <= src@.len(),
            dst.deep_view() =~= old(dst).deep_view() + src.deep_view().take(i as int),
        decreases src@.len() - i,
    {
        let ghost before = dst.deep_view();
        dst.push(src[i].clone());
        proof {
            assert(dst.deep_view() =~= before.push(src.deep_view()[i as int]));
            assert(dst.deep_view() =~= old(dst).deep_view() + src.deep_view().take(i + 1));
        }
        i = i + 1;
    }
    proof {
        assert(src.deep_view().take(src@.len() as int) =~= src.deep_view());
    }
}

/// Formats the custom-translation section, or nothing when it is unset.
pub fn translation_lines(c: &Option<CustomTranslation>) -> (lines: Vec<String>)
    ensures
        lines.deep_view() == translation_lines_spec(c.deep_view()),
{
    let mut lines: Vec<String> = Vec::new();
    match c {
        None => {
            proof {
                assert(lines.deep_view() =~= translation_lines_spec(c.deep_view()));
            }
        },
        Some(cv) => {
            lines.push(title_line("Translation"));
            let mut i: usize = 0;
            while i < cv.contents.len()
                invariant
                    0 <= i <= cv.contents@.len(),
                    lines.deep_view() =~= seq![title_line_spec("Translation"@)]
                        + content_lines_spec(cv.contents.deep_view().take(i as int)),
                decreases cv.contents@.len() - i,
            {
                let ghost before = lines.deep_view();
                let mut s = String::from_str("  ");
                s.append(cv.contents[i].as_str());
                lines.push(s);
                proof {
                    assert(lines.deep_view() =~= before.push(
                        "  "@ + cv.contents.deep_view()[i as int],
                    ));
                    assert(lines.deep_view() =~= seq![title_line_spec("Translation"@)]
                        + content_lines_spec(cv.contents.deep_view().take(i + 1)));
                }
                i = i + 1;
            }
            lines.push(String::new());
            proof {
                assert(cv.contents.deep_view().take(cv.contents@.len() as int)
                    =~= cv.contents.deep_view());
                assert(lines.deep_view() =~= translation_lines_spec(c.deep_view()));
            }
        },
    }
    lines
}

/// Formats the web-translation section, or nothing when it is unset.
pub fn web_translation_lines(w: &Option<Vec<WebGroup>>) -> (lines: Vec<String>)
    ensures
        lines.deep_view() == web_lines_spec(w.deep_view()),
{
    let mut lines: Vec<String> = Vec::new();
    match w {
        None => {
            proof {
                assert(lines.deep_view() =~= web_lines_spec(w.deep_view()));
            }
        },
        Some(gs) => {
            lines.push(title_line("Web Translation"));
            let ghost gdv = gs.deep_view();
            let mut i: usize = 0;
            while i < gs.len()
                invariant
                    0 <= i <= gs@.len(),
                    gdv == gs.deep_view(),
                    gdv.len() == gs@.len(),
                    lines.deep_view() =~= seq![title_line_spec("Web Translation"@)]
                        + web_groups_lines_spec(gdv.take(i as int)),
                decreases gs@.len() - i,
            {
                let ghost before = lines.deep_view();
                if i > 0 {
                    lines.push(String::new());
                }
                lines.push(gs[i].key.clone());
                let mut vline = String::from_str("  ");
                let joined = join_semi(&gs[i].values);
                vline.append(joined.as_str());
                lines.push(vline);
                proof {
                    let sep: Seq<Seq<char>> = if i > 0 {
                        seq![Seq::<char>::empty()]
                    } else {
                        Seq::empty()
                    };
                    assert(gdv[i as int] == gs@[i as int]@);
                    assert(lines.deep_view() =~= before + sep + group_lines_spec(gdv[i as int]));
                    assert(gdv.take(i + 1).drop_last() =~= gdv.take(i as int));
                    assert(gdv.take(i + 1).last() == gdv[i as int]);
                    assert(lines.deep_view() =~= seq![title_line_spec("Web Translation"@)]
                        + web_groups_lines_spec(gdv.take(i + 1)));
                }
                i = i + 1;
            }
            lines.push(String::new());
            proof {
                assert(gdv.take(gs@.len() as int) =~= gdv);
                assert(lines.deep_view() =~= web_lines_spec(w.deep_view()));
            }
        },
    }
    lines
}

/// Formats the encyclopedia section, or nothing when it is unset.
pub fn encyclopedia_lines(e: &Option<Encyclopedia>) -> (lines: Vec<String>)
    ensures
        lines.deep_view() == encyc_lines_spec(e.deep_view()),
{
    let mut lines: Vec<String> = Vec::new();
    match e {
        None => {},
        Some(Encyclopedia::Wiki { entry, summary }) => {
            lines.push(title_line("Encyclopedia"));
            match entry {
                Some(t) => {
                    let mut s = String::from_str("[ ");
                    s.append(t.as_str());
                    s.append(" ]");
                    lines.push(s);
                },
                None => {},
            }
            match summary {
                Some(t) => {
                    let mut s = String::from_str("  ");
                    s.append(t.as_str());
                    lines.push(s);
                },
                None => {},
            }
            lines.push(String::new());
        },
        Some(Encyclopedia::Person { name, nationality, summary }) => {
            lines.push(title_line("Encyclopedia"));
            match name {
                Some(t) => {
                    let mut s = String::from_str("[ ");
                    s.append(t.as_str());
                    s.append(" ]");
                    lines.push(s);
                },
                None => {},
            }
            match nationality {
                Some(t) => {
                    let mut s = String::from_str("  ");
                    s.append(t.as_str());
                    lines.push(s);
                },
                None => {},
            }
            match summary {
                Some(t) => {
                    let mut s = String::from_str("  ");
                    s.append(t.as_str());
                    lines.push(s);
                },
                None => {},
            }
            lines.push(String::new());
        },
    }
    proof {
        assert(lines.deep_view() =~= encyc_lines_spec(e.deep_view()));
    }
    lines
}

impl QueryResult {
    /// All report lines of this result, in rendering order, ready for the
    /// caller to write to standard output.
    pub fn print_to_stdio(&self) -> (lines: Vec<String>)
        ensures
            lines.deep_view() == render_spec(self@),
    {
        let mut lines: Vec<String> = Vec::new();
        lines.push(basic_line(self));
        let t = translation_lines(&self.custom_translation);
        extend_lines(&mut lines, &t);
        let w = web_translation_lines(&self.web_translations);
        extend_lines(&mut lines, &w);
        let e = encyclopedia_lines(&self.encyclopedia);
        extend_lines(&mut lines, &e);
        proof {
            assert(lines.deep_view() =~= render_spec(self@));
        }
        lines
    }
}

} // verus!
