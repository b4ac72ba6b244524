//! End-to-end and scenario tests: raw markup in, records, typed result and
//! rendered report lines out.

use ydict::flatten::flatten;
use ydict::project::{project, Encyclopedia, QueryResult};
use ydict::render::encyclopedia_lines;
use ydict::search_word;

fn path_of(rec: &ydict::flatten::Record) -> Vec<&str> {
    rec.path.iter().map(|s| s.as_str()).collect()
}

#[test]
fn end_to_end_hello_report() {
    let xml = "<?xml version=\"1.0\"?><yodaodict>\
        <return-phrase><![CDATA[hello]]></return-phrase>\
        <phonetic-symbol>/h\u{259}'l\u{259}\u{28a}/</phonetic-symbol>\
        <custom-translation><translation><content><![CDATA[int. \u{5582}\u{ff1b}\u{54c8}\u{7f57}]]></content></translation></custom-translation>\
        </yodaodict>";
    let lines = search_word(xml).unwrap();
    assert_eq!(lines[0], "  hello  [/h\u{259}'l\u{259}\u{28a}/]");
    assert!(lines[0].contains("hello  [/h\u{259}'l\u{259}\u{28a}/]"));
    assert_eq!(lines[1], "========Translation========");
    assert_eq!(lines[2], "  int. \u{5582}\u{ff1b}\u{54c8}\u{7f57}");
    assert_eq!(lines[3], "");
    assert_eq!(lines.len(), 4);
    assert!(lines.iter().all(|l| !l.contains("Web Translation")));
    assert!(lines.iter().all(|l| !l.contains("Encyclopedia")));
}

#[test]
fn identical_input_identical_report() {
    let xml = "<yodaodict><return-phrase>word</return-phrase>\
        <yodao-web-dict><web-translation><key>k</key>\
        <trans><value>v</value></trans></web-translation></yodao-web-dict></yodaodict>";
    let first = search_word(xml).unwrap();
    let second = search_word(xml).unwrap();
    assert_eq!(first, second);
}

#[test]
fn merge_rewrites_previous_record() {
    let xml = "<yodaodict><yodao-web-dict><web-translation>\
        <key>k</key>\
        <trans><value>v</value><cls><cl>n.</cl></cls></trans>\
        </web-translation></yodao-web-dict></yodaodict>";
    let records = flatten(xml, "yodaodict").unwrap();
    assert_eq!(records.len(), 2);
    assert_eq!(records[0].text, "k");
    assert_eq!(records[1].text, "v(n.)");
    assert_eq!(
        path_of(&records[1]),
        ["yodao-web-dict", "web-translation", "trans", "value"]
    );
}

#[test]
fn merge_without_prior_record_is_discarded() {
    let xml = "<yodaodict><cls><cl>n.</cl></cls></yodaodict>";
    let records = flatten(xml, "yodaodict").unwrap();
    assert!(records.is_empty());
}

#[test]
fn whitespace_only_text_emits_no_record() {
    let xml = "<yodaodict><a>   </a><b>\n\t </b><c></c></yodaodict>";
    let records = flatten(xml, "yodaodict").unwrap();
    assert!(records.is_empty());
}

#[test]
fn character_text_is_trimmed_literal_data_is_not() {
    let xml = "<yodaodict><a>  padded  </a>\
        <b><![CDATA[  keep  ]]></b>\
        <c><![CDATA[L]]> chars </c></yodaodict>";
    let records = flatten(xml, "yodaodict").unwrap();
    assert_eq!(records.len(), 3);
    assert_eq!(records[0].text, "padded");
    assert_eq!(records[1].text, "  keep  ");
    // literal data comes first, character text is appended
    assert_eq!(records[2].text, "Lchars");
}

#[test]
fn grouping_never_leaks_across_key_boundary() {
    let xml = "<yodaodict><yodao-web-dict>\
        <web-translation><key>A</key>\
        <trans><value>v1</value></trans><trans><value>v2</value></trans>\
        </web-translation>\
        <web-translation><key>B</key>\
        <trans><value>v3</value></trans>\
        </web-translation>\
        </yodao-web-dict></yodaodict>";
    let records = flatten(xml, "yodaodict").unwrap();
    let q = project(&records);
    let groups = q.web_translations.as_ref().unwrap();
    assert_eq!(groups.len(), 2);
    assert_eq!(groups[0].key, "A");
    assert_eq!(groups[0].values, ["v1", "v2"]);
    assert_eq!(groups[1].key, "B");
    assert_eq!(groups[1].values, ["v3"]);
}

#[test]
fn value_before_any_key_is_ignored() {
    let xml = "<yodaodict><yodao-web-dict>\
        <web-translation><trans><value>stray</value></trans>\
        <key>A</key><trans><value>v1</value></trans></web-translation>\
        </yodao-web-dict></yodaodict>";
    let records = flatten(xml, "yodaodict").unwrap();
    let q = project(&records);
    let groups = q.web_translations.as_ref().unwrap();
    assert_eq!(groups.len(), 1);
    assert_eq!(groups[0].key, "A");
    assert_eq!(groups[0].values, ["v1"]);
}

#[test]
fn web_translation_section_layout() {
    let xml = "<yodaodict><yodao-web-dict>\
        <web-translation><key>A</key>\
        <trans><value>v1</value></trans><trans><value>v2</value></trans>\
        </web-translation>\
        <web-translation><key>B</key>\
        <trans><value>v3</value></trans>\
        </web-translation>\
        </yodao-web-dict></yodaodict>";
    let lines = search_word(xml).unwrap();
    assert_eq!(
        lines,
        [
            "",
            "========Web Translation========",
            "A",
            "  v1; v2",
            "",
            "B",
            "  v3",
            "",
        ]
    );
}

#[test]
fn unset_fields_suppress_their_sections() {
    let q = QueryResult {
        headword: Some("word".to_string()),
        phonetic: None,
        custom_translation: None,
        web_translations: None,
        encyclopedia: None,
    };
    let lines = q.print_to_stdio();
    assert_eq!(lines, ["  word"]);
}

#[test]
fn wiki_entry_renders_and_takes_priority() {
    let xml = "<yodaodict><wand-result><wand><entity>\
        <person-data><name>Alan</name><nationality>UK</nationality>\
        <summary>a person</summary></person-data>\
        <wiki-entry><info><data><entry>Topic</entry>\
        <summary>about the topic</summary></data></info></wiki-entry>\
        </entity></wand></wand-result></yodaodict>";
    let records = flatten(xml, "yodaodict").unwrap();
    let q = project(&records);
    match q.encyclopedia.as_ref().unwrap() {
        Encyclopedia::Wiki { entry, summary } => {
            assert_eq!(entry.as_deref(), Some("Topic"));
            assert_eq!(summary.as_deref(), Some("about the topic"));
        }
        Encyclopedia::Person { .. } => panic!("wiki entry must take priority"),
    }
    let lines = q.print_to_stdio();
    assert_eq!(
        lines,
        ["", "========Encyclopedia========", "[ Topic ]", "  about the topic", ""]
    );
}

#[test]
fn person_entity_renders_each_present_field() {
    let enc = Some(Encyclopedia::Person {
        name: Some("Alan".to_string()),
        nationality: Some("UK".to_string()),
        summary: None,
    });
    let lines = encyclopedia_lines(&enc);
    assert_eq!(lines, ["========Encyclopedia========", "[ Alan ]", "  UK", ""]);
}

#[test]
fn headword_and_kind_take_the_latest_record() {
    let xml = "<yodaodict><return-phrase>first</return-phrase>\
        <return-phrase>second</return-phrase>\
        <custom-translation><type>web</type><type>base</type>\
        <translation><content>c1</content></translation></custom-translation>\
        </yodaodict>";
    let records = flatten(xml, "yodaodict").unwrap();
    let q = project(&records);
    assert_eq!(q.headword.as_deref(), Some("second"));
    let custom = q.custom_translation.as_ref().unwrap();
    assert_eq!(custom.kind.as_deref(), Some("base"));
    assert_eq!(custom.contents, ["c1"]);
}

#[test]
fn unknown_paths_are_ignored_without_error() {
    let xml = "<yodaodict><lang>eng</lang><recommend><item>x</item></recommend>\
        <return-phrase>w</return-phrase></yodaodict>";
    let records = flatten(xml, "yodaodict").unwrap();
    let q = project(&records);
    assert_eq!(q.headword.as_deref(), Some("w"));
    assert!(q.custom_translation.is_none());
    assert!(q.web_translations.is_none());
    assert!(q.encyclopedia.is_none());
}

#[test]
fn unterminated_element_is_a_parse_error() {
    let xml = "<yodaodict><a>x";
    assert!(flatten(xml, "yodaodict").is_err());
    assert!(search_word(xml).is_err());
}

#[test]
fn mismatched_end_tag_is_a_parse_error() {
    let xml = "<yodaodict><a>x</b></yodaodict>";
    assert!(flatten(xml, "yodaodict").is_err());
    assert!(search_word(xml).is_err());
}

#[test]
fn predefined_references_resolve_unknown_ones_fail() {
    let xml = "<yodaodict><a>x &amp; y</a><b>&lt;tag&gt;</b></yodaodict>";
    let records = flatten(xml, "yodaodict").unwrap();
    assert_eq!(records.len(), 2);
    // each character-text piece around the reference is trimmed on its own
    assert_eq!(records[0].text, "x&y");
    assert_eq!(records[1].text, "<tag>");
    let bad = "<yodaodict><a>x &unknown; y</a></yodaodict>";
    assert!(flatten(bad, "yodaodict").is_err());
}

#[test]
fn empty_element_emits_nothing() {
    let xml = "<yodaodict><a/><b>t</b></yodaodict>";
    let records = flatten(xml, "yodaodict").unwrap();
    assert_eq!(records.len(), 1);
    assert_eq!(records[0].text, "t");
    assert_eq!(path_of(&records[0]), ["b"]);
}

#[test]
fn comments_split_text_without_losing_it() {
    let xml = "<yodaodict><a>fo<!-- noise -->o</a></yodaodict>";
    let records = flatten(xml, "yodaodict").unwrap();
    assert_eq!(records.len(), 1);
    assert_eq!(records[0].text, "foo");
}

#[test]
fn text_directly_under_the_root_gets_an_empty_path() {
    let xml = "<yodaodict>stray</yodaodict>";
    let records = flatten(xml, "yodaodict").unwrap();
    assert_eq!(records.len(), 1);
    assert!(records[0].path.is_empty());
    assert_eq!(records[0].text, "stray");
    // the projector ignores it
    let q = project(&records);
    assert!(q.headword.is_none());
    assert!(q.web_translations.is_none());
}

#[test]
fn content_dispatch_matches_by_prefix() {
    let xml = "<yodaodict><custom-translation><translation>\
        <content><sub>deep</sub></content>\
        </translation></custom-translation></yodaodict>";
    let records = flatten(xml, "yodaodict").unwrap();
    let q = project(&records);
    let custom = q.custom_translation.as_ref().unwrap();
    assert_eq!(custom.contents, ["deep"]);
}

#[test]
fn root_element_contributes_no_path_segment() {
    let xml = "<yodaodict><return-phrase>w</return-phrase></yodaodict>";
    let records = flatten(xml, "yodaodict").unwrap();
    assert_eq!(records.len(), 1);
    assert_eq!(path_of(&records[0]), ["return-phrase"]);
    // under another root name, the wrapper becomes a path segment
    let other = flatten(xml, "different-root").unwrap();
    assert_eq!(path_of(&other[0]), ["yodaodict", "return-phrase"]);
}
