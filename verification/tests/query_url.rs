//! Tests of the query-client boundary: URL construction from a word.

use ydict::query::{build_query_url, endpoint, Args};

#[test]
fn url_appends_word_as_query_parameter() {
    let args = Args { debug: false, word: Some("hello".to_string()) };
    let url = build_query_url(&args).unwrap();
    assert_eq!(
        url,
        "http://dict.youdao.com/fsearch?version=1.1&client=deskdict&\
         keyfrom=chrome.extension&doctype=xml&xmlVersion=3.2&q=hello"
    );
}

#[test]
fn url_encodes_the_word() {
    let args = Args { debug: true, word: Some("hello world".to_string()) };
    let url = build_query_url(&args).unwrap();
    assert!(url.starts_with(endpoint()));
    assert!(url.ends_with("&q=hello+world"));
}
