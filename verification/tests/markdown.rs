use m_browser::markdown::{
    get_heading, heading_of, is_wasm, last_segment_of, links_of, page_links, MarkEvent,
};

fn text(s: &str) -> MarkEvent {
    MarkEvent::Text(s.to_string())
}

#[test]
fn heading_is_the_text_of_the_first_heading() {
    let page = "intro\n\n# First title\n\nbody\n\n## Second\n";
    assert_eq!(get_heading("https://host/readme.md".to_string(), page.to_string()), "First title");
}

#[test]
fn heading_joins_the_text_of_inline_elements() {
    let page = "# Hello *big* world\n";
    assert_eq!(get_heading("x".to_string(), page.to_string()), "Hello big world");
}

#[test]
fn text_outside_the_heading_is_left_out() {
    let page = "before\n\nTitle\n=====\n\nafter\n";
    assert_eq!(get_heading("x".to_string(), page.to_string()), "Title");
}

#[test]
fn page_without_heading_is_labelled_by_its_location() {
    let page = "just a paragraph with a [link](https://host/a)\n";
    assert_eq!(
        get_heading("https://host/dir/readme.md".to_string(), page.to_string()),
        "readme.md"
    );
    assert_eq!(get_heading("https://host/dir/page".to_string(), String::new()), "page");
}

#[test]
fn empty_heading_is_labelled_by_its_location() {
    assert_eq!(get_heading("https://host/a/b".to_string(), "#\n\ntext\n".to_string()), "b");
}

#[test]
fn last_segment_follows_the_last_slash() {
    assert_eq!(last_segment_of("https://host/dir/readme.md"), "readme.md");
    assert_eq!(last_segment_of("no-slash"), "no-slash");
    assert_eq!(last_segment_of("trailing/"), "");
    assert_eq!(last_segment_of(""), "");
    assert_eq!(last_segment_of("/"), "");
    assert_eq!(last_segment_of("/x"), "x");
    assert_eq!(last_segment_of("пример/страница"), "страница");
}

#[test]
fn heading_of_events() {
    let events = vec![
        text("x"),
        MarkEvent::HeadingEnd,
        MarkEvent::HeadingStart,
        text("ab"),
        MarkEvent::Other,
        MarkEvent::LinkStart("u".to_string()),
        text("c"),
        MarkEvent::HeadingEnd,
        text("z"),
        MarkEvent::HeadingStart,
        text("second"),
        MarkEvent::HeadingEnd,
    ];
    assert_eq!(heading_of("loc/ation", &events), "abc");
}

#[test]
fn heading_of_unclosed_heading_runs_to_the_end() {
    let events = vec![MarkEvent::HeadingStart, text("a"), MarkEvent::HeadingStart, text("b")];
    assert_eq!(heading_of("loc/ation", &events), "ab");
}

#[test]
fn heading_of_no_events_is_the_last_segment() {
    assert_eq!(heading_of("loc/ation", &Vec::new()), "ation");
    assert_eq!(heading_of("loc/ation", &vec![text("t"), MarkEvent::HeadingEnd]), "ation");
    assert_eq!(
        heading_of("loc/ation", &vec![MarkEvent::HeadingStart, MarkEvent::HeadingEnd, text("t")]),
        "ation"
    );
}

#[test]
fn links_are_listed_in_page_order() {
    let page = "See [one](https://host/one.md), [two](app.wasm \"title\") and\n\n# [three](/three)\n";
    assert_eq!(page_links(page), vec!["https://host/one.md", "app.wasm", "/three"]);
}

#[test]
fn page_without_links_has_none() {
    assert_eq!(page_links("# Title\n\ntext ![image](pic.png)\n"), Vec::<String>::new());
    assert_eq!(page_links(""), Vec::<String>::new());
}

#[test]
fn links_of_events() {
    let events = vec![
        MarkEvent::LinkStart("a".to_string()),
        text("a"),
        MarkEvent::Other,
        MarkEvent::LinkStart("b".to_string()),
        MarkEvent::LinkStart("a".to_string()),
    ];
    assert_eq!(links_of(&events), vec!["a", "b", "a"]);
    assert_eq!(links_of(&Vec::new()), Vec::<String>::new());
}

#[test]
fn wasm_is_told_by_the_suffix() {
    assert!(is_wasm("https://host/app.wasm".to_string()));
    assert!(is_wasm(".wasm".to_string()));
    assert!(is_wasm("приложение.wasm".to_string()));
    assert!(!is_wasm("wasm".to_string()));
    assert!(!is_wasm("".to_string()));
    assert!(!is_wasm("app.wasm ".to_string()));
    assert!(!is_wasm("app.WASM".to_string()));
    assert!(!is_wasm("app.wasm/readme.md".to_string()));
    assert!(!is_wasm("app.wasn".to_string()));
    assert!(!is_wasm("appxwasm".to_string()));
}
