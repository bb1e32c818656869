use rust_mvc::data::ViewPart;
use rust_mvc::error::ParseError;
use rust_mvc::view_compiler::compile_view;

fn parts(text: &str) -> Vec<(bool, String)> {
    let v = compile_view("v".to_string(), text).unwrap();
    v.parts
        .into_iter()
        .map(|p| match p {
            ViewPart::Static(s) => (true, s),
            ViewPart::Code(s) => (false, s),
        })
        .collect()
}

#[test]
fn text_without_markers_is_one_static_part() {
    assert_eq!(parts("<p>hello</p>\n"), vec![(true, "<p>hello</p>\n".to_string())]);
}

#[test]
fn blank_text_has_no_parts() {
    assert!(parts("  \n\t ").is_empty());
    assert!(parts("").is_empty());
}

#[test]
fn use_and_model_declarations() {
    let v = compile_view("index".to_string(), "#[use my::mod]#[model MyModel]<p>#[model.name]</p>").unwrap();
    assert_eq!(v.name, "index");
    assert_eq!(v.use_namespaces, vec!["my::mod".to_string()]);
    assert_eq!(v.model, Some("MyModel".to_string()));
    let ps: Vec<(bool, String)> = v
        .parts
        .into_iter()
        .map(|p| match p {
            ViewPart::Static(s) => (true, s),
            ViewPart::Code(s) => (false, s),
        })
        .collect();
    assert_eq!(
        ps,
        vec![
            (true, "<p>".to_string()),
            (false, "model.name".to_string()),
            (true, "</p>".to_string())
        ]
    );
}

#[test]
fn model_after_code_is_code() {
    assert_eq!(
        parts("<p>#[x]</p>#[model Foo]"),
        vec![
            (true, "<p>".to_string()),
            (false, "x".to_string()),
            (true, "</p>".to_string()),
            (false, "model Foo".to_string())
        ]
    );
    let v = compile_view("v".to_string(), "<p>#[x]</p>#[model Foo]").unwrap();
    assert_eq!(v.model, None);
}

#[test]
fn blank_text_between_declarations_is_dropped() {
    let v = compile_view("v".to_string(), "#[use a]\n#[use b]\n<b>#[c]</b>").unwrap();
    assert_eq!(v.use_namespaces, vec!["a".to_string(), "b".to_string()]);
    assert_eq!(v.parts.len(), 3);
}

#[test]
fn leading_plain_code_is_a_part() {
    assert_eq!(parts("#[title]"), vec![(false, "title".to_string())]);
}

#[test]
fn nested_brackets_stay_in_the_span() {
    assert_eq!(
        parts("a#[v[0]]b"),
        vec![(true, "a".to_string()), (false, "v[0]".to_string()), (true, "b".to_string())]
    );
}

#[test]
fn unicode_text_is_kept() {
    assert_eq!(
        parts("é#[x]ü"),
        vec![(true, "é".to_string()), (false, "x".to_string()), (true, "ü".to_string())]
    );
}

#[test]
fn unclosed_code_span_is_a_file_error() {
    let r = compile_view("v".to_string(), "<p>#[x</p>");
    assert!(matches!(r, Err(ParseError::FileError(_))));
}

#[test]
fn brackets_in_strings_do_not_close_the_span() {
    assert_eq!(
        parts("a#[format!(\"]{}\", x)]b"),
        vec![
            (true, "a".to_string()),
            (false, "format!(\"]{}\", x)".to_string()),
            (true, "b".to_string())
        ]
    );
    assert_eq!(
        parts("<i>#[s.push(']')]</i>"),
        vec![(true, "<i>".to_string()), (false, "s.push(']')".to_string()), (true, "</i>".to_string())]
    );
}
