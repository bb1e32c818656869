use rust_mvc::attributes::find_attributes_reversed;
use rust_mvc::controller::{controller_name, parse_controller, parse_controller_arguments};
use rust_mvc::data::Application;
use rust_mvc::error::ParseError;
use rust_mvc::token::Token;

fn id(s: &str) -> Token {
    Token::Ident(s.to_string())
}

fn lit(s: &str) -> Token {
    Token::StrLit(s.to_string())
}

/// `#[name("path")]`, then the extra attributes, `pub fn <f>(id: i32) {}`.
fn routed(f: &str, path: Option<&str>, verbs: &[&str]) -> Vec<Token> {
    let mut t = vec![id("use"), id("x"), Token::Other(";".to_string())];
    if let Some(p) = path {
        t.extend(vec![
            Token::Pound,
            Token::OpenBracket,
            id("http_url"),
            Token::OpenParen,
            lit(p),
            Token::CloseParen,
            Token::CloseBracket,
        ]);
    }
    for v in verbs {
        t.extend(vec![Token::Pound, Token::OpenBracket, id(v), Token::CloseBracket]);
    }
    t.extend(vec![
        id("pub"),
        id("fn"),
        id(f),
        Token::OpenParen,
        id("id"),
        Token::Colon,
        id("i32"),
        Token::CloseParen,
        Token::Other("{".to_string()),
        Token::Other("}".to_string()),
    ]);
    t
}

fn args_of(toks: Vec<Token>) -> Vec<(String, String)> {
    let r = parse_controller_arguments(&toks, 0, &"f".to_string()).unwrap();
    r.into_iter().map(|a| (a.name, a._type)).collect()
}

#[test]
fn index_action_from_one_route() {
    let mut app = Application::new();
    let toks = routed("index", Some("/"), &[]);
    parse_controller(&mut app, &toks, "home".to_string()).unwrap();
    assert_eq!(app.controllers.len(), 1);
    let c = &app.controllers[0];
    assert_eq!(c.name, "home");
    assert_eq!(c.actions.len(), 1);
    let a = &c.actions[0];
    assert_eq!(a.name, "index");
    assert_eq!(a.path, "/");
    assert!(a.allow_get && !a.allow_put && !a.allow_post && !a.allow_delete);
    assert_eq!(a.arguments.len(), 1);
    assert_eq!(a.arguments[0].name, "id");
    assert_eq!(a.arguments[0]._type, "i32");
}

#[test]
fn route_without_verb_answers_get_only() {
    let mut app = Application::new();
    parse_controller(&mut app, &routed("list", Some("/list"), &[]), "planets".to_string()).unwrap();
    let a = &app.controllers[0].actions[0];
    assert!(a.allow_get);
    assert!(!a.allow_put && !a.allow_post && !a.allow_delete);
}

#[test]
fn verbs_given_are_taken_exactly() {
    let mut app = Application::new();
    let toks = routed("save", Some("/save"), &["http_post", "http_delete"]);
    parse_controller(&mut app, &toks, "planets".to_string()).unwrap();
    let a = &app.controllers[0].actions[0];
    assert!(!a.allow_get);
    assert!(!a.allow_put);
    assert!(a.allow_post);
    assert!(a.allow_delete);
}

#[test]
fn verbs_in_one_attribute_list() {
    // #[http_url("/api"), http_put]
    let toks = vec![
        Token::Pound,
        Token::OpenBracket,
        id("http_url"),
        Token::OpenParen,
        lit("/api"),
        Token::CloseParen,
        Token::Comma,
        id("http_put"),
        Token::CloseBracket,
        id("pub"),
        id("fn"),
        id("put"),
        Token::OpenParen,
        Token::CloseParen,
    ];
    let mut app = Application::new();
    parse_controller(&mut app, &toks, "api".to_string()).unwrap();
    let a = &app.controllers[0].actions[0];
    assert_eq!(a.path, "/api");
    assert!(a.allow_put && !a.allow_get);
    assert!(a.arguments.is_empty());
}

#[test]
fn function_without_route_is_no_action() {
    let mut app = Application::new();
    let toks = routed("hidden", None, &["http_get", "http_post"]);
    parse_controller(&mut app, &toks, "home".to_string()).unwrap();
    assert_eq!(app.controllers.len(), 0);
}

#[test]
fn private_function_is_no_action() {
    let mut toks = routed("index", Some("/"), &[]);
    let p = toks.iter().position(|t| matches!(t, Token::Ident(s) if s == "pub")).unwrap();
    toks.remove(p);
    let mut app = Application::new();
    parse_controller(&mut app, &toks, "home".to_string()).unwrap();
    assert!(app.controllers.is_empty());
}

#[test]
fn controller_without_actions_is_dropped() {
    let mut app = Application::new();
    let toks = vec![id("pub"), id("fn"), id("helper"), Token::OpenParen, Token::CloseParen];
    parse_controller(&mut app, &toks, "util".to_string()).unwrap();
    assert!(app.controllers.is_empty());
    parse_controller(&mut app, &routed("index", Some("/"), &[]), "home".to_string()).unwrap();
    assert_eq!(app.controllers.len(), 1);
    assert_eq!(app.controllers[0].name, "home");
}

#[test]
fn two_actions_in_order() {
    let mut toks = routed("first", Some("/a"), &[]);
    toks.extend(routed("second", Some("/b"), &["http_put"]));
    let mut app = Application::new();
    parse_controller(&mut app, &toks, "home".to_string()).unwrap();
    let acts = &app.controllers[0].actions;
    assert_eq!(acts.len(), 2);
    assert_eq!(acts[0].name, "first");
    assert_eq!(acts[1].name, "second");
    assert_eq!(acts[1].path, "/b");
}

#[test]
fn argument_list_with_generic_type() {
    // (a: i32, b: Vec<String>)
    let toks = vec![
        Token::OpenParen,
        id("a"),
        Token::Colon,
        id("i32"),
        Token::Comma,
        id("b"),
        Token::Colon,
        id("Vec"),
        Token::Lt,
        id("String"),
        Token::Gt,
        Token::CloseParen,
    ];
    assert_eq!(
        args_of(toks),
        vec![("a".to_string(), "i32".to_string()), ("b".to_string(), "Vec<String>".to_string())]
    );
}

#[test]
fn comma_inside_angle_brackets_does_not_split() {
    // (m: HashMap<String, i32>)
    let toks = vec![
        Token::OpenParen,
        id("m"),
        Token::Colon,
        id("HashMap"),
        Token::Lt,
        id("String"),
        Token::Comma,
        id("i32"),
        Token::Gt,
        Token::CloseParen,
    ];
    assert_eq!(args_of(toks), vec![("m".to_string(), "HashMap<String,i32>".to_string())]);
}

#[test]
fn nested_parentheses_are_kept() {
    // (t: (i32, u8), _: std::string::String)
    let toks = vec![
        Token::OpenParen,
        id("t"),
        Token::Colon,
        Token::OpenParen,
        id("i32"),
        Token::Comma,
        id("u8"),
        Token::CloseParen,
        Token::Comma,
        Token::Underscore,
        Token::Colon,
        id("std"),
        Token::PathSep,
        id("string"),
        Token::PathSep,
        id("String"),
        Token::CloseParen,
    ];
    assert_eq!(
        args_of(toks),
        vec![
            ("t".to_string(), "(i32,u8)".to_string()),
            ("_".to_string(), "std::string::String".to_string())
        ]
    );
}

#[test]
fn empty_argument_list() {
    assert!(args_of(vec![Token::OpenParen, Token::CloseParen]).is_empty());
}

#[test]
fn unterminated_signature_is_an_error() {
    let toks = vec![Token::OpenParen, id("a"), Token::Colon, id("i32")];
    let r = parse_controller_arguments(&toks, 0, &"f".to_string());
    assert!(matches!(r, Err(ParseError::UnexpectedNode(_))));
}

#[test]
fn unknown_token_in_signature_is_an_error() {
    let toks = vec![Token::OpenParen, id("a"), Token::Colon, Token::Other("&".to_string()), id("str"), Token::CloseParen];
    let r = parse_controller_arguments(&toks, 0, &"f".to_string());
    assert!(matches!(r, Err(ParseError::UnexpectedNode(_))));
    let mut app = Application::new();
    let mut all = vec![Token::Pound, Token::OpenBracket, id("http_url"), Token::OpenParen, lit("/"), Token::CloseParen, Token::CloseBracket, id("pub"), id("fn"), id("f")];
    all.extend(toks);
    assert!(parse_controller(&mut app, &all, "c".to_string()).is_err());
    assert!(app.controllers.is_empty());
}

#[test]
fn number_literal_in_attributes_is_an_error() {
    let toks = vec![
        Token::Pound,
        Token::OpenBracket,
        id("http_url"),
        Token::OpenParen,
        Token::OtherLit("7".to_string()),
        Token::CloseParen,
        Token::CloseBracket,
        id("pub"),
    ];
    let r = find_attributes_reversed(&toks, 7);
    assert!(matches!(r, Err(ParseError::UnexpectedNode(_))));
}

#[test]
fn attribute_block_stops_at_other_tokens() {
    let toks = vec![
        Token::Other(";".to_string()),
        Token::Pound,
        Token::OpenBracket,
        id("http_url"),
        Token::OpenParen,
        lit("/x"),
        Token::CloseParen,
        Token::Comma,
        id("http_get"),
        Token::CloseBracket,
        id("pub"),
    ];
    let attrs = find_attributes_reversed(&toks, 10).unwrap();
    assert_eq!(attrs.len(), 2);
    assert_eq!(attrs[0].name, "http_url");
    assert_eq!(attrs[0].args, vec!["/x".to_string()]);
    assert_eq!(attrs[1].name, "http_get");
    assert!(attrs[1].args.is_empty());
}

#[test]
fn controller_name_strips_suffix() {
    assert_eq!(controller_name("home_controller"), Some("home".to_string()));
    assert_eq!(controller_name("home"), None);
    assert_eq!(controller_name("_controller"), Some(String::new()));
    assert_eq!(controller_name("home_controllers"), None);
}

#[test]
fn empty_route_path_is_no_action() {
    let mut app = Application::new();
    let toks = routed("f", Some(""), &["http_get"]);
    parse_controller(&mut app, &toks, "home".to_string()).unwrap();
    assert!(app.controllers.is_empty());
}

#[test]
fn signature_error_names_the_token() {
    let toks = vec![Token::OpenParen, id("s"), Token::Colon, Token::Other("&".to_string()), id("str"), Token::CloseParen];
    match parse_controller_arguments(&toks, 0, &"show".to_string()) {
        Err(ParseError::UnexpectedNode(m)) => {
            assert!(m.contains("`&`"));
            assert!(m.contains("show"));
        }
        _ => panic!("expected an error"),
    }
}

#[test]
fn attribute_error_names_the_token() {
    let toks = vec![Token::Pound, Token::OpenBracket, id("http_url"), Token::OpenParen, Token::OtherLit("42".to_string()), Token::CloseParen, Token::CloseBracket, id("pub")];
    match find_attributes_reversed(&toks, 7) {
        Err(ParseError::UnexpectedNode(m)) => assert!(m.contains("`42`")),
        _ => panic!("expected an error"),
    }
}
