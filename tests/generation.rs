use rust_mvc::config::Config;
use rust_mvc::controller::parse_controller;
use rust_mvc::data::{Application, Controller, ControllerAction, View, ViewPart};
use rust_mvc::generator::{
    generate_controller_mod, generate_run, generate_view_mod, generate_view_wrapper,
    GENERATE_MESSAGE,
};
use rust_mvc::pipeline::build;
use rust_mvc::request::Request;
use rust_mvc::token::Token;
use rust_mvc::view::ViewError;

fn view(name: &str, model: Option<&str>, uses: &[&str]) -> View {
    let mut v = View::new(name.to_string());
    v.model = model.map(|m| m.to_string());
    v.use_namespaces = uses.iter().map(|u| u.to_string()).collect();
    v
}

fn config() -> Config {
    let mut c = Config::new();
    c.root_dir = "out".to_string();
    c
}

fn sample_app() -> Application {
    let mut app = Application::new();
    let toks = vec![
        Token::Pound,
        Token::OpenBracket,
        Token::Ident("http_url".to_string()),
        Token::OpenParen,
        Token::StrLit("/".to_string()),
        Token::CloseParen,
        Token::CloseBracket,
        Token::Ident("pub".to_string()),
        Token::Ident("fn".to_string()),
        Token::Ident("index".to_string()),
        Token::OpenParen,
        Token::Ident("id".to_string()),
        Token::Colon,
        Token::Ident("i32".to_string()),
        Token::CloseParen,
    ];
    parse_controller(&mut app, &toks, "home".to_string()).unwrap();
    app.views.push(view("index", None, &["a::b", "c"]));
    app.views.push(view("detail", Some("Planet"), &["c", "d"]));
    app
}

#[test]
fn config_defaults() {
    let c = Config::new();
    assert_eq!(c.root_dir, "");
    assert_eq!(c.controller_dir, "controllers");
    assert_eq!(c.view_dir, "views");
}

#[test]
fn view_wrapper_text_and_path() {
    let mut v = view("index", Some("Planet"), &["models::Planet"]);
    v.parts.push(ViewPart::Static("<p>".to_string()));
    v.parts.push(ViewPart::Code("model.name".to_string()));
    let f = generate_view_wrapper(&v, &config());
    assert_eq!(f.path, "out/views/index.rs");
    let expected = format!(
        "{}use models::Planet;\r\n\r\npub fn generate(model: &Planet) -> String {{\r\n\tlet mut result = String::new();\r\n\tresult.push_str(r#\"<p>\"#);\r\n\tresult.push_str(&format!{{\"{{}}\",model.name}});\r\n\tresult\r\n}}",
        GENERATE_MESSAGE
    );
    assert_eq!(f.contents, expected);
}

#[test]
fn view_wrapper_without_model() {
    let f = generate_view_wrapper(&view("plain", None, &[]), &config());
    assert!(f.contents.contains("pub fn generate() -> String {"));
    assert!(f.contents.starts_with(GENERATE_MESSAGE));
}

#[test]
fn module_files_list_entries_in_order() {
    let app = sample_app();
    let vm = generate_view_mod(&app.views, &config());
    assert_eq!(vm.path, "out/views/mod.rs");
    assert_eq!(vm.contents, format!("{}pub mod index;\r\npub mod detail;\r\n", GENERATE_MESSAGE));
    let cm = generate_controller_mod(&app.controllers, &config());
    assert_eq!(cm.path, "out/controllers/mod.rs");
    assert_eq!(cm.contents, format!("{}pub mod home_controller;\r\n", GENERATE_MESSAGE));
}

#[test]
fn dispatch_file_routes_and_views() {
    let app = sample_app();
    let f = generate_run(&app, &config());
    assert_eq!(f.path, "out/run.rs");
    let c = &f.contents;
    assert!(c.contains(
        "\tif request.url_match(\"/\") { return (\"index\", controllers::home_controller::index(view_context)); }\r\n"
    ));
    assert!(c.contains("use a::b;\r\nuse c;\r\nuse d;\r\nuse std::any::Any;"));
    assert_eq!(c.matches("use c;").count(), 1);
    assert!(c.contains("\tif view_name.eq(\"index\") { return Some(views::index::generate()); }\r\n"));
    assert!(c.contains("model.downcast_ref::<Planet>()"));
    assert!(!c.contains("views::detail::generate())"));
    assert!(c.ends_with("execute_view, execute_view_with_model)\r\n}\r\n"));
}

#[test]
fn dispatch_file_of_empty_application() {
    let f = generate_run(&Application::new(), &config());
    assert!(f.contents.contains("request.get_view_context();\r\n\t(\"\", Err(rust_mvc::view::ViewError::UrlNotFound))"));
}

#[test]
fn build_lists_every_file() {
    let app = sample_app();
    let files = build(&config(), &app);
    let paths: Vec<&str> = files.iter().map(|f| f.path.as_str()).collect();
    assert_eq!(
        paths,
        vec!["out/views/index.rs", "out/views/detail.rs", "out/views/mod.rs", "out/controllers/mod.rs", "out/run.rs"]
    );
}

#[test]
fn build_twice_gives_the_same_files() {
    let app = sample_app();
    let a = build(&config(), &app);
    let b = build(&config(), &app);
    assert_eq!(a.len(), b.len());
    for (x, y) in a.iter().zip(b.iter()) {
        assert_eq!(x.path, y.path);
        assert_eq!(x.contents, y.contents);
    }
}

#[test]
fn hand_built_controller_is_rendered() {
    let mut app = Application::new();
    let mut c = Controller::new("shop".to_string());
    c.actions.push(ControllerAction {
        name: "buy".to_string(),
        path: "/buy".to_string(),
        allow_get: false,
        allow_put: false,
        allow_post: true,
        allow_delete: false,
        arguments: Vec::new(),
    });
    app.controllers.push(c);
    let f = generate_run(&app, &config());
    assert!(f.contents.contains("controllers::shop_controller::buy(view_context)"));
}

#[test]
fn request_matches_its_url_only() {
    let r = Request::new("/planets".to_string());
    assert!(r.url_match("/planets"));
    assert!(!r.url_match("/planet"));
    assert!(!r.url_match("/planets/"));
    let _ = r.get_view_context();
}

#[test]
fn view_error_text() {
    assert_eq!(ViewError::UrlNotFound.description(), "Url not found");
}
