use vstd::prelude::*;
use vstd::view::View as ModelView;
use crate::config::Config;
use crate::data::{
    strings_view, ActionModel, Application, Controller, ControllerModel, PartModel, View,
    ViewModel, ViewPart,
};
use crate::text::append_text;

verus! {

/// The comment that opens every file the build writes.
pub const GENERATE_MESSAGE: &'static str = "/// DO NOT MODIFY: the build rewrites this file from the controllers and views.\n/// Any and all changes made here are lost on the next build.\n\n";

/// A file to write: where, and what.
pub struct GeneratedFile {
    pub path: String,
    pub contents: String,
}

impl vstd::view::View for GeneratedFile {
    type V = (Seq<char>, Seq<char>);

    open spec fn view(&self) -> (Seq<char>, Seq<char>) {
        (self.path@, self.contents@)
    }
}

/// One `use` line for each namespace, in order.
pub open spec fn use_lines(ns: Seq<Seq<char>>) -> Seq<char>
    decreases ns.len(),
{
    if ns.len() == 0 {
        Seq::empty()
    } else {
        use_lines(ns.drop_last()) + "use "@ + ns.last() + ";\r\n"@
    }
}

pub open spec fn model_param(m: Option<Seq<char>>) -> Seq<char> {
    match m {
        Some(x) => "model: &"@ + x,
        None => Seq::empty(),
    }
}

/// The statement that renders one part.
pub open spec fn part_line(p: PartModel) -> Seq<char> {
    match p {
        PartModel::Static(s) => "\tresult.push_str(r#\""@ + s + "\"#);\r\n"@,
        PartModel::Code(s) => "\tresult.push_str(&format!{\"{}\","@ + s + "});\r\n"@,
    }
}

pub open spec fn part_lines(ps: Seq<PartModel>) -> Seq<char>
    decreases ps.len(),
{
    if ps.len() == 0 {
        Seq::empty()
    } else {
        part_lines(ps.drop_last()) + part_line(ps.last())
    }
}

/// The source of a view's render function.
pub open spec fn view_wrapper_text(v: ViewModel) -> Seq<char> {
    GENERATE_MESSAGE@ + use_lines(v.use_namespaces) + "\r\n"@ + "pub fn generate("@
        + model_param(v.model) + ") -> String {\r\n\tlet mut result = String::new();\r\n"@
        + part_lines(v.parts) + "\tresult\r\n}"@
}

pub open spec fn dir_path(c: Config, dir: Seq<char>) -> Seq<char> {
    c.root_dir@ + "/"@ + dir + "/"@
}

fn append_uses(out: &mut String, ns: &Vec<String>)
    ensures
        final(out)@ == old(out)@ + use_lines(strings_view(ns@)),
{
    let ghost sv = strings_view(ns@);
    let ghost start = out@;
    let mut i: usize = 0;
    while i < ns.len()
        invariant
            i <= ns.len(),
            sv == strings_view(ns@),
            out@ == start + use_lines(sv.subrange(0, i as int)),
        decreases ns.len() - i,
    {
        append_text(out, "use ");
        append_text(out, ns[i].as_str());
        append_text(out, ";\r\n");
        assert(sv.subrange(0, i + 1).drop_last() =~= sv.subrange(0, i as int));
        assert(out@ =~= start + use_lines(sv.subrange(0, i + 1)));
        i = i + 1;
    }
    assert(sv.subrange(0, i as int) =~= sv);
}

/// Renders a view as the source of its render function, and the file it
/// goes to: `<root>/<view_dir>/<name>.rs`.
pub fn generate_view_wrapper(view: &View, config: &Config) -> (r: GeneratedFile)
    ensures
        r@.0 == dir_path(*config, config.view_dir@) + view@.name + ".rs"@,
        r@.1 == view_wrapper_text(view@),
{
    let mut result = String::new();
    append_text(&mut result, GENERATE_MESSAGE);
    append_uses(&mut result, &view.use_namespaces);
    append_text(&mut result, "\r\n");
    append_text(&mut result, "pub fn generate(");
    match &view.model {
        Some(m) => {
            append_text(&mut result, "model: &");
            append_text(&mut result, m.as_str());
        },
        None => {},
    }
    append_text(&mut result, ") -> String {\r\n\tlet mut result = String::new();\r\n");
    let ghost head = result@;
    let ghost ps = view@.parts;
    let mut i: usize = 0;
    while i < view.parts.len()
        invariant
            i <= view.parts.len(),
            ps == view@.parts,
            result@ == head + part_lines(ps.subrange(0, i as int)),
        decreases view.parts.len() - i,
    {
        match &view.parts[i] {
            ViewPart::Static(s) => {
                append_text(&mut result, "\tresult.push_str(r#\"");
                append_text(&mut result, s.as_str());
                append_text(&mut result, "\"#);\r\n");
            },
            ViewPart::Code(s) => {
                append_text(&mut result, "\tresult.push_str(&format!{\"{}\",");
                append_text(&mut result, s.as_str());
                append_text(&mut result, "});\r\n");
            },
        }
        assert(ps.subrange(0, i + 1).drop_last() =~= ps.subrange(0, i as int));
        assert(result@ =~= head + part_lines(ps.subrange(0, i + 1)));
        i = i + 1;
    }
    assert(ps.subrange(0, i as int) =~= ps);
    append_text(&mut result, "\tresult\r\n}");
    assert(result@ =~= view_wrapper_text(view@));
    let path = file_path(config, &config.view_dir, &view.name);
    GeneratedFile { path, contents: result }
}

/// `<root>/<dir>/<name>.rs`
fn file_path(config: &Config, dir: &String, name: &String) -> (r: String)
    ensures
        r@ == dir_path(*config, dir@) + name@ + ".rs"@,
{
    let mut p = config.root_dir.clone();
    append_text(&mut p, "/");
    append_text(&mut p, dir.as_str());
    append_text(&mut p, "/");
    append_text(&mut p, name.as_str());
    append_text(&mut p, ".rs");
    assert(p@ =~= dir_path(*config, dir@) + name@ + ".rs"@);
    p
}

pub open spec fn view_mod_lines(vs: Seq<ViewModel>) -> Seq<char>
    decreases vs.len(),
{
    if vs.len() == 0 {
        Seq::empty()
    } else {
        view_mod_lines(vs.drop_last()) + "pub mod "@ + vs.last().name + ";\r\n"@
    }
}

pub open spec fn controller_mod_lines(cs: Seq<ControllerModel>) -> Seq<char>
    decreases cs.len(),
{
    if cs.len() == 0 {
        Seq::empty()
    } else {
        controller_mod_lines(cs.drop_last()) + "pub mod "@ + cs.last().name + "_controller;\r\n"@
    }
}

/// The module file of the views: one `pub mod` line per view, in order, at
/// `<root>/<view_dir>/mod.rs`.
pub fn generate_view_mod(view: &Vec<View>, config: &Config) -> (r: GeneratedFile)
    ensures
        r@.0 == dir_path(*config, config.view_dir@) + "mod.rs"@,
        r@.1 == GENERATE_MESSAGE@ + view_mod_lines(view@.map_values(|v: View| v@)),
{
    let ghost vs = view@.map_values(|v: View| v@);
    let mut output = String::new();
    append_text(&mut output, GENERATE_MESSAGE);
    let mut i: usize = 0;
    while i < view.len()
        invariant
            i <= view.len(),
            vs == view@.map_values(|v: View| v@),
            output@ == GENERATE_MESSAGE@ + view_mod_lines(vs.subrange(0, i as int)),
        decreases view.len() - i,
    {
        append_text(&mut output, "pub mod ");
        append_text(&mut output, view[i].name.as_str());
        append_text(&mut output, ";\r\n");
        assert(vs.subrange(0, i + 1).drop_last() =~= vs.subrange(0, i as int));
        assert(output@ =~= GENERATE_MESSAGE@ + view_mod_lines(vs.subrange(0, i + 1)));
        i = i + 1;
    }
    assert(vs.subrange(0, i as int) =~= vs);
    GeneratedFile { path: mod_path(config, &config.view_dir), contents: output }
}

/// The module file of the controllers: one `pub mod <name>_controller` line
/// per controller, in order, at `<root>/<controller_dir>/mod.rs`.
pub fn generate_controller_mod(controllers: &Vec<Controller>, config: &Config) -> (r:
    GeneratedFile)
    ensures
        r@.0 == dir_path(*config, config.controller_dir@) + "mod.rs"@,
        r@.1 == GENERATE_MESSAGE@ + controller_mod_lines(
            controllers@.map_values(|c: Controller| c@),
        ),
{
    let ghost cs = controllers@.map_values(|c: Controller| c@);
    let mut output = String::new();
    append_text(&mut output, GENERATE_MESSAGE);
    let mut i: usize = 0;
    while i < controllers.len()
        invariant
            i <= controllers.len(),
            cs == controllers@.map_values(|c: Controller| c@),
            output@ == GENERATE_MESSAGE@ + controller_mod_lines(cs.subrange(0, i as int)),
        decreases controllers.len() - i,
    {
        append_text(&mut output, "pub mod ");
        append_text(&mut output, controllers[i].name.as_str());
        append_text(&mut output, "_controller;\r\n");
        assert(cs.subrange(0, i + 1).drop_last() =~= cs.subrange(0, i as int));
        assert(output@ =~= GENERATE_MESSAGE@ + controller_mod_lines(cs.subrange(0, i + 1)));
        i = i + 1;
    }
    assert(cs.subrange(0, i as int) =~= cs);
    GeneratedFile { path: mod_path(config, &config.controller_dir), contents: output }
}

/// `<root>/<dir>/mod.rs`
fn mod_path(config: &Config, dir: &String) -> (r: String)
    ensures
        r@ == dir_path(*config, dir@) + "mod.rs"@,
{
    let mut p = config.root_dir.clone();
    append_text(&mut p, "/");
    append_text(&mut p, dir.as_str());
    append_text(&mut p, "/");
    append_text(&mut p, "mod.rs");
    assert(p@ =~= dir_path(*config, dir@) + "mod.rs"@);
    p
}

/// The namespaces of all views, in order, repeats included.
pub open spec fn all_namespaces(vs: Seq<ViewModel>) -> Seq<Seq<char>>
    decreases vs.len(),
{
    if vs.len() == 0 {
        Seq::empty()
    } else {
        all_namespaces(vs.drop_last()) + vs.last().use_namespaces
    }
}

/// Each text once, where it first occurs.
pub open spec fn first_occurrences(s: Seq<Seq<char>>) -> Seq<Seq<char>>
    decreases s.len(),
{
    if s.len() == 0 {
        Seq::empty()
    } else {
        let d = first_occurrences(s.drop_last());
        if d.contains(s.last()) {
            d
        } else {
            d.push(s.last())
        }
    }
}

pub open spec fn route_line(controller: Seq<char>, a: ActionModel) -> Seq<char> {
    "\tif request.url_match(\""@ + a.path + "\") { return (\""@ + a.name
        + "\", controllers::"@ + controller + "_controller::"@ + a.name
        + "(view_context)); }\r\n"@
}

pub open spec fn action_route_lines(controller: Seq<char>, acts: Seq<ActionModel>) -> Seq<char>
    decreases acts.len(),
{
    if acts.len() == 0 {
        Seq::empty()
    } else {
        action_route_lines(controller, acts.drop_last()) + route_line(controller, acts.last())
    }
}

/// One path test per action, controllers and actions in order.
pub open spec fn route_lines(cs: Seq<ControllerModel>) -> Seq<char>
    decreases cs.len(),
{
    if cs.len() == 0 {
        Seq::empty()
    } else {
        route_lines(cs.drop_last()) + action_route_lines(cs.last().name, cs.last().actions)
    }
}

pub open spec fn plain_view_line(v: ViewModel) -> Seq<char> {
    match v.model {
        None => "\tif view_name.eq(\""@ + v.name + "\") { return Some(views::"@ + v.name
            + "::generate()); }\r\n"@,
        Some(_) => Seq::empty(),
    }
}

pub open spec fn model_view_line(v: ViewModel) -> Seq<char> {
    match v.model {
        Some(m) => "\tif view_name.eq(\""@ + v.name
            + "\") {\r\n\t\tif let Some(model) = model.downcast_ref::<"@ + m
            + ">() {\r\n\t\t\treturn Some(views::"@ + v.name
            + "::generate(model));\r\n\t\t} else {\r\n\t\t\treturn None;\r\n\t\t}\r\n\t}\r\n"@,
        None => Seq::empty(),
    }
}

pub open spec fn plain_view_lines(vs: Seq<ViewModel>) -> Seq<char>
    decreases vs.len(),
{
    if vs.len() == 0 {
        Seq::empty()
    } else {
        plain_view_lines(vs.drop_last()) + plain_view_line(vs.last())
    }
}

pub open spec fn model_view_lines(vs: Seq<ViewModel>) -> Seq<char>
    decreases vs.len(),
{
    if vs.len() == 0 {
        Seq::empty()
    } else {
        model_view_lines(vs.drop_last()) + model_view_line(vs.last())
    }
}

/// The dispatch file: imports, the URL resolver, and the two view
/// dispatchers (views without a model, views with one).
pub open spec fn run_text(a: crate::data::AppModel) -> Seq<char> {
    GENERATE_MESSAGE@
        + "#[allow(unused_imports)] use controllers;\r\n#[allow(unused_imports)] use views;\r\n#[allow(unused_imports)] use rust_mvc;\r\n\r\n"@
        + use_lines(first_occurrences(all_namespaces(a.views)))
        + "use std::any::Any;\r\n\r\n"@
        + "#[allow(dead_code)] fn resolve_url(request: &mut rust_mvc::server::Request) -> (&'static str, rust_mvc::view::ViewResult) {\r\n\tlet view_context: rust_mvc::view::ViewContext = request.get_view_context();\r\n"@
        + route_lines(a.controllers)
        + "\t(\"\", Err(rust_mvc::view::ViewError::UrlNotFound))\r\n}\r\n\r\n"@
        + "#[allow(dead_code)] fn execute_view(view_name: String) -> Option<String> {\r\n"@
        + plain_view_lines(a.views) + "\tNone\r\n}\r\n\r\n"@
        + "#[allow(dead_code)] fn execute_view_with_model(view_name: String, model: Box<dyn Any>) -> Option<String> {\r\n"@
        + model_view_lines(a.views) + "\tNone\r\n}\r\n\r\n"@
        + "#[allow(dead_code)] pub fn run() -> rust_mvc::server::Server {\r\n\trust_mvc::server::Server::create(\"localhost\", 8181, resolve_url, execute_view, execute_view_with_model)\r\n}\r\n"@
}

pub open spec fn views_view(v: Seq<View>) -> Seq<ViewModel> {
    v.map_values(|x: View| x@)
}

fn contains_text(v: &Vec<String>, s: &String) -> (r: bool)
    ensures
        r == strings_view(v@).contains(s@),
{
    let mut i: usize = 0;
    while i < v.len()
        invariant
            i <= v.len(),
            forall|k: int| 0 <= k < i ==> v@[k]@ != s@,
        decreases v.len() - i,
    {
        if v[i] == *s {
            assert(strings_view(v@)[i as int] == s@);
            return true;
        }
        i = i + 1;
    }
    assert(!strings_view(v@).contains(s@)) by {
        if strings_view(v@).contains(s@) {
            let k = choose|k: int| 0 <= k < strings_view(v@).len() && strings_view(v@)[k] == s@;
            assert(v@[k]@ == s@);
        }
    }
    false
}

/// Appends a `use` line for each namespace of the views, first occurrence
/// only.
fn append_view_uses(out: &mut String, views: &Vec<View>)
    ensures
        final(out)@ == old(out)@ + use_lines(first_occurrences(all_namespaces(views_view(views@)))),
{
    let ghost vs = views_view(views@);
    let ghost start = out@;
    let mut included: Vec<String> = Vec::new();
    let mut i: usize = 0;
    assert(strings_view(included@) =~= Seq::<Seq<char>>::empty());
    while i < views.len()
        invariant
            i <= views.len(),
            vs == views_view(views@),
            strings_view(included@) == first_occurrences(all_namespaces(vs.subrange(0, i as int))),
            out@ == start + use_lines(strings_view(included@)),
        decreases views.len() - i,
    {
        let ns = &views[i].use_namespaces;
        let ghost done = all_namespaces(vs.subrange(0, i as int));
        let ghost nsv = vs[i as int].use_namespaces;
        assert(nsv == strings_view(ns@));
        let mut j: usize = 0;
        assert(done + nsv.subrange(0, 0) =~= done);
        while j < ns.len()
            invariant
                j <= ns.len(),
                nsv == strings_view(ns@),
                strings_view(included@) == first_occurrences(done + nsv.subrange(0, j as int)),
                out@ == start + use_lines(strings_view(included@)),
            decreases ns.len() - j,
        {
            let ghost prev = strings_view(included@);
            assert((done + nsv.subrange(0, j + 1)).drop_last() =~= done + nsv.subrange(0, j as int));
            assert((done + nsv.subrange(0, j + 1)).last() == nsv[j as int]);
            if !contains_text(&included, &ns[j]) {
                append_text(out, "use ");
                append_text(out, ns[j].as_str());
                append_text(out, ";\r\n");
                included.push(ns[j].clone());
                assert(strings_view(included@) =~= prev.push(nsv[j as int]));
                assert(strings_view(included@).drop_last() =~= prev);
                assert(out@ =~= start + use_lines(strings_view(included@)));
            }
            j = j + 1;
        }
        assert(vs.subrange(0, i + 1).drop_last() =~= vs.subrange(0, i as int));
        assert(nsv.subrange(0, j as int) =~= nsv);
        i = i + 1;
    }
    assert(vs.subrange(0, i as int) =~= vs);
}

pub open spec fn controllers_view(v: Seq<Controller>) -> Seq<ControllerModel> {
    v.map_values(|c: Controller| c@)
}

/// Appends one path test per action of each controller.
fn append_routes(out: &mut String, controllers: &Vec<Controller>)
    ensures
        final(out)@ == old(out)@ + route_lines(controllers_view(controllers@)),
{
    let ghost cs = controllers_view(controllers@);
    let ghost start = out@;
    let mut i: usize = 0;
    while i < controllers.len()
        invariant
            i <= controllers.len(),
            cs == controllers_view(controllers@),
            out@ == start + route_lines(cs.subrange(0, i as int)),
        decreases controllers.len() - i,
    {
        let c = &controllers[i];
        let ghost acts = cs[i as int].actions;
        let ghost mid = out@;
        let mut j: usize = 0;
        while j < c.actions.len()
            invariant
                j <= c.actions.len(),
                acts == c@.actions,
                c@ == cs[i as int],
                out@ == mid + action_route_lines(c@.name, acts.subrange(0, j as int)),
            decreases c.actions.len() - j,
        {
            let a = &c.actions[j];
            append_text(out, "\tif request.url_match(\"");
            append_text(out, a.path.as_str());
            append_text(out, "\") { return (\"");
            append_text(out, a.name.as_str());
            append_text(out, "\", controllers::");
            append_text(out, c.name.as_str());
            append_text(out, "_controller::");
            append_text(out, a.name.as_str());
            append_text(out, "(view_context)); }\r\n");
            assert(acts.subrange(0, j + 1).drop_last() =~= acts.subrange(0, j as int));
            assert(acts[j as int] == a@);
            assert(out@ =~= mid + action_route_lines(c@.name, acts.subrange(0, j + 1)));
            j = j + 1;
        }
        assert(acts.subrange(0, j as int) =~= acts);
        assert(cs.subrange(0, i + 1).drop_last() =~= cs.subrange(0, i as int));
        assert(out@ =~= start + route_lines(cs.subrange(0, i + 1)));
        i = i + 1;
    }
    assert(cs.subrange(0, i as int) =~= cs);
}

/// Appends the dispatch line of each view without a model (`with_model`
/// false), or of each view with one (`with_model` true).
fn append_view_dispatch(out: &mut String, views: &Vec<View>, with_model: bool)
    ensures
        final(out)@ == old(out)@ + if with_model {
            model_view_lines(views_view(views@))
        } else {
            plain_view_lines(views_view(views@))
        },
{
    let ghost vs = views_view(views@);
    let ghost start = out@;
    let mut i: usize = 0;
    while i < views.len()
        invariant
            i <= views.len(),
            vs == views_view(views@),
            out@ == start + if with_model {
                model_view_lines(vs.subrange(0, i as int))
            } else {
                plain_view_lines(vs.subrange(0, i as int))
            },
        decreases views.len() - i,
    {
        let v = &views[i];
        assert(vs[i as int] == v@);
        match &v.model {
            Some(m) => {
                if with_model {
                    append_text(out, "\tif view_name.eq(\"");
                    append_text(out, v.name.as_str());
                    append_text(out, "\") {\r\n\t\tif let Some(model) = model.downcast_ref::<");
                    append_text(out, m.as_str());
                    append_text(out, ">() {\r\n\t\t\treturn Some(views::");
                    append_text(out, v.name.as_str());
                    append_text(
                        out,
                        "::generate(model));\r\n\t\t} else {\r\n\t\t\treturn None;\r\n\t\t}\r\n\t}\r\n",
                    );
                }
            },
            None => {
                if !with_model {
                    append_text(out, "\tif view_name.eq(\"");
                    append_text(out, v.name.as_str());
                    append_text(out, "\") { return Some(views::");
                    append_text(out, v.name.as_str());
                    append_text(out, "::generate()); }\r\n");
                }
            },
        }
        assert(vs.subrange(0, i + 1).drop_last() =~= vs.subrange(0, i as int));
        assert(out@ =~= start + if with_model {
            model_view_lines(vs.subrange(0, i + 1))
        } else {
            plain_view_lines(vs.subrange(0, i + 1))
        });
        i = i + 1;
    }
    assert(vs.subrange(0, i as int) =~= vs);
}

/// The dispatch file of the application, at `<root>/run.rs`.
pub fn generate_run(application: &Application, config: &Config) -> (r: GeneratedFile)
    ensures
        r@.0 == config.root_dir@ + "/run.rs"@,
        r@.1 == run_text(application@),
{
    let mut output = String::new();
    append_text(&mut output, GENERATE_MESSAGE);
    append_text(
        &mut output,
        "#[allow(unused_imports)] use controllers;\r\n#[allow(unused_imports)] use views;\r\n#[allow(unused_imports)] use rust_mvc;\r\n\r\n",
    );
    append_view_uses(&mut output, &application.views);
    append_text(&mut output, "use std::any::Any;\r\n\r\n");
    append_text(
        &mut output,
        "#[allow(dead_code)] fn resolve_url(request: &mut rust_mvc::server::Request) -> (&'static str, rust_mvc::view::ViewResult) {\r\n\tlet view_context: rust_mvc::view::ViewContext = request.get_view_context();\r\n",
    );
    append_routes(&mut output, &application.controllers);
    append_text(&mut output, "\t(\"\", Err(rust_mvc::view::ViewError::UrlNotFound))\r\n}\r\n\r\n");
    append_text(
        &mut output,
        "#[allow(dead_code)] fn execute_view(view_name: String) -> Option<String> {\r\n",
    );
    append_view_dispatch(&mut output, &application.views, false);
    append_text(&mut output, "\tNone\r\n}\r\n\r\n");
    append_text(
        &mut output,
        "#[allow(dead_code)] fn execute_view_with_model(view_name: String, model: Box<dyn Any>) -> Option<String> {\r\n",
    );
    append_view_dispatch(&mut output, &application.views, true);
    append_text(&mut output, "\tNone\r\n}\r\n\r\n");
    append_text(
        &mut output,
        "#[allow(dead_code)] pub fn run() -> rust_mvc::server::Server {\r\n\trust_mvc::server::Server::create(\"localhost\", 8181, resolve_url, execute_view, execute_view_with_model)\r\n}\r\n",
    );
    assert(output@ =~= run_text(application@));
    let mut path = config.root_dir.clone();
    append_text(&mut path, "/run.rs");
    GeneratedFile { path, contents: output }
}

} // verus!
