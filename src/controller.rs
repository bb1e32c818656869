use vstd::prelude::*;
use vstd::view::View as ModelView;
use crate::attributes::{attributes_before, attrs_view, find_attributes_reversed, Attribute, AttrModel};
use crate::data::{
    action_wf, app_wf, ActionModel, Application, ArgModel, Controller, ControllerAction,
    ControllerActionArgument, ControllerModel,
};
use crate::error::ParseError;
use crate::text::append_text;
use crate::token::{is_word, token_is_word, Token};

verus! {

/// State of the argument-list scanner: parentheses opened and closed so far,
/// open angle brackets, whether the name (not the type) is being read, the
/// pending name and type, and the arguments complete so far.
pub struct ArgScan {
    pub opens: nat,
    pub closes: nat,
    pub angle: nat,
    pub naming: bool,
    pub name: Seq<char>,
    pub ty: Seq<char>,
    pub done: Seq<ArgModel>,
}

pub open spec fn scan_start() -> ArgScan {
    ArgScan {
        opens: 0,
        closes: 0,
        angle: 0,
        naming: true,
        name: Seq::empty(),
        ty: Seq::empty(),
        done: Seq::empty(),
    }
}

/// Adds text to the name or the type, whichever is being read.
pub open spec fn emit(st: ArgScan, s: Seq<char>) -> ArgScan {
    if st.naming {
        ArgScan { name: st.name + s, ..st }
    } else {
        ArgScan { ty: st.ty + s, ..st }
    }
}

/// Inside the outermost parentheses and outside any angle brackets.
pub open spec fn at_top(st: ArgScan) -> bool {
    st.opens == st.closes + 1 && st.angle == 0
}

pub open spec fn finish(st: ArgScan) -> Seq<ArgModel> {
    if st.name.len() > 0 && st.ty.len() > 0 {
        st.done.push((st.name, st.ty))
    } else {
        st.done
    }
}

/// The argument list read from index `i` on, or `None` where a token that no
/// signature holds comes first, or the tokens end before the list closes.
pub open spec fn scan_arguments(toks: Seq<Token>, i: int, st: ArgScan) -> Option<Seq<ArgModel>>
    decreases toks.len() - i,
{
    if i < 0 || i >= toks.len() {
        None
    } else {
        match toks[i] {
            Token::OpenParen => {
                let s2 = ArgScan { opens: st.opens + 1, ..st };
                if s2.opens == s2.closes + 1 {
                    scan_arguments(toks, i + 1, s2)
                } else {
                    scan_arguments(toks, i + 1, emit(s2, "("@))
                }
            },
            Token::CloseParen => {
                let s2 = ArgScan { closes: st.closes + 1, ..st };
                if s2.opens == s2.closes {
                    Some(finish(s2))
                } else {
                    scan_arguments(toks, i + 1, emit(s2, ")"@))
                }
            },
            Token::Colon => if at_top(st) {
                scan_arguments(toks, i + 1, ArgScan { naming: false, ..st })
            } else {
                scan_arguments(toks, i + 1, emit(st, ":"@))
            },
            Token::Comma => if at_top(st) {
                scan_arguments(
                    toks,
                    i + 1,
                    ArgScan {
                        naming: true,
                        name: Seq::empty(),
                        ty: Seq::empty(),
                        done: st.done.push((st.name, st.ty)),
                        ..st
                    },
                )
            } else {
                scan_arguments(toks, i + 1, emit(st, ","@))
            },
            Token::PathSep => scan_arguments(toks, i + 1, emit(st, "::"@)),
            Token::Lt => scan_arguments(toks, i + 1, emit(ArgScan { angle: st.angle + 1, ..st }, "<"@)),
            Token::Gt => scan_arguments(
                toks,
                i + 1,
                emit(
                    ArgScan {
                        angle: if st.angle > 0 {
                            (st.angle - 1) as nat
                        } else {
                            0
                        },
                        ..st
                    },
                    ">"@,
                ),
            ),
            Token::Underscore => scan_arguments(toks, i + 1, emit(st, "_"@)),
            Token::Ident(s) => scan_arguments(toks, i + 1, emit(st, s@)),
            _ => None,
        }
    }
}

pub open spec fn args_view(v: Seq<ControllerActionArgument>) -> Seq<ArgModel> {
    v.map_values(|a: ControllerActionArgument| a@)
}

/// Reads the argument list that opens at `ast[start]`: pairs of name and
/// type split at top-level commas, the type after the first top-level colon.
/// Angle brackets are tracked too, so the comma of `HashMap<K, V>` stays in
/// its type.
pub fn parse_controller_arguments(ast: &Vec<Token>, start: usize, fn_name: &String) -> (r: Result<
    Vec<ControllerActionArgument>,
    ParseError,
>)
    ensures
        match r {
            Ok(v) => scan_arguments(ast@, start as int, scan_start()) == Some(args_view(v@)),
            Err(e) => scan_arguments(ast@, start as int, scan_start()) is None
                && e is UnexpectedNode,
        },
{
    let mut opens: usize = 0;
    let mut closes: usize = 0;
    let mut angle: usize = 0;
    let mut naming = true;
    let mut name = String::new();
    let mut ty = String::new();
    let mut result: Vec<ControllerActionArgument> = Vec::new();
    let mut i: usize = start;
    assert(args_view(result@) =~= Seq::<ArgModel>::empty());
    while i < ast.len()
        invariant
            opens <= i - start || i == start && opens == 0,
            closes <= i - start || i == start && closes == 0,
            angle <= i - start || i == start && angle == 0,
            i >= start,
            scan_arguments(ast@, start as int, scan_start()) == scan_arguments(
                ast@,
                i as int,
                ArgScan {
                    opens: opens as nat,
                    closes: closes as nat,
                    angle: angle as nat,
                    naming,
                    name: name@,
                    ty: ty@,
                    done: args_view(result@),
                },
            ),
        decreases ast.len() - i,
    {
        let ghost st = ArgScan {
            opens: opens as nat,
            closes: closes as nat,
            angle: angle as nat,
            naming,
            name: name@,
            ty: ty@,
            done: args_view(result@),
        };
        match &ast[i] {
            Token::OpenParen => {
                opens = opens + 1;
                if opens != closes + 1 {
                    if naming {
                        append_text(&mut name, "(");
                    } else {
                        append_text(&mut ty, "(");
                    }
                }
            },
            Token::CloseParen => {
                closes = closes + 1;
                if opens == closes {
                    if name.unicode_len() > 0 && ty.unicode_len() > 0 {
                        result.push(ControllerActionArgument::new(name, ty));
                        assert(args_view(result@) =~= st.done.push((st.name, st.ty)));
                    }
                    return Ok(result);
                }
                if naming {
                    append_text(&mut name, ")");
                } else {
                    append_text(&mut ty, ")");
                }
            },
            Token::Colon => {
                if opens == closes + 1 && angle == 0 {
                    naming = false;
                } else if naming {
                    append_text(&mut name, ":");
                } else {
                    append_text(&mut ty, ":");
                }
            },
            Token::Comma => {
                if opens == closes + 1 && angle == 0 {
                    naming = true;
                    result.push(ControllerActionArgument::new(name, ty));
                    assert(args_view(result@) =~= st.done.push((st.name, st.ty)));
                    name = String::new();
                    ty = String::new();
                } else if naming {
                    append_text(&mut name, ",");
                } else {
                    append_text(&mut ty, ",");
                }
            },
            Token::PathSep => {
                if naming {
                    append_text(&mut name, "::");
                } else {
                    append_text(&mut ty, "::");
                }
            },
            Token::Lt => {
                angle = angle + 1;
                if naming {
                    append_text(&mut name, "<");
                } else {
                    append_text(&mut ty, "<");
                }
            },
            Token::Gt => {
                if angle > 0 {
                    angle = angle - 1;
                }
                if naming {
                    append_text(&mut name, ">");
                } else {
                    append_text(&mut ty, ">");
                }
            },
            Token::Underscore => {
                if naming {
                    append_text(&mut name, "_");
                } else {
                    append_text(&mut ty, "_");
                }
            },
            Token::Ident(s) => {
                if naming {
                    append_text(&mut name, s.as_str());
                } else {
                    append_text(&mut ty, s.as_str());
                }
            },
            _ => {
                let mut msg = String::from_str("unexpected token `");
                append_text(&mut msg, crate::token::token_text(&ast[i]).as_str());
                append_text(&mut msg, "` in the signature of fn ");
                append_text(&mut msg, fn_name.as_str());
                return Err(ParseError::UnexpectedNode(msg));
            },
        }
        i = i + 1;
    }
    let mut msg = String::from_str("unexpected end of fn ");
    append_text(&mut msg, fn_name.as_str());
    Err(ParseError::UnexpectedNode(msg))
}

/// The path of the first `http_url` attribute from index `i` on, where
/// that attribute has a non-empty first argument.
pub open spec fn route_from(attrs: Seq<AttrModel>, i: int) -> Option<Seq<char>>
    decreases attrs.len() - i,
{
    if i < 0 || i >= attrs.len() {
        None
    } else if attrs[i].0 == "http_url"@ {
        if attrs[i].1.len() > 0 && attrs[i].1[0].len() > 0 {
            Some(attrs[i].1[0])
        } else {
            None
        }
    } else {
        route_from(attrs, i + 1)
    }
}

pub open spec fn route_of(attrs: Seq<AttrModel>) -> Option<Seq<char>> {
    route_from(attrs, 0)
}

pub open spec fn has_attr(attrs: Seq<AttrModel>, n: Seq<char>) -> bool {
    exists|i: int| 0 <= i < attrs.len() && (#[trigger] attrs[i]).0 == n
}

/// Whether any of the four verb attributes is present.
pub open spec fn has_verb(attrs: Seq<AttrModel>) -> bool {
    has_attr(attrs, "http_get"@) || has_attr(attrs, "http_post"@) || has_attr(attrs, "http_put"@)
        || has_attr(attrs, "http_delete"@)
}

/// The action that a routed function declares.
pub open spec fn action_of(
    name: Seq<char>,
    path: Seq<char>,
    attrs: Seq<AttrModel>,
    args: Seq<ArgModel>,
) -> ActionModel {
    ActionModel {
        name,
        path,
        allow_get: has_attr(attrs, "http_get"@) || !has_verb(attrs),
        allow_put: has_attr(attrs, "http_put"@),
        allow_post: has_attr(attrs, "http_post"@),
        allow_delete: has_attr(attrs, "http_delete"@),
        arguments: args,
    }
}

/// `toks[p]` is the `fn` of a `pub fn` followed by its name.
pub open spec fn is_pub_fn(toks: Seq<Token>, p: int) -> bool {
    &&& 1 <= p
    &&& p + 1 < toks.len()
    &&& is_word(toks[p], "fn"@)
    &&& is_word(toks[p - 1], "pub"@)
    &&& toks[p + 1] is Ident
}

pub open spec fn fn_name_at(toks: Seq<Token>, p: int) -> Seq<char> {
    match toks[p + 1] {
        Token::Ident(s) => s@,
        _ => Seq::empty(),
    }
}

/// What the token at `p` contributes: `Ok(Some(a))` for a routed public
/// function, `Ok(None)` for anything else, `Err` where its attributes or its
/// signature cannot be read.
pub open spec fn action_at(toks: Seq<Token>, p: int) -> Result<Option<ActionModel>, ()> {
    if !is_pub_fn(toks, p) {
        Ok(None)
    } else {
        match attributes_before(toks, p - 1) {
            None => Err(()),
            Some(attrs) => match route_of(attrs) {
                None => Ok(None),
                Some(path) => match scan_arguments(toks, p + 2, scan_start()) {
                    None => Err(()),
                    Some(args) => Ok(Some(action_of(fn_name_at(toks, p), path, attrs, args))),
                },
            },
        }
    }
}

/// The actions declared by `toks[0..p]`, in order.
pub open spec fn actions_upto(toks: Seq<Token>, p: int) -> Result<Seq<ActionModel>, ()>
    decreases p,
{
    if p <= 0 {
        Ok(Seq::empty())
    } else {
        match actions_upto(toks, p - 1) {
            Err(()) => Err(()),
            Ok(s) => match action_at(toks, p - 1) {
                Err(()) => Err(()),
                Ok(None) => Ok(s),
                Ok(Some(a)) => Ok(s.push(a)),
            },
        }
    }
}

/// The actions of a whole controller file.
pub open spec fn controller_actions(toks: Seq<Token>) -> Result<Seq<ActionModel>, ()> {
    actions_upto(toks, toks.len() as int)
}

proof fn lemma_error_persists(toks: Seq<Token>, p: int, q: int)
    requires
        p <= q,
        actions_upto(toks, p) is Err,
    ensures
        actions_upto(toks, q) is Err,
    decreases q - p,
{
    if p < q {
        lemma_error_persists(toks, p, q - 1);
    }
}

proof fn lemma_route_not_empty(attrs: Seq<AttrModel>, i: int)
    requires
        route_from(attrs, i) is Some,
    ensures
        route_from(attrs, i)->Some_0.len() > 0,
    decreases attrs.len() - i,
{
    if 0 <= i < attrs.len() && attrs[i].0 != "http_url"@ {
        lemma_route_not_empty(attrs, i + 1);
    }
}

/// Every action that a declaration yields has a path and a verb.
pub proof fn lemma_action_well_formed(toks: Seq<Token>, p: int)
    requires
        action_at(toks, p) is Ok,
        action_at(toks, p)->Ok_0 is Some,
    ensures
        action_wf(action_at(toks, p)->Ok_0->Some_0),
{
    let attrs = attributes_before(toks, p - 1)->Some_0;
    lemma_route_not_empty(attrs, 0);
}

/// Every action of a file's prefix has a path and a verb.
pub proof fn lemma_actions_well_formed(toks: Seq<Token>, p: int)
    requires
        actions_upto(toks, p) is Ok,
    ensures
        forall|j: int|
            0 <= j < actions_upto(toks, p)->Ok_0.len() ==> action_wf(
                #[trigger] actions_upto(toks, p)->Ok_0[j],
            ),
    decreases p,
{
    if p > 0 {
        lemma_actions_well_formed(toks, p - 1);
        if action_at(toks, p - 1) is Ok && action_at(toks, p - 1)->Ok_0 is Some {
            lemma_action_well_formed(toks, p - 1);
        }
    }
}

/// The path of the first `http_url` attribute, where its first argument is
/// not empty.
fn find_route(attrs: &Vec<Attribute>) -> (r: Option<String>)
    ensures
        match r {
            Some(s) => route_of(attrs_view(attrs@)) == Some(s@),
            None => route_of(attrs_view(attrs@)) is None,
        },
{
    let ghost av = attrs_view(attrs@);
    let mut i: usize = 0;
    while i < attrs.len()
        invariant
            i <= attrs.len(),
            av == attrs_view(attrs@),
            route_of(av) == route_from(av, i as int),
        decreases attrs.len() - i,
    {
        if crate::text::same_text(attrs[i].name.as_str(), "http_url") {
            if attrs[i].args.len() > 0 && attrs[i].args[0].unicode_len() > 0 {
                return Some(attrs[i].args[0].clone());
            } else {
                return None;
            }
        }
        i = i + 1;
    }
    None
}

/// Whether an attribute of that name is present.
fn has_attribute(attrs: &Vec<Attribute>, name: &str) -> (r: bool)
    ensures
        r == has_attr(attrs_view(attrs@), name@),
{
    let ghost av = attrs_view(attrs@);
    let mut i: usize = 0;
    while i < attrs.len()
        invariant
            i <= attrs.len(),
            av == attrs_view(attrs@),
            forall|k: int| 0 <= k < i ==> (#[trigger] av[k]).0 != name@,
        decreases attrs.len() - i,
    {
        if crate::text::same_text(attrs[i].name.as_str(), name) {
            assert(av[i as int].0 == name@);
            return true;
        }
        i = i + 1;
    }
    false
}

pub open spec fn actions_view(v: Seq<ControllerAction>) -> Seq<ActionModel> {
    v.map_values(|a: ControllerAction| a@)
}

/// Reads the routed public functions of one controller file and adds the
/// controller to the application when it routes at least one of them.
pub fn parse_controller(application: &mut Application, ast: &Vec<Token>, name: String) -> (r:
    Result<(), ParseError>)
    ensures
        match controller_actions(ast@) {
            Err(()) => r is Err && final(application)@ == old(application)@,
            Ok(acts) => r is Ok && final(application)@.views == old(application)@.views
                && final(application)@.controllers == if acts.len() > 0 {
                old(application)@.controllers.push(ControllerModel { name: name@, actions: acts })
            } else {
                old(application)@.controllers
            },
        },
        app_wf(old(application)@) ==> app_wf(final(application)@),
        controller_actions(ast@) is Ok ==> forall|j: int|
            0 <= j < controller_actions(ast@)->Ok_0.len() ==> action_wf(
                #[trigger] controller_actions(ast@)->Ok_0[j],
            ),
{
    let mut controller = Controller::new(name);
    let mut p: usize = 0;
    assert(actions_view(controller.actions@) =~= Seq::<ActionModel>::empty());
    while p < ast.len()
        invariant
            p <= ast.len(),
            controller.name@ == name@,
            actions_upto(ast@, p as int) == Ok::<Seq<ActionModel>, ()>(actions_view(controller.actions@)),
            application == old(application),
        decreases ast.len() - p,
    {
        let ghost before = actions_view(controller.actions@);
        match parse_action(ast, p) {
            Err(e) => {
                proof {
                    lemma_error_persists(ast@, p + 1, ast.len() as int);
                }
                return Err(e);
            },
            Ok(None) => {},
            Ok(Some(a)) => {
                controller.actions.push(a);
                assert(actions_view(controller.actions@) =~= before.push(controller.actions@.last()@));
            },
        }
        p = p + 1;
    }
    proof {
        lemma_actions_well_formed(ast@, ast.len() as int);
    }
    if controller.actions.len() > 0 {
        let ghost olda = application@;
        application.controllers.push(controller);
        assert(application@.controllers =~= olda.controllers.push(controller@));
    }
    Ok(())
}

/// The action that the token at `p` declares, if any.
fn parse_action(ast: &Vec<Token>, p: usize) -> (r: Result<Option<ControllerAction>, ParseError>)
    requires
        p < ast.len(),
    ensures
        match action_at(ast@, p as int) {
            Err(()) => r is Err,
            Ok(None) => r == Ok::<Option<ControllerAction>, ParseError>(None),
            Ok(Some(a)) => r is Ok && r->Ok_0 is Some && r->Ok_0->Some_0@ == a,
        },
{
    if p < 1 || p + 1 >= ast.len() || !token_is_word(&ast[p], "fn") || !token_is_word(
        &ast[p - 1],
        "pub",
    ) {
        return Ok(None);
    }
    let fn_name = match &ast[p + 1] {
        Token::Ident(s) => s.clone(),
        _ => {
            return Ok(None);
        },
    };
    let attrs = find_attributes_reversed(ast, p - 1)?;
    let path = match find_route(&attrs) {
        Some(u) => u,
        None => {
            return Ok(None);
        },
    };
    let get = has_attribute(&attrs, "http_get");
    let post = has_attribute(&attrs, "http_post");
    let put = has_attribute(&attrs, "http_put");
    let delete = has_attribute(&attrs, "http_delete");
    let args = parse_controller_arguments(ast, p + 2, &fn_name)?;
    let action = ControllerAction {
        name: fn_name,
        path: path,
        allow_get: get || (!get && !post && !put && !delete),
        allow_put: put,
        allow_post: post,
        allow_delete: delete,
        arguments: args,
    };
    Ok(Some(action))
}

proof fn lemma_prefix_ok(toks: Seq<Token>, p: int, q: int)
    requires
        p <= q,
        actions_upto(toks, q) is Ok,
    ensures
        actions_upto(toks, p) is Ok,
{
    if actions_upto(toks, p) is Err {
        lemma_error_persists(toks, p, q);
    }
}

/// The action that the declaration at `p` yields stands in the actions of
/// every longer prefix.
proof fn lemma_action_kept(toks: Seq<Token>, p: int, q: int)
    requires
        0 <= p < q,
        actions_upto(toks, q) is Ok,
        action_at(toks, p) is Ok,
        action_at(toks, p)->Ok_0 is Some,
    ensures
        actions_upto(toks, q)->Ok_0.contains(action_at(toks, p)->Ok_0->Some_0),
    decreases q,
{
    let a = action_at(toks, p)->Ok_0->Some_0;
    lemma_prefix_ok(toks, q - 1, q);
    if q == p + 1 {
        assert(actions_upto(toks, q)->Ok_0.last() == a);
    } else {
        lemma_action_kept(toks, p, q - 1);
        let s = actions_upto(toks, q - 1)->Ok_0;
        let k = choose|k: int| 0 <= k < s.len() && s[k] == a;
        assert(actions_upto(toks, q)->Ok_0[k] == a);
    }
}

/// Each action of a prefix comes from the declaration at some index of it.
proof fn lemma_action_origin(toks: Seq<Token>, q: int)
    requires
        actions_upto(toks, q) is Ok,
    ensures
        forall|j: int|
            0 <= j < actions_upto(toks, q)->Ok_0.len() ==> exists|r: int|
                0 <= r < q && #[trigger] action_at(toks, r) == Ok::<Option<ActionModel>, ()>(
                    Some(#[trigger] actions_upto(toks, q)->Ok_0[j]),
                ),
    decreases q,
{
    if q > 0 {
        lemma_action_origin(toks, q - 1);
        let s = actions_upto(toks, q - 1)->Ok_0;
        let t = actions_upto(toks, q)->Ok_0;
        assert forall|j: int| 0 <= j < t.len() implies exists|r: int|
            0 <= r < q && #[trigger] action_at(toks, r) == Ok::<Option<ActionModel>, ()>(
                Some(#[trigger] t[j]),
            ) by {
            if j < s.len() {
                assert(t[j] == s[j]);
                let r = choose|r: int|
                    0 <= r < q - 1 && #[trigger] action_at(toks, r) == Ok::<
                        Option<ActionModel>,
                        (),
                    >(Some(s[j]));
                assert(action_at(toks, r) == Ok::<Option<ActionModel>, ()>(Some(t[j])));
            } else {
                assert(action_at(toks, q - 1) == Ok::<Option<ActionModel>, ()>(Some(t[j])));
            }
        }
    }
}

/// A routed function that carries no verb attribute answers GET alone, and
/// that action, with its name and path, stands in its controller's actions.
pub proof fn lemma_no_verb_means_get_only(toks: Seq<Token>, p: int, attrs: Seq<AttrModel>)
    requires
        is_pub_fn(toks, p),
        attributes_before(toks, p - 1) == Some(attrs),
        route_of(attrs) is Some,
        scan_arguments(toks, p + 2, scan_start()) is Some,
        !has_verb(attrs),
    ensures
        action_at(toks, p) is Ok,
        action_at(toks, p)->Ok_0 is Some,
        action_at(toks, p)->Ok_0->Some_0.name == fn_name_at(toks, p),
        action_at(toks, p)->Ok_0->Some_0.path == route_of(attrs)->Some_0,
        action_at(toks, p)->Ok_0->Some_0.allow_get,
        !action_at(toks, p)->Ok_0->Some_0.allow_put,
        !action_at(toks, p)->Ok_0->Some_0.allow_post,
        !action_at(toks, p)->Ok_0->Some_0.allow_delete,
        controller_actions(toks) is Ok ==> controller_actions(toks)->Ok_0.contains(
            action_at(toks, p)->Ok_0->Some_0,
        ),
{
    if controller_actions(toks) is Ok {
        lemma_action_kept(toks, p, toks.len() as int);
    }
}

/// A routed function that carries a verb attribute answers exactly the
/// verbs it names, and that action stands in its controller's actions.
pub proof fn lemma_verbs_are_exact(toks: Seq<Token>, p: int, attrs: Seq<AttrModel>)
    requires
        is_pub_fn(toks, p),
        attributes_before(toks, p - 1) == Some(attrs),
        route_of(attrs) is Some,
        scan_arguments(toks, p + 2, scan_start()) is Some,
        has_verb(attrs),
    ensures
        action_at(toks, p) is Ok,
        action_at(toks, p)->Ok_0 is Some,
        action_at(toks, p)->Ok_0->Some_0.allow_get == has_attr(attrs, "http_get"@),
        action_at(toks, p)->Ok_0->Some_0.allow_put == has_attr(attrs, "http_put"@),
        action_at(toks, p)->Ok_0->Some_0.allow_post == has_attr(attrs, "http_post"@),
        action_at(toks, p)->Ok_0->Some_0.allow_delete == has_attr(attrs, "http_delete"@),
        controller_actions(toks) is Ok ==> controller_actions(toks)->Ok_0.contains(
            action_at(toks, p)->Ok_0->Some_0,
        ),
{
    if controller_actions(toks) is Ok {
        lemma_action_kept(toks, p, toks.len() as int);
    }
}

proof fn lemma_no_route_attribute(attrs: Seq<AttrModel>, i: int)
    requires
        0 <= i,
        !has_attr(attrs, "http_url"@),
    ensures
        route_from(attrs, i) is None,
    decreases attrs.len() - i,
{
    if i < attrs.len() {
        assert(attrs[i].0 != "http_url"@);
        lemma_no_route_attribute(attrs, i + 1);
    }
}

/// A function without an `http_url` attribute never becomes an action,
/// whatever else it carries: each action of the controller comes from the
/// declaration at some other index.
pub proof fn lemma_no_route_no_action(toks: Seq<Token>, p: int, attrs: Seq<AttrModel>)
    requires
        attributes_before(toks, p - 1) == Some(attrs),
        !has_attr(attrs, "http_url"@),
    ensures
        action_at(toks, p) == Ok::<Option<ActionModel>, ()>(None),
        controller_actions(toks) is Ok ==> forall|j: int|
            0 <= j < controller_actions(toks)->Ok_0.len() ==> exists|r: int|
                0 <= r < toks.len() && r != p && #[trigger] action_at(toks, r) == Ok::<
                    Option<ActionModel>,
                    (),
                >(Some(#[trigger] controller_actions(toks)->Ok_0[j])),
{
    lemma_no_route_attribute(attrs, 0);
    if controller_actions(toks) is Ok {
        lemma_action_origin(toks, toks.len() as int);
        let t = controller_actions(toks)->Ok_0;
        assert forall|j: int| 0 <= j < t.len() implies exists|r: int|
            0 <= r < toks.len() && r != p && #[trigger] action_at(toks, r) == Ok::<
                Option<ActionModel>,
                (),
            >(Some(#[trigger] t[j])) by {
            let r = choose|r: int|
                0 <= r < toks.len() && #[trigger] action_at(toks, r) == Ok::<
                    Option<ActionModel>,
                    (),
                >(Some(t[j]));
            assert(r != p);
        }
    }
}

/// The controller name that a file stem gives: the stem without its
/// `_controller` suffix, or `None` where the stem does not end so.
pub fn controller_name(stem: &str) -> (r: Option<String>)
    ensures
        match r {
            Some(n) => stem@ == n@ + "_controller"@,
            None => !(exists|n: Seq<char>| stem@ == n + "_controller"@),
        },
{
    let suffix: &str = "_controller";
    proof {
        reveal_strlit("_controller");
    }
    let t = crate::text::chars_of(stem);
    let n = t.len();
    let k = suffix.unicode_len();
    assert(suffix@ == "_controller"@);
    assert(k == 11);
    if n < k {
        assert forall|x: Seq<char>| stem@ != x + "_controller"@ by {
            assert((x + "_controller"@).len() >= k);
        }
        return None;
    }
    let mut i: usize = 0;
    while i < k
        invariant
            n == t.len() == stem@.len(),
            t@ == stem@,
            suffix@ == "_controller"@,
            k == suffix@.len(),
            k <= n,
            i <= k,
            forall|j: int| 0 <= j < i ==> t@[n - k + j] == suffix@[j],
        decreases k - i,
    {
        if t[n - k + i] != suffix.get_char(i) {
            assert forall|x: Seq<char>| stem@ != x + "_controller"@ by {
                if stem@ == x + "_controller"@ {
                    assert(x.len() == n - k);
                    assert((x + "_controller"@)[n - k + i] == suffix@[i as int]);
                }
            }
            return None;
        }
        i = i + 1;
    }
    let name = crate::text::string_of_range(&t, 0, n - k);
    assert(stem@ =~= name@ + "_controller"@);
    Some(name)
}

} // verus!
