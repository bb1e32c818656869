use vstd::prelude::*;

use vstd::view::View as ModelView;

verus! {

/// The whole application: its controllers and its views, in the order found.
pub struct Application {
    pub controllers: Vec<Controller>,
    pub views: Vec<View>,
}

/// A controller, named after its file, with the actions it routes.
pub struct Controller {
    pub name: String,
    pub actions: Vec<ControllerAction>,
}

/// A routed function of a controller.
pub struct ControllerAction {
    pub name: String,
    pub path: String,
    pub allow_get: bool,
    pub allow_put: bool,
    pub allow_post: bool,
    pub allow_delete: bool,
    pub arguments: Vec<ControllerActionArgument>,
}

/// One parameter of an action: its name and its type, as text.
pub struct ControllerActionArgument {
    pub name: String,
    pub _type: String,
}

/// A compiled view template.
pub struct View {
    pub name: String,
    pub model: Option<String>,
    pub use_namespaces: Vec<String>,
    pub parts: Vec<ViewPart>,
}

/// A piece of a view: literal output, or an expression rendered in place.
pub enum ViewPart {
    Static(String),
    Code(String),
}

/// An argument as a pair of texts: name and type.
pub type ArgModel = (Seq<char>, Seq<char>);

/// What an action holds, as plain values.
pub struct ActionModel {
    pub name: Seq<char>,
    pub path: Seq<char>,
    pub allow_get: bool,
    pub allow_put: bool,
    pub allow_post: bool,
    pub allow_delete: bool,
    pub arguments: Seq<ArgModel>,
}

/// What a controller holds, as plain values.
pub struct ControllerModel {
    pub name: Seq<char>,
    pub actions: Seq<ActionModel>,
}

pub enum PartModel {
    Static(Seq<char>),
    Code(Seq<char>),
}

/// What a view holds, as plain values.
pub struct ViewModel {
    pub name: Seq<char>,
    pub model: Option<Seq<char>>,
    pub use_namespaces: Seq<Seq<char>>,
    pub parts: Seq<PartModel>,
}

pub struct AppModel {
    pub controllers: Seq<ControllerModel>,
    pub views: Seq<ViewModel>,
}

pub open spec fn strings_view(v: Seq<String>) -> Seq<Seq<char>> {
    v.map_values(|s: String| s@)
}

impl vstd::view::View for ControllerActionArgument {
    type V = ArgModel;

    open spec fn view(&self) -> ArgModel {
        (self.name@, self._type@)
    }
}

impl vstd::view::View for ControllerAction {
    type V = ActionModel;

    open spec fn view(&self) -> ActionModel {
        ActionModel {
            name: self.name@,
            path: self.path@,
            allow_get: self.allow_get,
            allow_put: self.allow_put,
            allow_post: self.allow_post,
            allow_delete: self.allow_delete,
            arguments: self.arguments@.map_values(|a: ControllerActionArgument| a@),
        }
    }
}

impl vstd::view::View for Controller {
    type V = ControllerModel;

    open spec fn view(&self) -> ControllerModel {
        ControllerModel {
            name: self.name@,
            actions: self.actions@.map_values(|a: ControllerAction| a@),
        }
    }
}

impl vstd::view::View for ViewPart {
    type V = PartModel;

    open spec fn view(&self) -> PartModel {
        match self {
            ViewPart::Static(s) => PartModel::Static(s@),
            ViewPart::Code(s) => PartModel::Code(s@),
        }
    }
}

impl vstd::view::View for View {
    type V = ViewModel;

    open spec fn view(&self) -> ViewModel {
        ViewModel {
            name: self.name@,
            model: match self.model {
                Some(m) => Some(m@),
                None => None,
            },
            use_namespaces: strings_view(self.use_namespaces@),
            parts: self.parts@.map_values(|p: ViewPart| p@),
        }
    }
}

impl vstd::view::View for Application {
    type V = AppModel;

    open spec fn view(&self) -> AppModel {
        AppModel {
            controllers: self.controllers@.map_values(|c: Controller| c@),
            views: self.views@.map_values(|v: View| v@),
        }
    }
}

/// A well-formed application lists only controllers that route something.
pub open spec fn app_wf(a: AppModel) -> bool {
    forall|i: int| 0 <= i < a.controllers.len() ==> controller_wf(#[trigger] a.controllers[i])
}

/// A routed action has a path and answers at least one verb.
pub open spec fn action_wf(a: ActionModel) -> bool {
    a.path.len() > 0 && (a.allow_get || a.allow_put || a.allow_post || a.allow_delete)
}

/// A controller routes at least one action, each of them well formed.
pub open spec fn controller_wf(c: ControllerModel) -> bool {
    &&& c.actions.len() > 0
    &&& forall|j: int| 0 <= j < c.actions.len() ==> action_wf(#[trigger] c.actions[j])
}

impl Application {
    pub fn new() -> (r: Application)
        ensures
            r@.controllers.len() == 0,
            r@.views.len() == 0,
            app_wf(r@),
    {
        Application { controllers: Vec::new(), views: Vec::new() }
    }
}

impl Controller {
    pub fn new(name: String) -> (r: Controller)
        ensures
            r@.name == name@,
            r@.actions.len() == 0,
    {
        Controller { name: name, actions: Vec::new() }
    }
}

impl ControllerActionArgument {
    pub fn new(name: String, _type: String) -> (r: ControllerActionArgument)
        ensures
            r@ == (name@, _type@),
    {
        ControllerActionArgument { name: name, _type: _type }
    }
}

impl View {
    pub fn new(name: String) -> (r: View)
        ensures
            r@.name == name@,
            r@.model is None,
            r@.use_namespaces.len() == 0,
            r@.parts.len() == 0,
    {
        View { name: name, model: None, use_namespaces: Vec::new(), parts: Vec::new() }
    }
}

} // verus!
