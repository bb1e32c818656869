use vstd::prelude::*;

verus! {

/// Where the generated files are written.
pub struct Config {
    pub root_dir: String,
    pub controller_dir: String,
    pub view_dir: String,
}

impl Config {
    /// The default layout: the current directory as root, with `controllers`
    /// and `views` below it.
    pub fn new() -> (r: Config)
        ensures
            r.root_dir@ == Seq::<char>::empty(),
            r.controller_dir@ == "controllers"@,
            r.view_dir@ == "views"@,
    {
        Config {
            root_dir: String::new(),
            controller_dir: String::from_str("controllers"),
            view_dir: String::from_str("views"),
        }
    }
}

} // verus!
