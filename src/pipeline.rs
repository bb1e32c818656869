use vstd::prelude::*;
use vstd::view::View as ModelView;
use crate::config::Config;
use crate::data::{AppModel, Application};
use crate::generator::{
    controller_mod_lines, dir_path, generate_controller_mod, generate_run,
    generate_view_mod, generate_view_wrapper, run_text, view_mod_lines, view_wrapper_text,
    GeneratedFile, GENERATE_MESSAGE,
};

verus! {

/// The files of a build: each view's render function, in order, then the
/// module file of the views, that of the controllers, and the dispatch file.
pub open spec fn build_files(c: Config, a: AppModel) -> Seq<(Seq<char>, Seq<char>)> {
    a.views.map_values(
        |v: crate::data::ViewModel|
            (dir_path(c, c.view_dir@) + v.name + ".rs"@, view_wrapper_text(v)),
    ) + seq![
        (dir_path(c, c.view_dir@) + "mod.rs"@, GENERATE_MESSAGE@ + view_mod_lines(a.views)),
        (
            dir_path(c, c.controller_dir@) + "mod.rs"@,
            GENERATE_MESSAGE@ + controller_mod_lines(a.controllers),
        ),
        (c.root_dir@ + "/run.rs"@, run_text(a)),
    ]
}

/// Renders every file of the application; writing them is left to the caller.
pub fn build(config: &Config, application: &Application) -> (r: Vec<GeneratedFile>)
    ensures
        r@.map_values(|f: GeneratedFile| f@) == build_files(*config, application@),
{
    let mut files: Vec<GeneratedFile> = Vec::new();
    let ghost target = build_files(*config, application@);
    let mut i: usize = 0;
    while i < application.views.len()
        invariant
            i <= application.views.len(),
            target == build_files(*config, application@),
            files@.map_values(|f: GeneratedFile| f@) == target.subrange(0, i as int),
        decreases application.views.len() - i,
    {
        let f = generate_view_wrapper(&application.views[i], config);
        assert(application@.views[i as int] == application.views@[i as int]@);
        assert(application@.views.len() == application.views@.len());
        assert(target[i as int] == (
            dir_path(*config, config.view_dir@) + application@.views[i as int].name + ".rs"@,
            view_wrapper_text(application@.views[i as int]),
        ));
        assert(target[i as int] == f@);
        let ghost before = files@.map_values(|f: GeneratedFile| f@);
        let ghost fview = f@;
        files.push(f);
        assert(files@.map_values(|f: GeneratedFile| f@) =~= before.push(fview));
        assert(files@.map_values(|f: GeneratedFile| f@) =~= target.subrange(0, i + 1));
        i = i + 1;
    }
    let ghost n = application.views.len() as int;
    assert(target.len() == n + 3);
    let vm = generate_view_mod(&application.views, config);
    let cm = generate_controller_mod(&application.controllers, config);
    let rn = generate_run(application, config);
    assert(target[n] == vm@);
    assert(target[n + 1] == cm@);
    assert(target[n + 2] == rn@);
    let ghost fv0 = files@.map_values(|f: GeneratedFile| f@);
    files.push(vm);
    files.push(cm);
    files.push(rn);
    let ghost fv = files@.map_values(|f: GeneratedFile| f@);
    assert(fv =~= fv0.push(vm@).push(cm@).push(rn@));
    assert(fv =~= target);
    files
}

/// Building twice from the same application and configuration gives the
/// same files, byte for byte.
pub proof fn lemma_build_is_reproducible(c1: Config, c2: Config, a1: AppModel, a2: AppModel)
    requires
        c1.root_dir@ == c2.root_dir@,
        c1.controller_dir@ == c2.controller_dir@,
        c1.view_dir@ == c2.view_dir@,
        a1 == a2,
    ensures
        build_files(c1, a1) == build_files(c2, a2),
{
    assert(build_files(c1, a1) =~= build_files(c2, a2));
}

} // verus!
