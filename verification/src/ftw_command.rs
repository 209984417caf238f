//! The commands the tool processes, and the pure decisions behind them: which
//! files a valid project layout must hold, which scaffolding entries a new
//! project ignores or removes, and which success value each completed command
//! reports.  The shell around the library performs the filesystem checks and
//! process invocations these decisions call for.

use crate::ftw_build_type::FtwBuildType;
use crate::ftw_machine_type::FtwMachineType;
use crate::ftw_success::FtwSuccess;
use crate::ftw_tag::FtwTag;
use crate::ftw_target::FtwTarget;
use crate::ftw_template::FtwTemplate;
use crate::node_type::NodeType;
use crate::traits::ToCliArg;
use crate::type_alias::{ClassName, ProjectName};
use vstd::prelude::*;

verus! {

/// One request made of the tool.
#[derive(Debug, PartialEq, Eq)]
pub enum FtwCommand {
    New { project_name: ProjectName, template: FtwTemplate, tag: FtwTag },
    Class { class_name: ClassName, node_type: NodeType },
    Singleton { class_name: ClassName },
    Run { machine_type: FtwMachineType },
    Build { targets: Vec<FtwTarget>, build_type: FtwBuildType },
    Export { targets: Vec<FtwTarget>, build_type: FtwBuildType },
    Clean,
}

/// One operation in the processing of a command.  The shell around the
/// library performs each in order; any failure aborts the remaining steps.
#[derive(Clone, Copy, Debug, PartialEq, Eq, Structural)]
pub enum FtwStep {
    /// Check that the working directory holds a valid project layout.
    EnsureValidProject,
    /// Generate the project directory from the template.
    GenerateProject,
    /// Append the ignore entries to the new project's ignore file.
    AppendToGitignore,
    /// Remove the template leftovers from the new project.
    DeleteTemplateLeftovers,
    /// Create the class source, resource, scene and module files.
    CreateClassFiles,
    /// Create the singleton class source, resource and module files.
    CreateSingletonFiles,
    /// Check that the platform can host a headless server build.
    EnsureLinuxServer { target: FtwTarget },
    /// Clean the build artifacts.
    Clean,
    /// Build the library for the platform with the profile, and stage the
    /// artifact.
    BuildLib { target: FtwTarget, build_type: FtwBuildType },
    /// Export the packaged game for the platform with the profile.
    ExportGame { target: FtwTarget, build_type: FtwBuildType },
    /// Run the game under the engine.
    RunWithGodot,
}

/// The build steps of a target list: one library build per target, in order.
pub open spec fn build_steps_spec(targets: Seq<FtwTarget>, build_type: FtwBuildType) -> Seq<
    FtwStep,
>
    decreases targets.len(),
{
    if targets.len() == 0 {
        Seq::empty()
    } else {
        seq![FtwStep::BuildLib { target: targets[0], build_type }] + build_steps_spec(
            targets.drop_first(),
            build_type,
        )
    }
}

/// The export steps of a target list: one library build followed by one
/// export per target, in order.
pub open spec fn export_steps_spec(targets: Seq<FtwTarget>, build_type: FtwBuildType) -> Seq<
    FtwStep,
>
    decreases targets.len(),
{
    if targets.len() == 0 {
        Seq::empty()
    } else {
        seq![
            FtwStep::BuildLib { target: targets[0], build_type },
            FtwStep::ExportGame { target: targets[0], build_type },
        ] + export_steps_spec(targets.drop_first(), build_type)
    }
}

/// One more target appends its build step.
proof fn lemma_build_steps_push(targets: Seq<FtwTarget>, t: FtwTarget, build_type: FtwBuildType)
    ensures
        build_steps_spec(targets.push(t), build_type) == build_steps_spec(targets, build_type)
            + seq![FtwStep::BuildLib { target: t, build_type }],
    decreases targets.len(),
{
    if targets.len() == 0 {
        assert(targets.push(t)[0] == t);
        assert(targets.push(t).drop_first() =~= Seq::<FtwTarget>::empty());
        assert(build_steps_spec(targets.push(t), build_type) == seq![
            FtwStep::BuildLib { target: t, build_type },
        ] + build_steps_spec(Seq::<FtwTarget>::empty(), build_type));
        assert(build_steps_spec(Seq::<FtwTarget>::empty(), build_type) == Seq::<FtwStep>::empty());
        assert(seq![FtwStep::BuildLib { target: t, build_type }] + Seq::<FtwStep>::empty()
            =~= seq![FtwStep::BuildLib { target: t, build_type }]);
        assert(build_steps_spec(targets, build_type) + seq![
            FtwStep::BuildLib { target: t, build_type },
        ] =~= seq![FtwStep::BuildLib { target: t, build_type }]);
    } else {
        lemma_build_steps_push(targets.drop_first(), t, build_type);
        assert(targets.push(t)[0] == targets[0]);
        assert(targets.push(t).drop_first() =~= targets.drop_first().push(t));
        assert((seq![FtwStep::BuildLib { target: targets[0], build_type }] + (build_steps_spec(
            targets.drop_first(),
            build_type,
        ) + seq![FtwStep::BuildLib { target: t, build_type }])) =~= ((seq![
            FtwStep::BuildLib { target: targets[0], build_type },
        ] + build_steps_spec(targets.drop_first(), build_type)) + seq![
            FtwStep::BuildLib { target: t, build_type },
        ]));
    }
}

/// One more target appends its build and export steps.
proof fn lemma_export_steps_push(targets: Seq<FtwTarget>, t: FtwTarget, build_type: FtwBuildType)
    ensures
        export_steps_spec(targets.push(t), build_type) == export_steps_spec(targets, build_type)
            + seq![
            FtwStep::BuildLib { target: t, build_type },
            FtwStep::ExportGame { target: t, build_type },
        ],
    decreases targets.len(),
{
    if targets.len() == 0 {
        assert(targets.push(t)[0] == t);
        assert(targets.push(t).drop_first() =~= Seq::<FtwTarget>::empty());
        assert(export_steps_spec(targets.push(t), build_type) == seq![
            FtwStep::BuildLib { target: t, build_type },
            FtwStep::ExportGame { target: t, build_type },
        ] + export_steps_spec(Seq::<FtwTarget>::empty(), build_type));
        assert(export_steps_spec(Seq::<FtwTarget>::empty(), build_type) == Seq::<
            FtwStep,
        >::empty());
        assert(seq![
            FtwStep::BuildLib { target: t, build_type },
            FtwStep::ExportGame { target: t, build_type },
        ] + Seq::<FtwStep>::empty() =~= seq![
            FtwStep::BuildLib { target: t, build_type },
            FtwStep::ExportGame { target: t, build_type },
        ]);
        assert(export_steps_spec(targets, build_type) + seq![
            FtwStep::BuildLib { target: t, build_type },
            FtwStep::ExportGame { target: t, build_type },
        ] =~= seq![
            FtwStep::BuildLib { target: t, build_type },
            FtwStep::ExportGame { target: t, build_type },
        ]);
    } else {
        lemma_export_steps_push(targets.drop_first(), t, build_type);
        assert(targets.push(t)[0] == targets[0]);
        assert(targets.push(t).drop_first() =~= targets.drop_first().push(t));
        let head = seq![
            FtwStep::BuildLib { target: targets[0], build_type },
            FtwStep::ExportGame { target: targets[0], build_type },
        ];
        let tail = seq![
            FtwStep::BuildLib { target: t, build_type },
            FtwStep::ExportGame { target: t, build_type },
        ];
        assert((head + (export_steps_spec(targets.drop_first(), build_type) + tail)) =~= ((head
            + export_steps_spec(targets.drop_first(), build_type)) + tail));
    }
}

/// The files every project layout must hold, besides the per-platform
/// directory markers.
pub open spec fn base_project_files_spec() -> Seq<Seq<char>> {
    seq![
        "Cargo.toml"@,
        "Makefile"@,
        "godot/default_env.tres"@,
        "godot/export_presets.cfg"@,
        "godot/native/game.gdnlib"@,
        "godot/project.godot"@,
        "rust/src/lib.rs"@,
        "rust/Cargo.toml"@,
    ]
}

/// The two directory markers one platform contributes to a valid layout.
pub open spec fn target_keep_files_spec(t: FtwTarget) -> Seq<Seq<char>> {
    seq!["bin/"@ + t.cli_arg_spec() + "/.gitkeep"@, "lib/"@ + t.cli_arg_spec() + "/.gitkeep"@]
}

/// The directory markers of a list of platforms, in order.
pub open spec fn targets_keep_files_spec(ts: Seq<FtwTarget>) -> Seq<Seq<char>>
    decreases ts.len(),
{
    if ts.len() == 0 {
        Seq::empty()
    } else {
        target_keep_files_spec(ts[0]) + targets_keep_files_spec(ts.drop_first())
    }
}

/// One more platform appends its two markers.
proof fn lemma_targets_keep_files_push(ts: Seq<FtwTarget>, t: FtwTarget)
    ensures
        targets_keep_files_spec(ts.push(t)) == targets_keep_files_spec(ts)
            + target_keep_files_spec(t),
    decreases ts.len(),
{
    if ts.len() == 0 {
        assert(ts.push(t)[0] == t);
        assert(ts.push(t).drop_first() =~= Seq::<FtwTarget>::empty());
        assert(targets_keep_files_spec(ts.push(t)) == target_keep_files_spec(t)
            + targets_keep_files_spec(Seq::<FtwTarget>::empty()));
        assert(targets_keep_files_spec(Seq::<FtwTarget>::empty()) == Seq::<Seq<char>>::empty());
        assert(target_keep_files_spec(t) + Seq::<Seq<char>>::empty() =~= target_keep_files_spec(
            t,
        ));
        assert(targets_keep_files_spec(ts) + target_keep_files_spec(t) =~= target_keep_files_spec(
            t,
        ));
    } else {
        lemma_targets_keep_files_push(ts.drop_first(), t);
        assert(ts.push(t)[0] == ts[0]);
        assert(ts.push(t).drop_first() =~= ts.drop_first().push(t));
        assert((target_keep_files_spec(ts[0]) + (targets_keep_files_spec(ts.drop_first())
            + target_keep_files_spec(t))) =~= ((target_keep_files_spec(ts[0])
            + targets_keep_files_spec(ts.drop_first())) + target_keep_files_spec(t)));
    }
}

/// Every path a valid project layout must hold: the base files, then for each
/// supported platform (in canonical order) its `bin` and `lib` directory
/// markers.  The caller checks existence; for the build-file entry it may
/// also accept the alternative build file the project generator emits.
pub open spec fn required_project_files_spec() -> Seq<Seq<char>> {
    base_project_files_spec() + targets_keep_files_spec(FtwTarget::all_spec())
}

/// Every path a valid project layout must hold.
pub fn required_project_files() -> (r: Vec<String>)
    ensures
        r.deep_view() == required_project_files_spec(),
{
    let mut files: Vec<String> = Vec::new();
    files.push("Cargo.toml".to_owned());
    files.push("Makefile".to_owned());
    files.push("godot/default_env.tres".to_owned());
    files.push("godot/export_presets.cfg".to_owned());
    files.push("godot/native/game.gdnlib".to_owned());
    files.push("godot/project.godot".to_owned());
    files.push("rust/src/lib.rs".to_owned());
    files.push("rust/Cargo.toml".to_owned());
    proof {
        assert(files.deep_view() =~= base_project_files_spec() + targets_keep_files_spec(
            FtwTarget::all_spec().take(0),
        ));
    }
    let targets = FtwTarget::all();
    let mut i: usize = 0;
    while i < targets.len()
        invariant
            0 <= i <= targets@.len(),
            targets@ == FtwTarget::all_spec(),
            files.deep_view() == base_project_files_spec() + targets_keep_files_spec(
                FtwTarget::all_spec().take(i as int),
            ),
        decreases targets@.len() - i,
    {
        let ghost pre_deep = files.deep_view();
        let t = targets[i];
        let mut bin_keep = "bin/".to_owned();
        bin_keep.append(t.to_cli_arg().as_str());
        bin_keep.append("/.gitkeep");
        let ghost bv = bin_keep@;
        files.push(bin_keep);
        proof {
            assert(files.deep_view() =~= pre_deep.push(bv));
        }
        let ghost mid_deep = files.deep_view();
        let mut lib_keep = "lib/".to_owned();
        lib_keep.append(t.to_cli_arg().as_str());
        lib_keep.append("/.gitkeep");
        let ghost lv = lib_keep@;
        files.push(lib_keep);
        proof {
            assert(files.deep_view() =~= mid_deep.push(lv));
            let pre = FtwTarget::all_spec().take(i as int);
            lemma_targets_keep_files_push(pre, targets@[i as int]);
            assert(FtwTarget::all_spec().take(i + 1) =~= pre.push(targets@[i as int]));
            assert(target_keep_files_spec(targets@[i as int])[0] == bv);
            assert(target_keep_files_spec(targets@[i as int])[1] == lv);
            assert(files.deep_view() =~= base_project_files_spec() + targets_keep_files_spec(
                FtwTarget::all_spec().take(i + 1),
            ));
        }
        i += 1;
    }
    proof {
        assert(FtwTarget::all_spec().take(FtwTarget::all_spec().len() as int)
            =~= FtwTarget::all_spec());
    }
    files
}

/// The entries a new project appends to its ignore file.
pub open spec fn gitignore_entries_spec() -> Seq<Seq<char>> {
    seq![".ftw"@, "bin/*"@, "godot/export_presets.cfg"@, "lib/*"@]
}

/// The entries a new project appends to its ignore file.
pub fn gitignore_entries() -> (r: Vec<String>)
    ensures
        r.deep_view() == gitignore_entries_spec(),
{
    let mut v: Vec<String> = Vec::new();
    v.push(".ftw".to_owned());
    v.push("bin/*".to_owned());
    v.push("godot/export_presets.cfg".to_owned());
    v.push("lib/*".to_owned());
    proof {
        assert(v.deep_view() =~= gitignore_entries_spec());
    }
    v
}

/// The template leftovers a new project removes, as paths under the project
/// directory.
pub open spec fn delete_item_paths_spec(project_name: Seq<char>) -> Seq<Seq<char>> {
    seq![
        project_name + "/.travis.yml"@,
        project_name + "/LICENSE"@,
        project_name + "/sh"@,
    ]
}

/// The template leftovers a new project removes.
pub fn delete_item_paths(project_name: &str) -> (r: Vec<String>)
    ensures
        r.deep_view() == delete_item_paths_spec(project_name@),
{
    let mut travis = project_name.to_owned();
    travis.append("/.travis.yml");
    let mut license = project_name.to_owned();
    license.append("/LICENSE");
    let mut sh_dir = project_name.to_owned();
    sh_dir.append("/sh");
    let mut v: Vec<String> = Vec::new();
    v.push(travis);
    v.push(license);
    v.push(sh_dir);
    proof {
        assert(v.deep_view() =~= delete_item_paths_spec(project_name@));
    }
    v
}

fn copy_targets(targets: &Vec<FtwTarget>) -> (r: Vec<FtwTarget>)
    ensures
        r@ == targets@,
{
    let mut out: Vec<FtwTarget> = Vec::new();
    let mut i: usize = 0;
    while i < targets.len()
        invariant
            0 <= i <= targets@.len(),
            out@ == targets@.take(i as int),
        decreases targets@.len() - i,
    {
        out.push(targets[i]);
        proof {
            assert(targets@.take(i + 1) =~= targets@.take(i as int).push(targets@[i as int]));
        }
        i += 1;
    }
    proof {
        assert(targets@.take(targets@.len() as int) =~= targets@);
    }
    out
}

impl FtwCommand {
    /// The operations processing this command performs, in order.  A run on
    /// a server machine first checks that the current platform can host a
    /// headless server build; a build or export checks the project layout,
    /// cleans once, and then handles each requested target in order.
    pub open spec fn steps_spec(&self, current_platform: FtwTarget) -> Seq<FtwStep> {
        match self {
            FtwCommand::New { .. } => seq![
                FtwStep::GenerateProject,
                FtwStep::AppendToGitignore,
                FtwStep::DeleteTemplateLeftovers,
            ],
            FtwCommand::Class { .. } => seq![
                FtwStep::EnsureValidProject,
                FtwStep::CreateClassFiles,
            ],
            FtwCommand::Singleton { .. } => seq![
                FtwStep::EnsureValidProject,
                FtwStep::CreateSingletonFiles,
            ],
            FtwCommand::Run { machine_type } => {
                if machine_type == FtwMachineType::Server {
                    seq![
                        FtwStep::EnsureValidProject,
                        (FtwStep::EnsureLinuxServer { target: current_platform }),
                        (FtwStep::BuildLib {
                            target: current_platform,
                            build_type: FtwBuildType::Debug,
                        }),
                        FtwStep::RunWithGodot,
                    ]
                } else {
                    seq![
                        FtwStep::EnsureValidProject,
                        (FtwStep::BuildLib {
                            target: current_platform,
                            build_type: FtwBuildType::Debug,
                        }),
                        FtwStep::RunWithGodot,
                    ]
                }
            },
            FtwCommand::Build { targets, build_type } => seq![
                FtwStep::EnsureValidProject,
                FtwStep::Clean,
            ] + build_steps_spec(targets@, *build_type),
            FtwCommand::Export { targets, build_type } => seq![
                FtwStep::EnsureValidProject,
                FtwStep::Clean,
            ] + export_steps_spec(targets@, *build_type),
            FtwCommand::Clean => seq![FtwStep::Clean],
        }
    }

    /// The operations processing this command performs, in order.
    pub fn steps(&self, current_platform: FtwTarget) -> (r: Vec<FtwStep>)
        ensures
            r@ == self.steps_spec(current_platform),
    {
        match self {
            FtwCommand::New { .. } => {
                let mut v: Vec<FtwStep> = Vec::new();
                v.push(FtwStep::GenerateProject);
                v.push(FtwStep::AppendToGitignore);
                v.push(FtwStep::DeleteTemplateLeftovers);
                proof {
                    assert(v@ =~= self.steps_spec(current_platform));
                }
                v
            },
            FtwCommand::Class { .. } => {
                let mut v: Vec<FtwStep> = Vec::new();
                v.push(FtwStep::EnsureValidProject);
                v.push(FtwStep::CreateClassFiles);
                proof {
                    assert(v@ =~= self.steps_spec(current_platform));
                }
                v
            },
            FtwCommand::Singleton { .. } => {
                let mut v: Vec<FtwStep> = Vec::new();
                v.push(FtwStep::EnsureValidProject);
                v.push(FtwStep::CreateSingletonFiles);
                proof {
                    assert(v@ =~= self.steps_spec(current_platform));
                }
                v
            },
            FtwCommand::Run { machine_type } => {
                let mut v: Vec<FtwStep> = Vec::new();
                v.push(FtwStep::EnsureValidProject);
                if machine_type.is_server() {
                    v.push(FtwStep::EnsureLinuxServer { target: current_platform });
                }
                v.push(
                    FtwStep::BuildLib {
                        target: current_platform,
                        build_type: FtwBuildType::Debug,
                    },
                );
                v.push(FtwStep::RunWithGodot);
                proof {
                    assert(v@ =~= self.steps_spec(current_platform));
                }
                v
            },
            FtwCommand::Build { targets, build_type } => {
                let mut v: Vec<FtwStep> = Vec::new();
                v.push(FtwStep::EnsureValidProject);
                v.push(FtwStep::Clean);
                proof {
                    assert(v@ =~= seq![FtwStep::EnsureValidProject, FtwStep::Clean]
                        + build_steps_spec(targets@.take(0), *build_type));
                }
                let mut i: usize = 0;
                while i < targets.len()
                    invariant
                        0 <= i <= targets@.len(),
                        v@ == seq![FtwStep::EnsureValidProject, FtwStep::Clean]
                            + build_steps_spec(targets@.take(i as int), *build_type),
                    decreases targets@.len() - i,
                {
                    v.push(FtwStep::BuildLib { target: targets[i], build_type: *build_type });
                    proof {
                        lemma_build_steps_push(
                            targets@.take(i as int),
                            targets@[i as int],
                            *build_type,
                        );
                        assert(targets@.take(i + 1) =~= targets@.take(i as int).push(
                            targets@[i as int],
                        ));
                        assert(v@ =~= seq![FtwStep::EnsureValidProject, FtwStep::Clean]
                            + build_steps_spec(targets@.take(i + 1), *build_type));
                    }
                    i += 1;
                }
                proof {
                    assert(targets@.take(targets@.len() as int) =~= targets@);
                }
                v
            },
            FtwCommand::Export { targets, build_type } => {
                let mut v: Vec<FtwStep> = Vec::new();
                v.push(FtwStep::EnsureValidProject);
                v.push(FtwStep::Clean);
                proof {
                    assert(v@ =~= seq![FtwStep::EnsureValidProject, FtwStep::Clean]
                        + export_steps_spec(targets@.take(0), *build_type));
                }
                let mut i: usize = 0;
                while i < targets.len()
                    invariant
                        0 <= i <= targets@.len(),
                        v@ == seq![FtwStep::EnsureValidProject, FtwStep::Clean]
                            + export_steps_spec(targets@.take(i as int), *build_type),
                    decreases targets@.len() - i,
                {
                    v.push(FtwStep::BuildLib { target: targets[i], build_type: *build_type });
                    v.push(FtwStep::ExportGame { target: targets[i], build_type: *build_type });
                    proof {
                        lemma_export_steps_push(
                            targets@.take(i as int),
                            targets@[i as int],
                            *build_type,
                        );
                        assert(targets@.take(i + 1) =~= targets@.take(i as int).push(
                            targets@[i as int],
                        ));
                        assert(v@ =~= seq![FtwStep::EnsureValidProject, FtwStep::Clean]
                            + export_steps_spec(targets@.take(i + 1), *build_type));
                    }
                    i += 1;
                }
                proof {
                    assert(targets@.take(targets@.len() as int) =~= targets@);
                }
                v
            },
            FtwCommand::Clean => {
                let mut v: Vec<FtwStep> = Vec::new();
                v.push(FtwStep::Clean);
                proof {
                    assert(v@ =~= self.steps_spec(current_platform));
                }
                v
            },
        }
    }

    /// The success value a completed run of this command reports, carrying
    /// the same names, targets and profile the command was given.
    pub fn success(&self) -> (r: FtwSuccess)
        ensures
            self matches FtwCommand::New { project_name, template, tag } ==> (r
                matches FtwSuccess::New { project_name: p, template: t, tag: g } && p@
                == project_name@ && t == template && g == tag),
            self matches FtwCommand::Class { class_name, node_type } ==> (r
                matches FtwSuccess::Class { class_name: c, node_type: n } && c@ == class_name@ && n
                == node_type),
            self matches FtwCommand::Singleton { class_name } ==> (r matches FtwSuccess::Singleton {
                class_name: c,
            } && c@ == class_name@),
            self matches FtwCommand::Run { machine_type } ==> (r matches FtwSuccess::Run {
                machine_type: m,
            } && m == machine_type),
            self matches FtwCommand::Build { targets, build_type } ==> (r matches FtwSuccess::Build {
                targets: t,
                build_type: b,
            } && t@ == targets@ && b == build_type),
            self matches FtwCommand::Export { targets, build_type } ==> (r
                matches FtwSuccess::Export { targets: t, build_type: b } && t@ == targets@ && b
                == build_type),
            self matches FtwCommand::Clean ==> r matches FtwSuccess::Clean,
    {
        match self {
            FtwCommand::New { project_name, template, tag } => {
                let template_copy = match template {
                    FtwTemplate::Default { git_url } => FtwTemplate::Default {
                        git_url: git_url.clone(),
                    },
                    FtwTemplate::Custom { git_url } => FtwTemplate::Custom {
                        git_url: git_url.clone(),
                    },
                };
                let tag_copy = match tag {
                    FtwTag::Latest => FtwTag::Latest,
                    FtwTag::Tagged { git_tag } => FtwTag::Tagged { git_tag: git_tag.clone() },
                };
                FtwSuccess::New {
                    project_name: project_name.clone(),
                    template: template_copy,
                    tag: tag_copy,
                }
            },
            FtwCommand::Class { class_name, node_type } => FtwSuccess::Class {
                class_name: class_name.clone(),
                node_type: *node_type,
            },
            FtwCommand::Singleton { class_name } => FtwSuccess::Singleton {
                class_name: class_name.clone(),
            },
            FtwCommand::Run { machine_type } => FtwSuccess::Run { machine_type: *machine_type },
            FtwCommand::Build { targets, build_type } => FtwSuccess::Build {
                targets: copy_targets(targets),
                build_type: *build_type,
            },
            FtwCommand::Export { targets, build_type } => FtwSuccess::Export {
                targets: copy_targets(targets),
                build_type: *build_type,
            },
            FtwCommand::Clean => FtwSuccess::Clean,
        }
    }
}

} // verus!
