//! The success value of each completed operation, and the one-line message it
//! renders to for the user.

use crate::ftw_build_type::FtwBuildType;
use crate::ftw_machine_type::FtwMachineType;
use crate::ftw_tag::FtwTag;
use crate::ftw_target::FtwTarget;
use crate::ftw_template::FtwTemplate;
use crate::node_type::NodeType;
use crate::strings::{join_spec, join_with};
use crate::traits::{ToCliArg, ToGitUrl, ToMessage};
use vstd::prelude::*;

verus! {

/// A completed operation, with what it produced.
#[derive(Debug, PartialEq, Eq)]
pub enum FtwSuccess {
    New { project_name: String, template: FtwTemplate, tag: FtwTag },
    Class { class_name: String, node_type: NodeType },
    Singleton { class_name: String },
    Run { machine_type: FtwMachineType },
    Build { targets: Vec<FtwTarget>, build_type: FtwBuildType },
    Export { targets: Vec<FtwTarget>, build_type: FtwBuildType },
    Clean,
}

/// The per-target artifact locations named in a build or export message:
/// each target's canonical directory under the given root.
pub open spec fn target_dirs_spec(targets: Seq<FtwTarget>, root: Seq<char>) -> Seq<Seq<char>> {
    targets.map_values(|t: FtwTarget| root + t.cli_arg_spec())
}

/// The per-target artifact locations, joined for display.
fn target_dirs(targets: &Vec<FtwTarget>, root: &str) -> (r: String)
    ensures
        r@ == join_spec(target_dirs_spec(targets@, root@), ','),
{
    let mut dirs: Vec<String> = Vec::new();
    let mut i: usize = 0;
    proof {
        assert(dirs.deep_view() =~= target_dirs_spec(targets@.take(0), root@));
    }
    while i < targets.len()
        invariant
            0 <= i <= targets@.len(),
            dirs.deep_view() =~= target_dirs_spec(targets@.take(i as int), root@),
        decreases targets@.len() - i,
    {
        let mut d = root.to_owned();
        d.append(targets[i].to_cli_arg().as_str());
        dirs.push(d);
        proof {
            assert(targets@.take(i + 1) =~= targets@.take(i as int).push(targets@[i as int]));
            assert(target_dirs_spec(targets@.take(i + 1), root@) =~= target_dirs_spec(
                targets@.take(i as int),
                root@,
            ).push(root@ + targets@[i as int].cli_arg_spec()));
        }
        i += 1;
    }
    proof {
        assert(targets@.take(targets@.len() as int) =~= targets@);
    }
    join_with(&dirs, ',')
}

impl FtwSuccess {
    /// The description rendered inside the success message.
    pub open spec fn description_spec(&self) -> Seq<char> {
        match self {
            FtwSuccess::New { project_name, template, tag } => "A new project has been created "@
                + project_name@ + " using the "@ + template.display_name_spec() + " ("@
                + template.git_url_spec() + " "@ + tag.display_name_spec() + ") template"@,
            FtwSuccess::Class { class_name, node_type } => "A new class has been created "@
                + class_name@ + " using the "@ + node_type.display_name_spec() + " node type"@,
            FtwSuccess::Singleton { class_name } => "A new singleton class has been created "@
                + class_name@,
            FtwSuccess::Run { machine_type } => "The game was run as a "@
                + machine_type.display_name_spec() + " application"@,
            FtwSuccess::Build { targets, build_type } => "A library was created at "@ + join_spec(
                target_dirs_spec(targets@, "lib/"@),
                ',',
            ) + " with a "@ + build_type.display_name_spec() + " profile"@,
            FtwSuccess::Export { targets, build_type } => "A game was created at "@ + join_spec(
                target_dirs_spec(targets@, "bin/"@),
                ',',
            ) + " with a "@ + build_type.display_name_spec() + " profile"@,
            FtwSuccess::Clean => "The project is now clean from excess artifacts"@,
        }
    }

    fn description(&self) -> (r: String)
        ensures
            r@ == self.description_spec(),
    {
        match self {
            FtwSuccess::New { project_name, template, tag } => {
                let mut m = "A new project has been created ".to_owned();
                m.append(project_name.as_str());
                m.append(" using the ");
                m.append(template.display_name().as_str());
                m.append(" (");
                m.append(template.to_git_url().as_str());
                m.append(" ");
                m.append(tag.display_name().as_str());
                m.append(") template");
                m
            },
            FtwSuccess::Class { class_name, node_type } => {
                let mut m = "A new class has been created ".to_owned();
                m.append(class_name.as_str());
                m.append(" using the ");
                m.append(node_type.display_name().as_str());
                m.append(" node type");
                m
            },
            FtwSuccess::Singleton { class_name } => {
                let mut m = "A new singleton class has been created ".to_owned();
                m.append(class_name.as_str());
                m
            },
            FtwSuccess::Run { machine_type } => {
                let mut m = "The game was run as a ".to_owned();
                m.append(machine_type.display_name().as_str());
                m.append(" application");
                m
            },
            FtwSuccess::Build { targets, build_type } => {
                let mut m = "A library was created at ".to_owned();
                m.append(target_dirs(targets, "lib/").as_str());
                m.append(" with a ");
                m.append(build_type.display_name().as_str());
                m.append(" profile");
                m
            },
            FtwSuccess::Export { targets, build_type } => {
                let mut m = "A game was created at ".to_owned();
                m.append(target_dirs(targets, "bin/").as_str());
                m.append(" with a ");
                m.append(build_type.display_name().as_str());
                m.append(" profile");
                m
            },
            FtwSuccess::Clean => "The project is now clean from excess artifacts".to_owned(),
        }
    }
}

impl ToMessage for FtwSuccess {
    open spec fn message_spec(&self) -> Seq<char> {
        "\u{f164} SUCCESS: "@ + self.description_spec()
    }

    fn to_message(&self) -> (r: String)
        ensures
            r@ == self.message_spec(),
    {
        let mut m = "\u{f164} SUCCESS: ".to_owned();
        m.append(self.description().as_str());
        m
    }
}

} // verus!
