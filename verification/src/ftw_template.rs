//! The project template a new project is generated from: the stock template
//! that ships with the tool, or a custom one the caller names by URL or path.

use crate::strings::str_eq;
use crate::traits::ToGitUrl;
use vstd::prelude::*;

verus! {

/// The project template.  Both variants carry the git URL (or local path) the
/// template is cloned from.
#[derive(Clone, Debug, PartialEq, Eq)]
pub enum FtwTemplate {
    Default { git_url: String },
    Custom { git_url: String },
}

impl FtwTemplate {
    /// The URL of the stock template.
    pub open spec fn default_template_url_spec() -> Seq<char> {
        "https://github.com/macalimlim/godot-rust-template"@
    }

    /// Resolves a template identifier; never fails: `"default"` names the
    /// stock template, every other identifier is kept as a custom URL or path.
    pub fn from_str(s: &str) -> (r: FtwTemplate)
        ensures
            s@ == "default"@ ==> (r matches FtwTemplate::Default { git_url } && git_url@
                == FtwTemplate::default_template_url_spec()),
            s@ != "default"@ ==> (r matches FtwTemplate::Custom { git_url } && git_url@ == s@),
    {
        if str_eq(s, "default") {
            FtwTemplate::Default {
                git_url: "https://github.com/macalimlim/godot-rust-template".to_owned(),
            }
        } else {
            FtwTemplate::Custom { git_url: s.to_owned() }
        }
    }

    /// The kind of template, as shown to the user.
    pub open spec fn display_name_spec(&self) -> Seq<char> {
        match self {
            FtwTemplate::Default { .. } => "default"@,
            FtwTemplate::Custom { .. } => "custom"@,
        }
    }

    /// The kind of template, as shown to the user.
    pub fn display_name(&self) -> (r: String)
        ensures
            r@ == self.display_name_spec(),
    {
        match self {
            FtwTemplate::Default { .. } => "default".to_owned(),
            FtwTemplate::Custom { .. } => "custom".to_owned(),
        }
    }
}

impl ToGitUrl for FtwTemplate {
    open spec fn git_url_spec(&self) -> Seq<char> {
        match self {
            FtwTemplate::Default { git_url } => git_url@,
            FtwTemplate::Custom { git_url } => git_url@,
        }
    }

    fn to_git_url(&self) -> (r: String) {
        match self {
            FtwTemplate::Default { git_url } => git_url.clone(),
            FtwTemplate::Custom { git_url } => git_url.clone(),
        }
    }
}

impl Default for FtwTemplate {
    /// The default template is the stock template under its pinned URL.
    fn default() -> (r: Self)
        ensures
            r matches FtwTemplate::Default { git_url } && git_url@
                == FtwTemplate::default_template_url_spec(),
    {
        FtwTemplate::Default {
            git_url: "https://github.com/macalimlim/godot-rust-template".to_owned(),
        }
    }
}

} // verus!
