//! The template tag a new project is generated from: the pinned latest tag, or
//! a tag the caller names.

use crate::strings::str_eq;
use crate::traits::ToGitTag;
use vstd::prelude::*;

verus! {

/// The tag of the project template.  `Latest` stands for the newest template
/// tag this tool knows; any other identifier is carried through verbatim.
#[derive(Clone, Debug, PartialEq, Eq)]
pub enum FtwTag {
    Latest,
    Tagged { git_tag: String },
}

impl FtwTag {
    /// The template tag that `Latest` stands for.
    pub open spec fn latest_tag_spec() -> Seq<char> {
        "v1.3.0"@
    }

    /// Resolves a tag identifier; never fails: `"latest"` names the pinned
    /// latest tag, every other identifier is kept as an explicit tag.
    pub fn from_str(s: &str) -> (r: FtwTag)
        ensures
            s@ == "latest"@ ==> r == FtwTag::Latest,
            s@ != "latest"@ ==> (r matches FtwTag::Tagged { git_tag } && git_tag@ == s@),
    {
        if str_eq(s, "latest") {
            FtwTag::Latest
        } else {
            FtwTag::Tagged { git_tag: s.to_owned() }
        }
    }

    /// The tag name, as shown to the user; equal to the git tag.
    pub open spec fn display_name_spec(&self) -> Seq<char> {
        self.git_tag_spec()
    }

    /// The tag name, as shown to the user; equal to the git tag.
    pub fn display_name(&self) -> (r: String)
        ensures
            r@ == self.display_name_spec(),
    {
        self.to_git_tag()
    }
}

impl ToGitTag for FtwTag {
    open spec fn git_tag_spec(&self) -> Seq<char> {
        match self {
            FtwTag::Latest => FtwTag::latest_tag_spec(),
            FtwTag::Tagged { git_tag } => git_tag@,
        }
    }

    fn to_git_tag(&self) -> (r: String) {
        match self {
            FtwTag::Latest => "v1.3.0".to_owned(),
            FtwTag::Tagged { git_tag } => git_tag.clone(),
        }
    }
}

impl Default for FtwTag {
    /// The default tag is `Latest`.
    fn default() -> (r: Self)
        ensures
            r == FtwTag::Latest,
    {
        FtwTag::Latest
    }
}

} // verus!
