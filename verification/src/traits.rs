//! Conversion traits shared by the value types of the library.  Each trait
//! pairs the executable conversion with a specification function, so that an
//! implementing type states exactly which string every value converts to.

use vstd::prelude::*;

verus! {

/// The git URL a template is cloned from.
pub trait ToGitUrl {
    spec fn git_url_spec(&self) -> Seq<char>;

    fn to_git_url(&self) -> (r: String)
        ensures
            r@ == self.git_url_spec(),
    ;
}

/// The git tag a template is pinned to.
pub trait ToGitTag {
    spec fn git_tag_spec(&self) -> Seq<char>;

    fn to_git_tag(&self) -> (r: String)
        ensures
            r@ == self.git_tag_spec(),
    ;
}

/// The token a value contributes to a command line.
pub trait ToCliArg {
    spec fn cli_arg_spec(&self) -> Seq<char>;

    fn to_cli_arg(&self) -> (r: String)
        ensures
            r@ == self.cli_arg_spec(),
    ;
}

/// The flag a build profile passes to the engine exporter.
pub trait ToExportArg {
    spec fn export_arg_spec(&self) -> Seq<char>;

    fn to_export_arg(&self) -> (r: String)
        ensures
            r@ == self.export_arg_spec(),
    ;
}

/// The engine's export-preset family name for a platform.
pub trait ToExportName {
    spec fn export_name_spec(&self) -> Seq<char>;

    fn to_export_name(&self) -> (r: String)
        ensures
            r@ == self.export_name_spec(),
    ;
}

/// The dynamic-library file extension a platform uses.
pub trait ToLibExt {
    spec fn lib_ext_spec(&self) -> Seq<char>;

    fn to_lib_ext(&self) -> (r: String)
        ensures
            r@ == self.lib_ext_spec(),
    ;
}

/// The application (packaged game) file extension a platform uses.
pub trait ToAppExt {
    spec fn app_ext_spec(&self) -> Seq<char>;

    fn to_app_ext(&self) -> (r: String)
        ensures
            r@ == self.app_ext_spec(),
    ;
}

/// The library file-name prefix a platform uses.
pub trait ToLibPrefix {
    spec fn lib_prefix_spec(&self) -> Seq<char>;

    fn to_lib_prefix(&self) -> (r: String)
        ensures
            r@ == self.lib_prefix_spec(),
    ;
}

/// The one-line diagnostic a value renders to for the user.
pub trait ToMessage {
    spec fn message_spec(&self) -> Seq<char>;

    fn to_message(&self) -> (r: String)
        ensures
            r@ == self.message_spec(),
    ;
}

} // verus!
