//! The one setting the catalog needs: the root directory under which the tenants live.

use vstd::prelude::*;
use vstd::string::StringExecFns;

verus! {

/// The name of the setting that holds the root directory.
pub open spec fn root_setting_text() -> Seq<char> {
    "TARGET_FOLDER"@
}

/// The root directory that is used where the setting is absent.
pub open spec fn default_root_text() -> Seq<char> {
    "generated"@
}

/// The root directory for a given value of the setting.
pub open spec fn root_for(setting: Option<Seq<char>>) -> Seq<char> {
    match setting {
        Some(path) => path,
        None => default_root_text(),
    }
}

/// The name of the setting that holds the root directory.
pub fn root_setting_name() -> (name: &'static str)
    ensures
        name@ == root_setting_text(),
{
    "TARGET_FOLDER"
}

/// Resolves the root directory from the value of the setting: the value where it is
/// set, even to the empty text, and the default where it is not.
pub fn resolve_root_path(setting: Option<String>) -> (root: String)
    ensures
        root@ == root_for(
            match setting {
                Some(s) => Some(s@),
                None => None,
            },
        ),
{
    match setting {
        Some(path) => path,
        None => String::from_str("generated"),
    }
}

} // verus!
