//! What the operating system says about the user's directories.

use vstd::prelude::*;

verus! {

/// The current user's home directory as `directories::BaseDirs::new` and
/// `BaseDirs::home_dir` report it, or `None` where the system names none or
/// names one that is not valid UTF-8. The lookup reads the environment and
/// the user database and no file of the user's. The answer depends on the
/// environment, so nothing is claimed of it.
#[verifier::external_body]
pub(crate) fn home_dir() -> Option<String> {
    let dirs = directories::BaseDirs::new()?;
    Some(dirs.home_dir().to_str()?.to_string())
}

/// The per-application configuration directory as
/// `directories::ProjectDirs::from` and `ProjectDirs::config_dir` report it,
/// or `None` where no home directory can be determined or the directory is
/// not valid UTF-8. Which directory it is depends on the platform and the
/// environment; on every platform it is a base directory with at least one
/// more component joined to it, so it is never the empty path.
#[verifier::external_body]
pub(crate) fn project_config_dir(qualifier: &str, organization: &str, application: &str) -> (dir:
    Option<String>)
    ensures
        dir matches Some(dir) ==> dir@.len() > 0,
{
    let dirs = directories::ProjectDirs::from(qualifier, organization, application)?;
    Some(dirs.config_dir().to_str()?.to_string())
}

} // verus!
