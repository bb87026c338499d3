//! Where the client keeps its files: the per-user configuration, cache and
//! data directories of the application, and the credentials it logs in with.
//!
//! The directories come from `directories::ProjectDirs`, which reads the
//! user's home directory and the XDG variables from the environment.
use directories::ProjectDirs;
use std::path::PathBuf;
use vstd::prelude::*;

verus! {

#[verifier::external_type_specification]
#[verifier::external_body]
pub struct ExPathBuf(PathBuf);

/// The name under which the application's directories are created.
pub const APPLICATION: &'static str = "coldsonic";

/// The file, in the configuration directory, that holds the credentials.
pub const CREDENTIALS_FILE: &'static str = "credentials.toml";

/// The server and the account to log in with.
#[derive(Debug)]
pub struct Credentials {
    pub url: String,
    pub username: String,
    pub password: String,
}

impl Clone for Credentials {
    fn clone(&self) -> (r: Self)
        ensures
            r == *self,
    {
        Credentials {
            url: self.url.clone(),
            username: self.username.clone(),
            password: self.password.clone(),
        }
    }
}

/// The per-user directories of the application, found together.
#[derive(Debug)]
pub struct ProjectPaths {
    pub config: PathBuf,
    pub cache: PathBuf,
    pub data: PathBuf,
}

/// One of the per-user directories of the application.
#[derive(Debug, Clone, Copy, PartialEq, Eq)]
pub enum Directory {
    Config,
    Cache,
    Data,
}

/// The path that `std::path::Path::join` makes of `base` followed by `file`.
pub uninterp spec fn joined_path(base: PathBuf, file: Seq<char>) -> PathBuf;

/// Calls `std::path::Path::join`, whose result depends on its two arguments
/// alone: it is `joined_path` of them.
#[verifier::external_body]
fn path_join(base: &PathBuf, file: &str) -> (r: PathBuf)
    ensures
        r == joined_path(*base, file@),
{
    base.join(file)
}

/// An application name that `directories` uses as it is on every platform:
/// no whitespace to trim or replace, nothing to lowercase.
pub open spec fn plain_name(name: Seq<char>) -> bool {
    &&& name.len() > 0
    &&& forall|i: int| 0 <= i < name.len() ==> ('a' <= #[trigger] name[i] <= 'z' || '0' <= name[i] <= '9')
}

/// `dir` is the directory of kind `kind` of the application `app`: some
/// base directory followed by `app` (Linux, macOS), or followed by `app`
/// and then `kind` (Windows).
pub open spec fn in_app_dir(dir: PathBuf, app: Seq<char>, kind: Seq<char>) -> bool {
    exists|base: PathBuf|
        dir == #[trigger] joined_path(base, app) || dir == joined_path(joined_path(base, app), kind)
}

/// Calls `directories::ProjectDirs::from` and copies out its configuration,
/// cache and data directories (`ProjectDirs::config_dir`, `cache_dir`,
/// `data_dir`). Whether a home directory can be found, and which base
/// directories the XDG variables or the platform give, depend on the
/// environment and are not stated. What holds of every outcome, for an empty
/// qualifier and organization and a plain application name: each directory
/// is a base directory joined with the application name (Linux, macOS), or
/// with the name and then `config`, `cache` or `data` (Windows).
#[verifier::external_body]
fn project_paths_from(qualifier: &str, organization: &str, application: &str) -> (r: Option<
    ProjectPaths,
>)
    ensures
        qualifier@.len() == 0 && organization@.len() == 0 && plain_name(application@) ==> (
        r matches Some(p) ==> {
            &&& in_app_dir(p.config, application@, "config"@)
            &&& in_app_dir(p.cache, application@, "cache"@)
            &&& in_app_dir(p.data, application@, "data"@)
        }),
{
    match ProjectDirs::from(qualifier, organization, application) {
        Some(dirs) => Some(ProjectPaths {
            config: dirs.config_dir().to_path_buf(),
            cache: dirs.cache_dir().to_path_buf(),
            data: dirs.data_dir().to_path_buf(),
        }),
        None => None,
    }
}

/// The directories of this application, if a home directory can be found.
fn project_dirs() -> (r: Option<ProjectPaths>)
    ensures
        r matches Some(p) ==> {
            &&& in_app_dir(p.config, APPLICATION@, "config"@)
            &&& in_app_dir(p.cache, APPLICATION@, "cache"@)
            &&& in_app_dir(p.data, APPLICATION@, "data"@)
        },
{
    proof {
        reveal_strlit("");
        reveal_strlit("coldsonic");
    }
    project_paths_from("", "", APPLICATION)
}

/// The directory of the given kind among `paths`, if there are directories.
pub fn directory_of(paths: Option<ProjectPaths>, which: Directory) -> (r: Option<PathBuf>)
    ensures
        r == match paths {
            Some(p) => Some(
                match which {
                    Directory::Config => p.config,
                    Directory::Cache => p.cache,
                    Directory::Data => p.data,
                },
            ),
            None => None::<PathBuf>,
        },
{
    match paths {
        Some(p) => Some(
            match which {
                Directory::Config => p.config,
                Directory::Cache => p.cache,
                Directory::Data => p.data,
            },
        ),
        None => None,
    }
}

/// `$XDG_CONFIG_HOME/coldsonic` (falls back to `~/.config/coldsonic`).
pub fn config_dir() -> (r: Option<PathBuf>)
    ensures
        r matches Some(dir) ==> in_app_dir(dir, APPLICATION@, "config"@),
{
    directory_of(project_dirs(), Directory::Config)
}

/// `$XDG_CACHE_HOME/coldsonic` (falls back to `~/.cache/coldsonic`).
pub fn cache_dir() -> (r: Option<PathBuf>)
    ensures
        r matches Some(dir) ==> in_app_dir(dir, APPLICATION@, "cache"@),
{
    directory_of(project_dirs(), Directory::Cache)
}

/// `$XDG_DATA_HOME/coldsonic` (falls back to `~/.local/share/coldsonic`).
pub fn data_dir() -> (r: Option<PathBuf>)
    ensures
        r matches Some(dir) ==> in_app_dir(dir, APPLICATION@, "data"@),
{
    directory_of(project_dirs(), Directory::Data)
}

/// `credentials.toml` in the directory `dir`.
pub fn credentials_path_in(dir: &PathBuf) -> (r: PathBuf)
    ensures
        r == joined_path(*dir, CREDENTIALS_FILE@),
{
    path_join(dir, CREDENTIALS_FILE)
}

/// `credentials.toml` in the configuration directory, if there is one.
pub fn credentials_path() -> (r: Option<PathBuf>)
    ensures
        r matches Some(p) ==> exists|dir: PathBuf|
            in_app_dir(dir, APPLICATION@, "config"@) && p == #[trigger] joined_path(
                dir,
                CREDENTIALS_FILE@,
            ),
{
    match config_dir() {
        Some(dir) => Some(credentials_path_in(&dir)),
        None => None,
    }
}

} // verus!
