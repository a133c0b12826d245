//! Path management for ORCS: the platform configuration and data directories,
//! and the location each service keeps its data in.
//!
//! Paths are held as strings. With a custom base path (used for testing) every
//! directory lives under that base; otherwise the platform directories are used:
//! the preference directory `com.orcs-app` for configuration and secrets, and
//! the application data directory `orcs` for records.

use vstd::prelude::*;

verus! {

// ============================================================================
// Outside calls
// ============================================================================

/// The string that `std::path::Path::join` gives for `base` joined with `child`.
pub uninterp spec fn joined_path(base: Seq<char>, child: Seq<char>) -> Seq<char>;

/// A single relative path component made of ASCII letters, digits, '.', '_'
/// and '-', other than the references "." and "..".
pub open spec fn is_plain_component(c: Seq<char>) -> bool {
    &&& c.len() > 0
    &&& c != seq!['.']
    &&& c != seq!['.', '.']
    &&& forall|i: int|
        0 <= i < c.len() ==> {
            let ch = #[trigger] c[i];
            ('a' <= ch && ch <= 'z') || ('A' <= ch && ch <= 'Z') || ('0' <= ch && ch <= '9')
                || ch == '.' || ch == '_' || ch == '-'
        }
}

/// Whether `s` ends with `suffix`.
pub open spec fn ends_with(s: Seq<char>, suffix: Seq<char>) -> bool {
    s.len() >= suffix.len() && s.subrange(s.len() - suffix.len(), s.len() as int) == suffix
}

/// Whether `s` starts with `prefix`.
pub open spec fn starts_with(s: Seq<char>, prefix: Seq<char>) -> bool {
    s.len() >= prefix.len() && s.subrange(0, prefix.len() as int) == prefix
}

/// Whether `p` begins with the Windows verbatim prefix `\\?\`, after which
/// joining a component normalizes the whole path.
pub open spec fn has_verbatim_prefix(p: Seq<char>) -> bool {
    starts_with(p, seq!['\\', '\\', '?', '\\'])
}

/// Joins a path component to a base path with `std::path::Path::join`, as a string.
///
/// The contract names the result. For a plain relative component (not "." or
/// "..") and a base without a Windows verbatim prefix, the result starts with
/// the base and ends with the component: `PathBuf::push` only appends (adding a
/// separator when the base has none at its end) unless the component is
/// absolute or carries a prefix, which a plain component cannot. After a
/// verbatim prefix, std normalizes the joined path (removing "." and ".."
/// references), so nothing is stated of the text there. Base paths that are not
/// valid UTF-8 never arise: the base is a `&str`.
#[verifier::external_body]
pub(crate) fn join_path(base: &str, child: &str) -> (r: String)
    ensures
        r@ == joined_path(base@, child@),
        is_plain_component(child@) && !has_verbatim_prefix(base@) ==> starts_with(r@, base@) && ends_with(r@, child@),
{
    std::path::Path::new(base).join(child).to_string_lossy().into_owned()
}

/// The preference directory of `app_name`, from `version_migrate::PrefPath::pref_dir`
/// (which also creates it); None when the home directory cannot be determined
/// or the directory cannot be created.
///
/// The directory depends on the platform and the environment; the contract
/// states only that it ends with the application name, which the source joins
/// last (`config_dir().join(app_name)`, or `~/Library/Preferences` on macOS).
#[verifier::external_body]
fn platform_pref_dir(app_name: &str) -> (r: Option<String>)
    ensures
        r matches Some(p) ==> is_plain_component(app_name@) ==> ends_with(p@, app_name@),
{
    match version_migrate::PrefPath::new(app_name).pref_dir() {
        Ok(p) => Some(p.to_string_lossy().into_owned()),
        Err(_) => None,
    }
}

/// The data directory of `app_name`, from `version_migrate::AppPaths::data_dir`
/// with the system strategy (which also creates it); None when it cannot be
/// determined or created.
///
/// The directory depends on the platform and the environment; the contract
/// states only that it ends with the application name, which the source joins
/// last (`dirs::data_dir().join(app_name)`).
#[verifier::external_body]
fn platform_data_dir(app_name: &str) -> (r: Option<String>)
    ensures
        r matches Some(p) ==> is_plain_component(app_name@) ==> ends_with(p@, app_name@),
{
    match version_migrate::AppPaths::new(app_name).data_dir() {
        Ok(p) => Some(p.to_string_lossy().into_owned()),
        Err(_) => None,
    }
}

/// The user's home directory, from `dirs::home_dir`; None when it cannot be
/// determined. It depends on the environment, so nothing more is stated.
#[verifier::external_body]
fn user_home_dir() -> (r: Option<String>) {
    match dirs::home_dir() {
        Some(p) => Some(p.to_string_lossy().into_owned()),
        None => None,
    }
}

/// Whether `path` names an existing regular file, from `std::path::Path::is_file`.
/// It depends on what is on disk, so nothing is stated.
#[verifier::external_body]
fn path_is_file(path: &str) -> (r: bool) {
    std::path::Path::new(path).is_file()
}

// ============================================================================
// Types
// ============================================================================

/// Whether a path is meant as a file or a directory.
#[derive(Debug, Clone, PartialEq, Eq)]
pub enum PathType {
    /// Path represents a file
    File(String),
    /// Path represents a directory
    Dir(String),
}

/// The path a `PathType` carries.
pub open spec fn spec_path_of(p: PathType) -> String {
    match p {
        PathType::File(s) => s,
        PathType::Dir(s) => s,
    }
}

impl PathType {
    /// Returns the underlying path regardless of type.
    pub fn as_path_buf(&self) -> (r: &String)
        ensures
            *r == spec_path_of(*self),
    {
        match self {
            PathType::File(p) => p,
            PathType::Dir(p) => p,
        }
    }

    /// Consumes self and returns the underlying path.
    pub fn into_path_buf(self) -> (r: String)
        ensures
            r == spec_path_of(self),
    {
        match self {
            PathType::File(p) => p,
            PathType::Dir(p) => p,
        }
    }

    /// Returns true if this is a File path.
    pub fn is_file(&self) -> (r: bool)
        ensures
            r == (*self is File),
    {
        match self {
            PathType::File(_) => true,
            PathType::Dir(_) => false,
        }
    }

    /// Returns true if this is a Dir path.
    pub fn is_dir(&self) -> (r: bool)
        ensures
            r == (*self is Dir),
    {
        match self {
            PathType::File(_) => false,
            PathType::Dir(_) => true,
        }
    }
}

/// Service types that require path resolution.
#[derive(Debug, Clone, Copy, PartialEq, Eq)]
pub enum ServiceType {
    /// Application state (app_state.json)
    AppState,
    /// Configuration (config.toml)
    Config,
    /// Secret configuration (secret.json)
    Secret,
    /// Sessions (sessions/)
    Session,
    /// Workspaces (workspaces/)
    Workspace,
    /// Workspace storage (files/workspaces/)
    WorkspaceStorage,
    /// Tasks (tasks/)
    Task,
    /// Personas (personas/)
    Persona,
    /// Dialogue presets (dialogue_presets/)
    DialoguePreset,
    /// Slash commands (slash_commands/)
    SlashCommand,
    /// Logs (logs/)
    Logs,
}

/// Errors that can occur during path resolution.
#[derive(Debug, Clone, PartialEq, Eq)]
pub enum PathError {
    /// Home directory could not be determined.
    HomeDirNotFound,
}

impl PathError {
    /// The error's message.
    pub fn message(&self) -> (r: String)
        ensures
            r@ == "Cannot find home directory"@,
    {
        match self {
            PathError::HomeDirNotFound => String::from_str("Cannot find home directory"),
        }
    }
}

/// Which base directory a service's data lives under.
#[derive(Debug, Clone, Copy, PartialEq, Eq)]
pub enum BaseDir {
    /// The configuration directory
    Config,
    /// The secret directory (the configuration directory for now)
    Secret,
    /// The data directory
    Data,
    /// The file storage directory
    Storage,
}

/// The base directory of each service.
pub open spec fn spec_base_dir_of(s: ServiceType) -> BaseDir {
    match s {
        ServiceType::AppState => BaseDir::Config,
        ServiceType::Config => BaseDir::Config,
        ServiceType::Secret => BaseDir::Secret,
        ServiceType::Session => BaseDir::Data,
        ServiceType::Workspace => BaseDir::Data,
        ServiceType::WorkspaceStorage => BaseDir::Storage,
        ServiceType::Task => BaseDir::Data,
        ServiceType::Persona => BaseDir::Data,
        ServiceType::DialoguePreset => BaseDir::Data,
        ServiceType::SlashCommand => BaseDir::Config,
        ServiceType::Logs => BaseDir::Config,
    }
}

/// The file or directory name each service uses under its base directory.
pub open spec fn spec_leaf_of(s: ServiceType) -> Seq<char> {
    match s {
        ServiceType::AppState => "app_state.json"@,
        ServiceType::Config => "config.toml"@,
        ServiceType::Secret => "secret.json"@,
        ServiceType::Session => "sessions"@,
        ServiceType::Workspace => "workspaces"@,
        ServiceType::WorkspaceStorage => "workspaces"@,
        ServiceType::Task => "tasks"@,
        ServiceType::Persona => "personas"@,
        ServiceType::DialoguePreset => "dialogue_presets"@,
        ServiceType::SlashCommand => "slash_commands"@,
        ServiceType::Logs => "logs"@,
    }
}

/// Services that keep a single file (the others keep a directory of files).
pub open spec fn spec_is_file_service(s: ServiceType) -> bool {
    s == ServiceType::AppState || s == ServiceType::Config || s == ServiceType::Secret
}

/// The path of a service's data given its base directory.
pub open spec fn spec_service_path(s: ServiceType, base: Seq<char>) -> (Seq<char>, bool) {
    (joined_path(base, spec_leaf_of(s)), spec_is_file_service(s))
}

/// Whether a `PathType` is the path of a service's data under `base`.
pub open spec fn spec_is_service_path(p: PathType, s: ServiceType, base: Seq<char>) -> bool {
    &&& spec_path_of(p)@ == joined_path(base, spec_leaf_of(s))
    &&& (p is File <==> spec_is_file_service(s))
}

/// Returns the base directory of a service.
pub fn base_dir_of(s: ServiceType) -> (r: BaseDir)
    ensures
        r == spec_base_dir_of(s),
{
    match s {
        ServiceType::AppState => BaseDir::Config,
        ServiceType::Config => BaseDir::Config,
        ServiceType::Secret => BaseDir::Secret,
        ServiceType::Session => BaseDir::Data,
        ServiceType::Workspace => BaseDir::Data,
        ServiceType::WorkspaceStorage => BaseDir::Storage,
        ServiceType::Task => BaseDir::Data,
        ServiceType::Persona => BaseDir::Data,
        ServiceType::DialoguePreset => BaseDir::Data,
        ServiceType::SlashCommand => BaseDir::Config,
        ServiceType::Logs => BaseDir::Config,
    }
}

/// Returns the path of a service's data, given the base directory it lives under.
pub fn service_path_in(s: ServiceType, base: &str) -> (r: PathType)
    ensures
        spec_is_service_path(r, s, base@),
{
    let leaf: &str = match s {
        ServiceType::AppState => "app_state.json",
        ServiceType::Config => "config.toml",
        ServiceType::Secret => "secret.json",
        ServiceType::Session => "sessions",
        ServiceType::Workspace => "workspaces",
        ServiceType::WorkspaceStorage => "workspaces",
        ServiceType::Task => "tasks",
        ServiceType::Persona => "personas",
        ServiceType::DialoguePreset => "dialogue_presets",
        ServiceType::SlashCommand => "slash_commands",
        ServiceType::Logs => "logs",
    };
    assert(leaf@ == spec_leaf_of(s));
    let p = join_path(base, leaf);
    match s {
        ServiceType::AppState => PathType::File(p),
        ServiceType::Config => PathType::File(p),
        ServiceType::Secret => PathType::File(p),
        _ => PathType::Dir(p),
    }
}

/// A custom base path as the storage location of a service: a file path when
/// a regular file exists there (`is_file`), a directory path otherwise.
pub fn path_type_at(base: String, is_file: bool) -> (r: PathType)
    ensures
        r == (if is_file { PathType::File(base) } else { PathType::Dir(base) }),
{
    if is_file {
        PathType::File(base)
    } else {
        PathType::Dir(base)
    }
}

/// Unified path management for orcs, with an optional custom base path (for testing).
#[derive(Debug, Clone)]
pub struct OrcsPaths {
    /// Optional custom base path. None uses default platform paths.
    pub base_path: Option<String>,
}

/// The preference directory name of the application.
pub open spec fn spec_pref_app() -> Seq<char> {
    "com.orcs-app"@
}

/// What holds of the configuration directory an `OrcsPaths` resolves:
/// `<base>/config` with a base path, else a platform directory ending in `com.orcs-app`.
pub open spec fn spec_config_dir_ok(base: Option<String>, d: Seq<char>) -> bool {
    match base {
        Some(b) => d == joined_path(b@, "config"@),
        None => ends_with(d, spec_pref_app()),
    }
}

/// What holds of the data directory an `OrcsPaths` resolves:
/// `<base>/data` with a base path, else a platform directory ending in `orcs`.
pub open spec fn spec_data_dir_ok(base: Option<String>, d: Seq<char>) -> bool {
    match base {
        Some(b) => d == joined_path(b@, "data"@),
        None => ends_with(d, "orcs"@),
    }
}

/// What holds of the base directory a service resolves to.
pub open spec fn spec_base_ok(base: Option<String>, kind: BaseDir, d: Seq<char>) -> bool {
    match kind {
        BaseDir::Config => spec_config_dir_ok(base, d),
        BaseDir::Secret => spec_config_dir_ok(base, d),
        BaseDir::Data => spec_data_dir_ok(base, d),
        BaseDir::Storage => exists|dd: Seq<char>|
            spec_data_dir_ok(base, dd) && d == joined_path(dd, "files"@),
    }
}

impl OrcsPaths {
    /// The application directory name.
    pub const APP_PATH: &'static str = "orcs";

    /// The data directory name under a custom base.
    pub const DATA_PATH: &'static str = "data";

    /// Creates a new instance; `None` uses the platform paths.
    pub fn new(base_path: Option<&str>) -> (r: Self)
        ensures
            match base_path {
                Some(b) => r.base_path matches Some(s) && s@ == b@,
                None => r.base_path is None,
            },
    {
        match base_path {
            Some(b) => OrcsPaths { base_path: Some(String::from_str(b)) },
            None => OrcsPaths { base_path: None },
        }
    }

    /// Returns the orcs configuration directory.
    pub fn config_dir(&self) -> (r: Result<String, PathError>)
        ensures
            r matches Ok(d) ==> spec_config_dir_ok(self.base_path, d@),
            self.base_path is Some ==> r is Ok,
    {
        match &self.base_path {
            Some(base) => Ok(join_path(base.as_str(), "config")),
            None => {
                proof {
                    reveal_strlit("com.orcs-app");
                }
                match platform_pref_dir("com.orcs-app") {
                    Some(d) => Ok(d),
                    None => Err(PathError::HomeDirNotFound),
                }
            },
        }
    }

    /// Returns the orcs secret directory (currently the configuration directory).
    pub fn secret_dir(&self) -> (r: Result<String, PathError>)
        ensures
            r matches Ok(d) ==> spec_config_dir_ok(self.base_path, d@),
            self.base_path is Some ==> r is Ok,
    {
        self.config_dir()
    }

    /// Returns the orcs data directory.
    pub fn data_dir(&self) -> (r: Result<String, PathError>)
        ensures
            r matches Ok(d) ==> spec_data_dir_ok(self.base_path, d@),
            self.base_path is Some ==> r is Ok,
    {
        match &self.base_path {
            Some(base) => Ok(join_path(base.as_str(), Self::DATA_PATH)),
            None => {
                proof {
                    reveal_strlit("orcs");
                }
                match platform_data_dir(Self::APP_PATH) {
                    Some(d) => Ok(d),
                    None => Err(PathError::HomeDirNotFound),
                }
            },
        }
    }

    /// Returns the file storage directory: `files` under the data directory.
    pub fn storage_dir(&self) -> (r: Result<String, PathError>)
        ensures
            r matches Ok(d) ==> exists|dd: Seq<char>|
                spec_data_dir_ok(self.base_path, dd) && d@ == joined_path(dd, "files"@)
                    && (!has_verbatim_prefix(dd) ==> starts_with(d@, dd) && ends_with(d@, "files"@)),
            self.base_path is Some ==> r is Ok,
    {
        let d = self.data_dir()?;
        proof {
            reveal_strlit("files");
            assert("files"@.len() == 5);
            assert("files"@.len() != seq!['.'].len());
            assert("files"@.len() != seq!['.', '.'].len());
            assert(is_plain_component("files"@));
        }
        let r = join_path(d.as_str(), "files");
        assert(spec_data_dir_ok(self.base_path, d@));
        Ok(r)
    }

    /// Resolves the base directory of the given kind.
    fn base_dir(&self, kind: BaseDir) -> (r: Result<String, PathError>)
        ensures
            r matches Ok(d) ==> spec_base_ok(self.base_path, kind, d@),
            self.base_path is Some ==> r is Ok,
    {
        match kind {
            BaseDir::Config => self.config_dir(),
            BaseDir::Secret => self.secret_dir(),
            BaseDir::Data => self.data_dir(),
            BaseDir::Storage => self.storage_dir(),
        }
    }

    /// Returns the path a service keeps its data in. With a custom base path the
    /// base itself is returned, as a file path when a file exists there and as a
    /// directory otherwise.
    pub fn get_path(self, service_type: ServiceType) -> (r: Result<PathType, PathError>)
        ensures
            match self.base_path {
                Some(b) => r matches Ok(p) && (p == PathType::File(b) || p == PathType::Dir(b)),
                None => r matches Ok(p) ==> exists|d: Seq<char>|
                    spec_base_ok(None, spec_base_dir_of(service_type), d)
                        && spec_is_service_path(p, service_type, d),
            },
    {
        match self.base_path {
            Some(b) => {
                let is_file = path_is_file(b.as_str());
                Ok(path_type_at(b, is_file))
            },
            None => {
                let d = self.base_dir(base_dir_of(service_type))?;
                let p = service_path_in(service_type, d.as_str());
                assert(spec_base_ok(None, spec_base_dir_of(service_type), d@));
                Ok(p)
            },
        }
    }

    /// Returns the default user workspace: `<base>/user_workspace` with a custom
    /// base, else `orcs` under the home directory.
    pub fn default_user_workspace_path(&self) -> (r: Result<String, PathError>)
        ensures
            match self.base_path {
                Some(b) => r matches Ok(p) && p@ == joined_path(b@, "user_workspace"@),
                None => r matches Ok(p) ==> exists|h: Seq<char>| p@ == joined_path(h, "orcs"@),
            },
    {
        match &self.base_path {
            Some(base) => Ok(join_path(base.as_str(), "user_workspace")),
            None => match user_home_dir() {
                Some(home) => Ok(join_path(home.as_str(), "orcs")),
                None => Err(PathError::HomeDirNotFound),
            },
        }
    }
}

/// Where each service keeps its data when no base path is given: the
/// records of sessions, workspaces, tasks, personas and dialogue presets under
/// the data directory; the application state, the configuration, slash
/// commands and logs under the configuration directory; secrets under the
/// secret directory; workspace files under the storage directory. Only the
/// application state, the configuration and the secrets are single files,
/// and each service's name under its directory is the one listed.
pub proof fn lemma_service_locations(s: ServiceType)
    ensures
        (spec_base_dir_of(s) == BaseDir::Data) <==> (s == ServiceType::Session || s == ServiceType::Workspace
            || s == ServiceType::Task || s == ServiceType::Persona || s == ServiceType::DialoguePreset),
        (spec_base_dir_of(s) == BaseDir::Config) <==> (s == ServiceType::AppState || s == ServiceType::Config
            || s == ServiceType::SlashCommand || s == ServiceType::Logs),
        (spec_base_dir_of(s) == BaseDir::Secret) <==> s == ServiceType::Secret,
        (spec_base_dir_of(s) == BaseDir::Storage) <==> s == ServiceType::WorkspaceStorage,
        spec_is_file_service(s) <==> (s == ServiceType::AppState || s == ServiceType::Config || s == ServiceType::Secret),
        s == ServiceType::AppState ==> spec_leaf_of(s) == "app_state.json"@,
        s == ServiceType::Config ==> spec_leaf_of(s) == "config.toml"@,
        s == ServiceType::Secret ==> spec_leaf_of(s) == "secret.json"@,
        s == ServiceType::Session ==> spec_leaf_of(s) == "sessions"@,
        s == ServiceType::Workspace ==> spec_leaf_of(s) == "workspaces"@,
        s == ServiceType::WorkspaceStorage ==> spec_leaf_of(s) == "workspaces"@,
        s == ServiceType::Task ==> spec_leaf_of(s) == "tasks"@,
        s == ServiceType::Persona ==> spec_leaf_of(s) == "personas"@,
        s == ServiceType::DialoguePreset ==> spec_leaf_of(s) == "dialogue_presets"@,
        s == ServiceType::SlashCommand ==> spec_leaf_of(s) == "slash_commands"@,
        s == ServiceType::Logs ==> spec_leaf_of(s) == "logs"@,
{
}

} // verus!
