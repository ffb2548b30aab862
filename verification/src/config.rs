//! The daemon's configuration: where its file lies, what the file may
//! set, and what holds where the file is silent.
//!
//! Reading and parsing the file is the caller's work. What was read comes
//! in as a value, and the rules on it are here.

use vstd::prelude::*;
use vstd::string::*;
use crate::paths::{
    joined_path, parent_path, is_absolute_path, path_is_absolute, path_join, path_parent, tilde,
    tilde_outcome, user_config_dir, user_data_dir,
};
use crate::text::{result_view, text_of};

verus! {

/// What the configuration file may set.
#[derive(Clone, Debug, PartialEq, Eq)]
pub struct FileConfig {
    pub database_path: Option<String>,
    pub job_check_interval_secs: Option<u64>,
}

pub struct FileConfigView {
    pub database_path: Option<Seq<char>>,
    pub job_check_interval_secs: Option<u64>,
}

impl View for FileConfig {
    type V = FileConfigView;

    open spec fn view(&self) -> FileConfigView {
        FileConfigView {
            database_path: text_of(self.database_path),
            job_check_interval_secs: self.job_check_interval_secs,
        }
    }
}

/// The configuration the daemon runs with.
#[derive(Clone, Debug, PartialEq, Eq)]
pub struct Config {
    pub database_path: String,
    pub job_check_interval_secs: u64,
    pub config_path: String,
}

pub struct ConfigView {
    pub database_path: Seq<char>,
    pub job_check_interval_secs: u64,
    pub config_path: Seq<char>,
}

impl View for Config {
    type V = ConfigView;

    open spec fn view(&self) -> ConfigView {
        ConfigView {
            database_path: self.database_path@,
            job_check_interval_secs: self.job_check_interval_secs,
            config_path: self.config_path@,
        }
    }
}

/// Why no configuration could be had.
#[derive(Clone, Debug, PartialEq, Eq)]
pub enum ConfigError {
    /// The user has no configuration directory.
    NoConfigDir,
    /// The user has no data directory.
    NoDataDir,
    /// The file that was asked for by name does not exist.
    NotFound(String),
    /// The file exists but could not be read.
    Unreadable { path: String, cause: String },
    /// The file was read but is not a valid configuration.
    Malformed { path: String, cause: String },
}

pub enum ConfigErrorView {
    NoConfigDir,
    NoDataDir,
    NotFound(Seq<char>),
    Unreadable { path: Seq<char>, cause: Seq<char> },
    Malformed { path: Seq<char>, cause: Seq<char> },
}

impl View for ConfigError {
    type V = ConfigErrorView;

    open spec fn view(&self) -> ConfigErrorView {
        match self {
            ConfigError::NoConfigDir => ConfigErrorView::NoConfigDir,
            ConfigError::NoDataDir => ConfigErrorView::NoDataDir,
            ConfigError::NotFound(path) => ConfigErrorView::NotFound(path@),
            ConfigError::Unreadable { path, cause } => ConfigErrorView::Unreadable {
                path: path@,
                cause: cause@,
            },
            ConfigError::Malformed { path, cause } => ConfigErrorView::Malformed {
                path: path@,
                cause: cause@,
            },
        }
    }
}

/// The text an error is reported with.
pub open spec fn config_error_text(e: ConfigErrorView) -> Seq<char> {
    match e {
        ConfigErrorView::NoConfigDir => "failed to resolve config directory"@,
        ConfigErrorView::NoDataDir => "failed to resolve data directory"@,
        ConfigErrorView::NotFound(path) => "config file not found at "@ + path,
        ConfigErrorView::Unreadable { path, cause } => "failed to read config file "@ + path
            + ": "@ + cause,
        ConfigErrorView::Malformed { path, cause } => "failed to parse config file "@ + path
            + ": "@ + cause,
    }
}

impl ConfigError {
    /// The text this error is reported with.
    pub fn message(&self) -> (text: String)
        ensures
            text@ == config_error_text(self@),
    {
        match self {
            ConfigError::NoConfigDir => "failed to resolve config directory".to_owned(),
            ConfigError::NoDataDir => "failed to resolve data directory".to_owned(),
            ConfigError::NotFound(path) => "config file not found at ".to_owned().concat(
                path.as_str(),
            ),
            ConfigError::Unreadable { path, cause } => "failed to read config file ".to_owned().concat(
                path.as_str(),
            ).concat(": ").concat(cause.as_str()),
            ConfigError::Malformed { path, cause } => "failed to parse config file ".to_owned().concat(
                path.as_str(),
            ).concat(": ").concat(cause.as_str()),
        }
    }
}

/// Where the configuration file lies, and whether it has to exist.
#[derive(Clone, Debug, PartialEq, Eq)]
pub struct ConfigLocation {
    pub path: String,
    /// A file that was asked for by name must exist; the default one need not.
    pub required: bool,
}

pub struct ConfigLocationView {
    pub path: Seq<char>,
    pub required: bool,
}

impl View for ConfigLocation {
    type V = ConfigLocationView;

    open spec fn view(&self) -> ConfigLocationView {
        ConfigLocationView { path: self.path@, required: self.required }
    }
}

/// What became of the attempt to read the configuration file.
#[derive(Clone, Debug, PartialEq, Eq)]
pub enum FileLoad {
    /// There is no such file.
    Missing,
    /// The file could not be read; the text says why.
    Unreadable(String),
    /// The file could not be parsed; the text says why.
    Malformed(String),
    Parsed(FileConfig),
}

pub enum FileLoadView {
    Missing,
    Unreadable(Seq<char>),
    Malformed(Seq<char>),
    Parsed(FileConfigView),
}

impl View for FileLoad {
    type V = FileLoadView;

    open spec fn view(&self) -> FileLoadView {
        match self {
            FileLoad::Missing => FileLoadView::Missing,
            FileLoad::Unreadable(cause) => FileLoadView::Unreadable(cause@),
            FileLoad::Malformed(cause) => FileLoadView::Malformed(cause@),
            FileLoad::Parsed(config) => FileLoadView::Parsed(config@),
        }
    }
}

/// The seconds between two job checks where the file names none.
pub open spec fn default_interval() -> u64 {
    5
}

/// The daemon's directory under one of the user's directories.
pub open spec fn app_dir(base: Seq<char>) -> Seq<char> {
    joined_path(base, "hpcd"@)
}

/// The default configuration file, given the user's configuration
/// directory if there is one.
pub open spec fn config_path_for(config_dir: Option<Seq<char>>) -> Result<
    Seq<char>,
    ConfigErrorView,
> {
    match config_dir {
        Some(base) => Ok(joined_path(app_dir(base), "hpcd.toml"@)),
        None => Err(ConfigErrorView::NoConfigDir),
    }
}

/// The default database file, given the user's data directory if there is one.
pub open spec fn database_path_for(data_dir: Option<Seq<char>>) -> Result<
    Seq<char>,
    ConfigErrorView,
> {
    match data_dir {
        Some(base) => Ok(joined_path(app_dir(base), "hpcd.sqlite"@)),
        None => Err(ConfigErrorView::NoDataDir),
    }
}

/// Where an expanded path ends up: where it says if it is absolute,
/// under the base directory if there is one, and as it stands if there is none.
pub open spec fn placed(expanded: Seq<char>, base_dir: Option<Seq<char>>) -> Seq<char> {
    if is_absolute_path(expanded) {
        expanded
    } else {
        match base_dir {
            Some(dir) => joined_path(dir, expanded),
            None => expanded,
        }
    }
}

/// Whether `out` is what `raw` resolves to against `base_dir`: its tilde
/// expanded against some home directory, and the result put in place.
pub open spec fn resolved(raw: Seq<char>, base_dir: Option<Seq<char>>, out: Seq<char>) -> bool {
    exists|expanded: Seq<char>| #[trigger]
        tilde_outcome(raw, expanded) && out == placed(expanded, base_dir)
}

/// What the file sets, given what became of reading it: a file that need
/// not exist and does not sets nothing.
pub open spec fn file_config_for(location: ConfigLocationView, file: FileLoadView) -> Result<
    FileConfigView,
    ConfigErrorView,
> {
    match file {
        FileLoadView::Missing => if location.required {
            Err(ConfigErrorView::NotFound(location.path))
        } else {
            Ok(FileConfigView { database_path: None, job_check_interval_secs: None })
        },
        FileLoadView::Unreadable(cause) => Err(
            ConfigErrorView::Unreadable { path: location.path, cause },
        ),
        FileLoadView::Malformed(cause) => Err(
            ConfigErrorView::Malformed { path: location.path, cause },
        ),
        FileLoadView::Parsed(config) => Ok(config),
    }
}

/// The seconds between two job checks that a file asks for.
pub open spec fn interval_for(file: FileConfigView) -> u64 {
    match file.job_check_interval_secs {
        Some(secs) => secs,
        None => default_interval(),
    }
}

/// The configuration made of a file's settings and a database path.
pub open spec fn assembled(
    location: ConfigLocationView,
    file: FileConfigView,
    database_path: Seq<char>,
) -> ConfigView {
    ConfigView {
        database_path,
        job_check_interval_secs: interval_for(file),
        config_path: location.path,
    }
}

/// Whether `r` is a configuration that loading may give for a file at
/// `location` that was read as `file`.
pub open spec fn loaded(
    location: ConfigLocationView,
    file: FileLoadView,
    r: Result<ConfigView, ConfigErrorView>,
) -> bool {
    match file_config_for(location, file) {
        Err(e) => r == Err::<ConfigView, ConfigErrorView>(e),
        Ok(settings) => match settings.database_path {
            Some(raw) => r matches Ok(config) && config == assembled(
                location,
                settings,
                config.database_path,
            ) && resolved(raw, parent_path(location.path), config.database_path),
            None => exists|data_dir: Option<Seq<char>>|
                r == match #[trigger] database_path_for(data_dir) {
                    Ok(path) => Ok(assembled(location, settings, path)),
                    Err(e) => Err(e),
                },
        },
    }
}

/// The daemon's directory under one of the user's directories.
pub fn app_dir_under(base: &str) -> (r: String)
    ensures
        r@ == app_dir(base@),
{
    path_join(base, "hpcd")
}

/// The default configuration file under the user's configuration directory.
pub fn config_path_in(config_dir: Option<String>) -> (r: Result<String, ConfigError>)
    ensures
        result_view(r) == config_path_for(text_of(config_dir)),
{
    match config_dir {
        Some(base) => {
            let dir = app_dir_under(base.as_str());
            Ok(path_join(dir.as_str(), "hpcd.toml"))
        },
        None => Err(ConfigError::NoConfigDir),
    }
}

/// The default database file under the user's data directory.
pub fn database_path_in(data_dir: Option<String>) -> (r: Result<String, ConfigError>)
    ensures
        result_view(r) == database_path_for(text_of(data_dir)),
{
    match data_dir {
        Some(base) => {
            let dir = app_dir_under(base.as_str());
            Ok(path_join(dir.as_str(), "hpcd.sqlite"))
        },
        None => Err(ConfigError::NoDataDir),
    }
}

/// The daemon's own directory among the user's configuration directories.
pub fn default_config_dir() -> (r: Result<String, ConfigError>)
    ensures
        match r {
            Ok(dir) => exists|base: Seq<char>| dir@ == #[trigger] app_dir(base),
            Err(e) => e@ == ConfigErrorView::NoConfigDir,
        },
{
    match user_config_dir() {
        Some(base) => {
            let dir = app_dir_under(base.as_str());
            assert(dir@ == app_dir(base@));
            Ok(dir)
        },
        None => Err(ConfigError::NoConfigDir),
    }
}

/// The daemon's own directory among the user's data directories.
pub fn default_data_dir() -> (r: Result<String, ConfigError>)
    ensures
        match r {
            Ok(dir) => exists|base: Seq<char>| dir@ == #[trigger] app_dir(base),
            Err(e) => e@ == ConfigErrorView::NoDataDir,
        },
{
    match user_data_dir() {
        Some(base) => {
            let dir = app_dir_under(base.as_str());
            assert(dir@ == app_dir(base@));
            Ok(dir)
        },
        None => Err(ConfigError::NoDataDir),
    }
}

/// The default configuration file of this user.
pub fn default_config_path() -> (r: Result<String, ConfigError>)
    ensures
        exists|config_dir: Option<Seq<char>>| result_view(r) == #[trigger] config_path_for(config_dir),
{
    let dir = user_config_dir();
    let ghost seen = text_of(dir);
    let r = config_path_in(dir);
    assert(result_view(r) == config_path_for(seen));
    r
}

/// The default database file of this user.
pub fn default_database_path() -> (r: Result<String, ConfigError>)
    ensures
        exists|data_dir: Option<Seq<char>>| result_view(r) == #[trigger] database_path_for(data_dir),
{
    let dir = user_data_dir();
    let ghost seen = text_of(dir);
    let r = database_path_in(dir);
    assert(result_view(r) == database_path_for(seen));
    r
}

/// Expands the tilde that may lead a path.
pub fn expand_path(path: String) -> (r: String)
    ensures
        tilde_outcome(path@, r@),
{
    tilde(path.as_str())
}

/// The text of a base directory that may be absent.
pub open spec fn base_text(base_dir: Option<&str>) -> Option<Seq<char>> {
    match base_dir {
        Some(dir) => Some(dir@),
        None => None,
    }
}

/// Puts an expanded path in its place.
pub fn place_path(expanded: String, base_dir: Option<&str>) -> (r: String)
    ensures
        r@ == placed(expanded@, base_text(base_dir)),
{
    if path_is_absolute(expanded.as_str()) {
        return expanded;
    }
    match base_dir {
        Some(dir) => path_join(dir, expanded.as_str()),
        None => expanded,
    }
}

/// Resolves a path from the configuration file: its tilde is expanded,
/// and a path that is not absolute is taken from the base directory.
pub fn resolve_path(raw: &str, base_dir: Option<&str>) -> (r: String)
    ensures
        resolved(raw@, base_text(base_dir), r@),
{
    let expanded = tilde(raw);
    assert(tilde_outcome(raw@, expanded@));
    place_path(expanded, base_dir)
}

/// What the configuration file sets, given what became of reading it.
pub fn read_config_file(path: &str, required: bool, file: FileLoad) -> (r: Result<
    FileConfig,
    ConfigError,
>)
    ensures
        result_view(r) == file_config_for(ConfigLocationView { path: path@, required }, file@),
{
    match file {
        FileLoad::Missing => {
            if required {
                Err(ConfigError::NotFound(path.to_owned()))
            } else {
                Ok(FileConfig { database_path: None, job_check_interval_secs: None })
            }
        },
        FileLoad::Unreadable(cause) => Err(ConfigError::Unreadable { path: path.to_owned(), cause }),
        FileLoad::Malformed(cause) => Err(ConfigError::Malformed { path: path.to_owned(), cause }),
        FileLoad::Parsed(config) => Ok(config),
    }
}

/// Says where the configuration file lies: at the path that was named,
/// with its tilde expanded, or at the default place.
pub fn locate(config_path_override: Option<String>) -> (r: Result<ConfigLocation, ConfigError>)
    ensures
        match config_path_override {
            Some(path) => r matches Ok(location) && location.required && tilde_outcome(
                path@,
                location.path@,
            ),
            None => exists|config_dir: Option<Seq<char>>|
                match #[trigger] config_path_for(config_dir) {
                    Ok(path) => r matches Ok(location) && location@ == (ConfigLocationView {
                        path,
                        required: false,
                    }),
                    Err(e) => r matches Err(error) && error@ == e,
                },
        },
{
    match config_path_override {
        Some(path) => Ok(ConfigLocation { path: expand_path(path), required: true }),
        None => {
            let dir = user_config_dir();
            let ghost seen = text_of(dir);
            match config_path_in(dir) {
                Ok(path) => {
                    assert(config_path_for(seen) == Ok::<Seq<char>, ConfigErrorView>(path@));
                    Ok(ConfigLocation { path, required: false })
                },
                Err(e) => {
                    assert(config_path_for(seen) == Err::<Seq<char>, ConfigErrorView>(e@));
                    Err(e)
                },
            }
        },
    }
}

/// Makes the configuration out of a file's settings and the database path
/// that was settled on.
pub fn assemble(location: ConfigLocation, settings: &FileConfig, database_path: String) -> (r:
    Config)
    ensures
        r@ == assembled(location@, settings@, database_path@),
{
    let job_check_interval_secs: u64 = match settings.job_check_interval_secs {
        Some(secs) => secs,
        None => 5,
    };
    Config { database_path, job_check_interval_secs, config_path: location.path }
}

/// Makes the daemon's configuration from the file at `location`, read as
/// `file`. A database path from the file is resolved against the file's
/// directory; without one the default database file is used.
pub fn load(location: ConfigLocation, file: FileLoad) -> (r: Result<Config, ConfigError>)
    ensures
        loaded(location@, file@, result_view(r)),
{
    let settings = match read_config_file(location.path.as_str(), location.required, file) {
        Ok(settings) => settings,
        Err(e) => {
            return Err(e);
        },
    };
    match &settings.database_path {
        Some(raw) => {
            let base = path_parent(location.path.as_str());
            let database_path = match &base {
                Some(dir) => resolve_path(raw.as_str(), Some(dir.as_str())),
                None => resolve_path(raw.as_str(), None),
            };
            Ok(assemble(location, &settings, database_path))
        },
        None => {
            let dir = user_data_dir();
            let ghost seen = text_of(dir);
            match database_path_in(dir) {
                Ok(database_path) => {
                    let config = assemble(location, &settings, database_path);
                    assert(database_path_for(seen) == Ok::<Seq<char>, ConfigErrorView>(
                        config@.database_path,
                    ));
                    Ok(config)
                },
                Err(e) => {
                    assert(database_path_for(seen) == Err::<Seq<char>, ConfigErrorView>(e@));
                    Err(e)
                },
            }
        },
    }
}

/// The directory that must exist before the database file can be made.
pub fn database_dir(database_path: &str) -> (r: Option<String>)
    ensures
        text_of(r) == parent_path(database_path@),
{
    path_parent(database_path)
}

} // verus!
