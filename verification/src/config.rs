//! The projects that the server is configured for.

use vstd::prelude::*;

use crate::secrets::sha256_hex;
use crate::text::{same_text, trim};
use crate::{secrets, text};

verus! {

/// The configuration of the server.
#[derive(Clone, Debug)]
pub struct ServerConfig {
    pub projects: Vec<ProjectConfig>,
}

/// How the database of a project or of a branch is reached.
#[derive(Clone, Debug, PartialEq, Eq)]
pub struct ProjectDatabaseConnection {
    pub host: String,
    pub port: u16,
    pub database: String,
    pub user: String,
    pub password: String,
}

pub struct ConnectionView {
    pub host: Seq<char>,
    pub port: u16,
    pub database: Seq<char>,
    pub user: Seq<char>,
    pub password: Seq<char>,
}

impl View for ProjectDatabaseConnection {
    type V = ConnectionView;

    open spec fn view(&self) -> ConnectionView {
        ConnectionView {
            host: self.host@,
            port: self.port,
            database: self.database@,
            user: self.user@,
            password: self.password@,
        }
    }
}

/// A project that branches are made of.
#[derive(Clone, Debug)]
pub struct ProjectConfig {
    pub name: String,
    pub project_ref: String,
    pub demo: bool,
    pub database_password_env: Option<String>,
}

/// The first project with this name.
pub open spec fn first_named(projects: Seq<ProjectConfig>, name: Seq<char>) -> Option<
    ProjectConfig,
>
    decreases projects.len(),
{
    if projects.len() == 0 {
        None
    } else if projects[0].name@ == name {
        Some(projects[0])
    } else {
        first_named(projects.skip(1), name)
    }
}

impl ServerConfig {
    /// The first project with this name.
    pub fn resolve_project(&self, name: &str) -> (r: Option<&ProjectConfig>)
        ensures
            match first_named(self.projects@, name@) {
                Some(project) => r matches Some(found) && *found == project,
                None => r is None,
            },
    {
        let mut i: usize = 0;
        assert(self.projects@.skip(0) =~= self.projects@);
        while i < self.projects.len()
            invariant
                i <= self.projects.len(),
                first_named(self.projects@, name@) == first_named(
                    self.projects@.skip(i as int),
                    name@,
                ),
            decreases self.projects.len() - i,
        {
            assert(self.projects@.skip(i as int).skip(1) =~= self.projects@.skip(i + 1));
            if same_text(self.projects[i].name.as_str(), name) {
                return Some(&self.projects[i]);
            }
            i += 1;
        }
        None
    }
}

/// The name of the variable with the database password, where one is configured.
pub open spec fn configured_password_env(project: ProjectConfig) -> Option<Seq<char>> {
    match project.database_password_env {
        Some(name) => if text::trimmed(name@).len() > 0 {
            Some(text::trimmed(name@))
        } else {
            None
        },
        None => None,
    }
}

/// Why the database of a project without a configured password cannot be reached.
pub open spec fn missing_password_env(name: Seq<char>) -> Seq<char> {
    "project '"@ + name + "' is missing database_password_env for demo restore operations"@
}

/// The database of the project or branch `project_ref`, with this password.
pub open spec fn supabase_database(project_ref: Seq<char>, password: Seq<char>) -> ConnectionView {
    ConnectionView {
        host: "db."@ + project_ref + ".supabase.co"@,
        port: 5432,
        database: "postgres"@,
        user: "postgres"@,
        password,
    }
}

/// Why a project cannot be configured like this, where it cannot.
pub open spec fn config_flaw(project: ProjectConfig, path: Seq<char>) -> Option<Seq<char>> {
    if project.name@.len() == 0 {
        Some("project entry in "@ + path + " has empty name"@)
    } else if project.project_ref@.len() == 0 {
        Some("project '"@ + project.name@ + "' in "@ + path + " has empty ref"@)
    } else if project.demo && configured_password_env(project) is None {
        Some(
            "project '"@ + project.name@ + "' in "@ + path
                + " has demo=true but missing database_password_env"@,
        )
    } else {
        None
    }
}

impl ProjectConfig {
    /// Whether demo states of the project may be listed, deleted and restored.
    pub fn is_demo_project(&self) -> (r: bool)
        ensures
            r == self.demo,
    {
        self.demo
    }

    fn configured_env(&self) -> (r: Option<String>)
        ensures
            match configured_password_env(*self) {
                Some(name) => r matches Some(found) && found@ == name,
                None => r is None,
            },
    {
        match &self.database_password_env {
            Some(name) => {
                let trimmed = trim(name.as_str());
                if trimmed.as_str().is_empty() {
                    None
                } else {
                    Some(trimmed)
                }
            },
            None => None,
        }
    }

    /// The name of the environment variable that holds the database password.
    pub fn password_env(&self) -> (r: Result<String, String>)
        ensures
            match configured_password_env(*self) {
                Some(name) => r matches Ok(found) && found@ == name,
                None => r matches Err(message) && message@ == missing_password_env(self.name@),
            },
    {
        match self.configured_env() {
            Some(name) => Ok(name),
            None => {
                let mut message = "project '".to_string();
                message.append(self.name.as_str());
                message.append("' is missing database_password_env for demo restore operations");
                Err(message)
            },
        }
    }

    /// How the database of the project or branch `project_ref` is reached, where `password`
    /// is the value of the environment variable that `password_env` names.
    pub fn database_connection_for_ref(&self, project_ref: &str, password: Option<String>) -> (r:
        Result<ProjectDatabaseConnection, String>)
        ensures
            match (configured_password_env(*self), password) {
                (None, _) => r matches Err(message) && message@ == missing_password_env(self.name@),
                (Some(name), None) => r matches Err(message) && message@ == name
                    + " environment variable is required for demo restore operations"@,
                (Some(_), Some(value)) => r matches Ok(connection) && connection@
                    == supabase_database(project_ref@, value@),
            },
    {
        let name = match self.password_env() {
            Ok(name) => name,
            Err(message) => {
                return Err(message);
            },
        };
        match password {
            Some(password) => {
                let mut host = "db.".to_string();
                host.append(project_ref);
                host.append(".supabase.co");
                Ok(
                    ProjectDatabaseConnection {
                        host,
                        port: 5432,
                        database: "postgres".to_string(),
                        user: "postgres".to_string(),
                        password,
                    },
                )
            },
            None => {
                let mut message = name;
                message.append(" environment variable is required for demo restore operations");
                Err(message)
            },
        }
    }

    /// Refuses a project that cannot be configured like this in the file `path`.
    pub fn validate(&self, path: &str) -> (r: Result<(), String>)
        ensures
            match config_flaw(*self, path@) {
                Some(flaw) => r matches Err(message) && message@ == flaw,
                None => r is Ok,
            },
    {
        if self.name.as_str().is_empty() {
            let mut message = "project entry in ".to_string();
            message.append(path);
            message.append(" has empty name");
            return Err(message);
        }
        let mut message = "project '".to_string();
        message.append(self.name.as_str());
        message.append("' in ");
        message.append(path);
        if self.project_ref.as_str().is_empty() {
            message.append(" has empty ref");
            return Err(message);
        }
        if self.demo {
            if let None = self.configured_env() {
                message.append(" has demo=true but missing database_password_env");
                return Err(message);
            }
        }
        Ok(())
    }
}

/// What was found at the place of the configuration file.
pub enum ConfigSource {
    /// The file could not be read; the text says why.
    Unreadable(String),
    /// The file was read, but is no configuration; the text says why.
    Malformed(String),
    /// The file holds this configuration.
    Parsed { contents: String, config: ServerConfig },
}

/// The first flaw among the projects.
pub open spec fn first_flaw(projects: Seq<ProjectConfig>, path: Seq<char>) -> Option<Seq<char>>
    decreases projects.len(),
{
    if projects.len() == 0 {
        None
    } else {
        match config_flaw(projects[0], path) {
            Some(flaw) => Some(flaw),
            None => first_flaw(projects.skip(1), path),
        }
    }
}

/// Why the configuration file `path` is refused, where it is.
pub open spec fn load_failure(path: Seq<char>, source: ConfigSource) -> Option<Seq<char>> {
    match source {
        ConfigSource::Unreadable(error) => Some(
            "failed to read config file "@ + path + ": "@ + error@,
        ),
        ConfigSource::Malformed(error) => Some(
            "failed to parse config file "@ + path + ": "@ + error@,
        ),
        ConfigSource::Parsed { contents, config } => if config.projects@.len() == 0 {
            Some(
                "config file "@ + path + " must define at least one [[projects]] entry"@,
            )
        } else {
            first_flaw(config.projects@, path)
        },
    }
}

/// The digest of a configuration file, by which clients notice that it has changed.
pub open spec fn config_version(contents: Seq<char>) -> Seq<char> {
    text::hex(secrets::sha256(vstd::utf8::encode_utf8(contents)))
}

/// The configuration in the file `path` with its version, or why it is refused.
pub fn load_config(path: &str, source: ConfigSource) -> (r: Result<(ServerConfig, String), String>)
    ensures
        match load_failure(path@, source) {
            Some(failure) => r matches Err(message) && message@ == failure,
            None => {
                &&& r matches Ok(loaded)
                &&& source matches ConfigSource::Parsed { contents, config }
                &&& loaded.0 == config
                &&& loaded.1@ == config_version(contents@)
                &&& loaded.1@.len() == 64
            },
        },
{
    match source {
        ConfigSource::Unreadable(error) => {
            let mut message = "failed to read config file ".to_string();
            message.append(path);
            message.append(": ");
            message.append(error.as_str());
            Err(message)
        },
        ConfigSource::Malformed(error) => {
            let mut message = "failed to parse config file ".to_string();
            message.append(path);
            message.append(": ");
            message.append(error.as_str());
            Err(message)
        },
        ConfigSource::Parsed { contents, config } => {
            let config_hash = sha256_hex(contents.as_str());
            if config.projects.len() == 0 {
                let mut message = "config file ".to_string();
                message.append(path);
                message.append(" must define at least one [[projects]] entry");
                return Err(message);
            }
            let mut i: usize = 0;
            assert(config.projects@.skip(0) =~= config.projects@);
            while i < config.projects.len()
                invariant
                    i <= config.projects.len(),
                    load_failure(path@, source) == first_flaw(config.projects@, path@),
                    first_flaw(config.projects@, path@) == first_flaw(
                        config.projects@.skip(i as int),
                        path@,
                    ),
                decreases config.projects.len() - i,
            {
                assert(config.projects@.skip(i as int).skip(1) =~= config.projects@.skip(i + 1));
                if let Err(message) = config.projects[i].validate(path) {
                    return Err(message);
                }
                i += 1;
            }
            Ok((config, config_hash))
        },
    }
}

proof fn lemma_no_flaw(projects: Seq<ProjectConfig>, path: Seq<char>, i: int)
    requires
        first_flaw(projects, path) is None,
        0 <= i < projects.len(),
    ensures
        config_flaw(projects[i], path) is None,
    decreases projects.len(),
{
    if i > 0 {
        lemma_no_flaw(projects.skip(1), path, i - 1);
    }
}

/// Every project of a configuration that was loaded has a name and a reference, and every
/// demo project among them has a variable for its database password.
pub proof fn law_loaded_projects_are_usable(path: Seq<char>, source: ConfigSource, i: int)
    requires
        load_failure(path, source) is None,
        source matches ConfigSource::Parsed { contents, config } && 0 <= i
            < config.projects@.len(),
    ensures
        source matches ConfigSource::Parsed { contents, config } && {
            let project = config.projects@[i];
            &&& project.name@.len() > 0
            &&& project.project_ref@.len() > 0
            &&& project.demo ==> configured_password_env(project) is Some
        },
{
    if let ConfigSource::Parsed { contents, config } = source {
        lemma_no_flaw(config.projects@, path, i);
    }
}

/// A project that is resolved by its name is one of the configured projects and has that
/// name; where none is resolved, no configured project has it.
pub proof fn law_resolved_project_is_configured(projects: Seq<ProjectConfig>, name: Seq<char>)
    ensures
        match first_named(projects, name) {
            Some(project) => projects.contains(project) && project.name@ == name,
            None => forall|i: int| 0 <= i < projects.len() ==> (#[trigger] projects[i]).name@ != name,
        },
    decreases projects.len(),
{
    if projects.len() > 0 {
        let rest = projects.skip(1);
        if projects[0].name@ == name {
            assert(projects.contains(projects[0]));
        } else {
            law_resolved_project_is_configured(rest, name);
            match first_named(rest, name) {
                Some(project) => {
                    let i = choose|i: int| 0 <= i < rest.len() && rest[i] == project;
                    assert(projects[i + 1] == project);
                },
                None => {
                    assert forall|i: int| 0 <= i < projects.len() implies (
                    #[trigger] projects[i]).name@ != name by {
                        if i > 0 {
                            assert(rest[i - 1] == projects[i]);
                        }
                    }
                },
            }
        }
    }
}

} // verus!
