use vstd::prelude::*;

verus! {

/// Database engine that a new project is scaffolded with.
#[derive(Debug, Clone, Copy, PartialEq, Eq, Structural)]
pub enum Database {
    NoDatabase,
    PostgreSQL,
    TimescaleDB,
    MongoDB,
    Redis,
}

/// Desktop user-interface framework of a hybrid project.
#[derive(Debug, Clone, Copy, PartialEq, Eq, Structural)]
pub enum UiFramework {
    NoUi,
    Avalonia,
    WPF,
}

/// Kind of project: a plain command-line tool, or a hybrid one with a desktop front end.
#[derive(Debug, Clone, Copy, PartialEq, Eq, Structural)]
pub enum ProjectType {
    RustCLI,
    Hybrid(UiFramework),
}

/// Version that every freshly created project starts at.
pub open spec fn initial_version() -> Seq<char> {
    seq!['0', '.', '1', '.', '0']
}

/// Settings of a project being scaffolded.
#[derive(Debug)]
pub struct OrbitConfig {
    pub project_name: String,
    pub project_type: ProjectType,
    pub database: Database,
    pub version: String,
}

impl OrbitConfig {
    /// A configuration for a new project named `name`, at the initial version.
    pub fn new(name: &str, p_type: ProjectType, db: Database) -> (r: Self)
        ensures
            r.project_name@ == name@,
            r.project_type == p_type,
            r.database == db,
            r.version@ == initial_version(),
    {
        let version = "0.1.0";
        proof {
            reveal_strlit("0.1.0");
        }
        OrbitConfig {
            project_name: name.to_owned(),
            project_type: p_type,
            database: db,
            version: version.to_owned(),
        }
    }
}

} // verus!
