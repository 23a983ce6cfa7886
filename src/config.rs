//! The run configuration that every check receives.
use vstd::prelude::*;
use vstd::string::StringExecFns;
use crate::checks::Check;
use crate::registry::{BuiltinCheck, Registry, all_builtins};
use crate::text::{join, join_spec, owned, str_eq, strs};

verus! {

/// Run configuration: which checks are disabled, which engine version is
/// targeted, where custom check scripts live.
#[derive(Debug, Clone)]
pub struct Config {
    /// Migration framework: `diesel` or `sqlx`.
    pub framework: String,
    /// Skip migrations whose timestamp is not after this one.
    pub start_after: Option<String>,
    /// Whether down migrations are checked too.
    pub check_down: bool,
    /// Names of the checks to disable.
    pub disable_checks: Vec<String>,
    /// Directory of custom check scripts.
    pub custom_checks_dir: Option<String>,
    /// Target Postgres major version.
    pub postgres_version: Option<u32>,
}

/// Errors of a configuration's values.
#[derive(Debug, Clone)]
pub enum ConfigError {
    InvalidCheckName { invalid_name: String },
    InvalidTimestampFormat(String),
    MissingFramework,
    InvalidFramework { framework: String },
}

impl Config {
    /// Whether the check named `name` is enabled: its name is not among the
    /// disabled ones.
    pub open spec fn check_enabled(&self, name: Seq<char>) -> bool {
        !strs(self.disable_checks@).contains(name)
    }

    /// Whether the configured target version is at least `v`.
    pub open spec fn version_at_least(&self, v: u32) -> bool {
        match self.postgres_version {
            Some(x) => x >= v,
            None => false,
        }
    }

    /// Whether the check named `check_name` is enabled.
    pub fn is_check_enabled(&self, check_name: &str) -> (r: bool)
        ensures
            r == self.check_enabled(check_name@),
    {
        let mut i: usize = 0;
        while i < self.disable_checks.len()
            invariant
                i <= self.disable_checks.len(),
                forall|j: int| 0 <= j < i ==> self.disable_checks@[j]@ != check_name@,
            decreases self.disable_checks.len() - i,
        {
            if str_eq(self.disable_checks[i].as_str(), check_name) {
                proof {
                    assert(strs(self.disable_checks@)[i as int] == check_name@);
                }
                return false;
            }
            i = i + 1;
        }
        proof {
            if strs(self.disable_checks@).contains(check_name@) {
                let j = choose|j: int| 0 <= j < strs(self.disable_checks@).len() && strs(self.disable_checks@)[j] == check_name@;
                assert(self.disable_checks@[j]@ == check_name@);
            }
        }
        true
    }

    /// Checks the configured values: the framework is `diesel` or `sqlx`.
    pub fn validate(&self) -> (r: Result<(), ConfigError>)
        ensures
            r is Ok <==> (self.framework@ == "diesel"@ || self.framework@ == "sqlx"@),
            r matches Err(ConfigError::InvalidFramework { framework }) ==> framework@ == self.framework@,
            r is Err ==> r matches Err(ConfigError::InvalidFramework { .. }),
    {
        if str_eq(self.framework.as_str(), "diesel") || str_eq(self.framework.as_str(), "sqlx") {
            Ok(())
        } else {
            Err(ConfigError::InvalidFramework { framework: self.framework.clone() })
        }
    }
}

impl ConfigError {
    /// The diagnostic code of the error.
    pub fn code(&self) -> (r: &'static str)
        ensures
            r@ == match self {
                ConfigError::InvalidCheckName { .. } => "diesel_guard::config::invalid_check"@,
                ConfigError::InvalidTimestampFormat(_) => "diesel_guard::config::invalid_timestamp"@,
                ConfigError::MissingFramework => "diesel_guard::config::missing_framework"@,
                ConfigError::InvalidFramework { .. } => "diesel_guard::config::invalid_framework"@,
            },
    {
        match self {
            ConfigError::InvalidCheckName { .. } => "diesel_guard::config::invalid_check",
            ConfigError::InvalidTimestampFormat(_) => "diesel_guard::config::invalid_timestamp",
            ConfigError::MissingFramework => "diesel_guard::config::missing_framework",
            ConfigError::InvalidFramework { .. } => "diesel_guard::config::invalid_framework",
        }
    }

    /// What to do about the error; for an unknown check name, the names of
    /// the built-in checks.
    pub fn help(&self) -> (r: String)
        ensures
            r@ == match self {
                ConfigError::InvalidCheckName { .. } => valid_names_help(),
                ConfigError::InvalidTimestampFormat(_) => "Expected format: YYYYMMDDHHMMSS, YYYY_MM_DD_HHMMSS, or YYYY-MM-DD-HHMMSS (e.g., 20240101000000, 2024_01_01_000000, or 2024-01-01-000000)"@,
                ConfigError::MissingFramework => "Add one of the following to your diesel-guard.toml file:\n  framework = \"diesel\"\n  framework = \"sqlx\""@,
                ConfigError::InvalidFramework { .. } => "Valid values: \"diesel\", \"sqlx\""@,
            },
    {
        match self {
            ConfigError::InvalidCheckName { .. } => valid_check_names_help(),
            ConfigError::InvalidTimestampFormat(_) => owned(
                "Expected format: YYYYMMDDHHMMSS, YYYY_MM_DD_HHMMSS, or YYYY-MM-DD-HHMMSS (e.g., 20240101000000, 2024_01_01_000000, or 2024-01-01-000000)",
            ),
            ConfigError::MissingFramework => owned(
                "Add one of the following to your diesel-guard.toml file:\n  framework = \"diesel\"\n  framework = \"sqlx\"",
            ),
            ConfigError::InvalidFramework { .. } => owned("Valid values: \"diesel\", \"sqlx\""),
        }
    }
}

/// The help for an unknown check name: the built-in names, comma-separated.
pub open spec fn valid_names_help() -> Seq<char> {
    "Valid check names: "@ + join_spec(
        all_builtins().map_values(|b: BuiltinCheck| b.spec_name()),
        ", "@,
    )
}

/// The help for an unknown check name.
pub fn valid_check_names_help() -> (r: String)
    ensures
        r@ == valid_names_help(),
{
    let names = Registry::builtin_check_names();
    let mut owned_names: Vec<String> = Vec::new();
    let mut i: usize = 0;
    while i < names.len()
        invariant
            i <= names.len(),
            names@.len() == all_builtins().len(),
            forall|j: int| 0 <= j < names@.len() ==> #[trigger] names@[j]@ == all_builtins()[j].spec_name(),
            owned_names@.len() == i,
            forall|j: int| 0 <= j < i ==> #[trigger] owned_names@[j]@ == all_builtins()[j].spec_name(),
        decreases names.len() - i,
    {
        owned_names.push(owned(names[i]));
        i = i + 1;
    }
    assert(strs(owned_names@) =~= all_builtins().map_values(|b: BuiltinCheck| b.spec_name()));
    let mut r = owned("Valid check names: ");
    let listed = join(&owned_names, ", ");
    r.append(listed.as_str());
    r
}

impl Default for Config {
    fn default() -> (r: Config)
        ensures
            r.framework@ == "diesel"@,
            r.start_after is None,
            !r.check_down,
            r.disable_checks@.len() == 0,
            r.custom_checks_dir is None,
            r.postgres_version is None,
    {
        Config {
            framework: owned("diesel"),
            start_after: None,
            check_down: false,
            disable_checks: Vec::new(),
            custom_checks_dir: None,
            postgres_version: None,
        }
    }
}

} // verus!
