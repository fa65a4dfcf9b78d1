//! Settings of an export run, resolved from the values of the process environment.

use vstd::prelude::*;

verus! {

/// Name of the environment variable that holds the table to scan.
pub const TABLE_NAME_VAR: &'static str = "DYNAMODB_TABLE_NAME";

/// Name of the environment variable that holds the primary key attribute.
pub const PRIMARY_KEY_NAME_VAR: &'static str = "DYNAMODB_PRIMARY_KEY_NAME";

/// Name of the environment variable that holds the credential profile.
pub const PROFILE_VAR: &'static str = "AWS_PROFILE";

/// A required setting that was absent from the environment.
#[derive(Debug, PartialEq, Eq, Clone, Copy, Structural)]
pub enum ConfigError {
    MissingTableName,
    MissingPrimaryKeyName,
    MissingProfile,
}

impl ConfigError {
    /// The environment variable whose absence this error reports.
    pub fn variable(&self) -> (r: &'static str)
        ensures
            r@ == match *self {
                ConfigError::MissingTableName => TABLE_NAME_VAR@,
                ConfigError::MissingPrimaryKeyName => PRIMARY_KEY_NAME_VAR@,
                ConfigError::MissingProfile => PROFILE_VAR@,
            },
    {
        match self {
            ConfigError::MissingTableName => TABLE_NAME_VAR,
            ConfigError::MissingPrimaryKeyName => PRIMARY_KEY_NAME_VAR,
            ConfigError::MissingProfile => PROFILE_VAR,
        }
    }
}

/// What a scan reads and where its result goes: the table, the attribute that
/// is exported from each item, and the file that the lines are appended to.
#[derive(Debug, Clone)]
pub struct ScanConfig {
    pub table_name: String,
    pub primary_key_name: String,
    pub output_file: String,
}

impl ScanConfig {
    /// A configuration for the given table and key attribute, with no output
    /// file chosen yet.
    pub fn new(table_name: &str, primary_key_name: &str) -> (r: ScanConfig)
        ensures
            r.table_name@ == table_name@,
            r.primary_key_name@ == primary_key_name@,
            r.output_file@ == Seq::<char>::empty(),
    {
        ScanConfig {
            table_name: table_name.to_owned(),
            primary_key_name: primary_key_name.to_owned(),
            output_file: String::new(),
        }
    }

    /// Resolves the configuration from the values that the environment holds
    /// for the table name and the primary key name (`None` where a variable is
    /// unset). Both are required: the table name is looked at first.
    pub fn from_env_values(table_name: Option<String>, primary_key_name: Option<String>) -> (r:
        Result<ScanConfig, ConfigError>)
        ensures
            table_name is None ==> r == Err::<ScanConfig, ConfigError>(
                ConfigError::MissingTableName,
            ),
            table_name is Some && primary_key_name is None ==> r == Err::<ScanConfig, ConfigError>(
                ConfigError::MissingPrimaryKeyName,
            ),
            table_name is Some && primary_key_name is Some ==> (r matches Ok(c) && c.table_name
                == table_name.unwrap() && c.primary_key_name == primary_key_name.unwrap()
                && c.output_file@ == Seq::<char>::empty()),
    {
        match (table_name, primary_key_name) {
            (None, _) => Err(ConfigError::MissingTableName),
            (Some(_), None) => Err(ConfigError::MissingPrimaryKeyName),
            (Some(t), Some(k)) => Ok(ScanConfig { table_name: t, primary_key_name: k, output_file: String::new() }),
        }
    }

    /// Chooses the file that the exported lines are appended to.
    pub fn set_output_file(&mut self, output_file: &str)
        ensures
            final(self).output_file@ == output_file@,
            final(self).table_name == old(self).table_name,
            final(self).primary_key_name == old(self).primary_key_name,
    {
        self.output_file = output_file.to_owned();
    }
}

/// How the store client authenticates: the name of a local credential profile.
#[derive(Debug, Clone)]
pub struct DynamoConfig {
    pub profile_name: String,
}

impl DynamoConfig {
    /// A connection configuration for the given profile.
    pub fn new(profile_name: &str) -> (r: DynamoConfig)
        ensures
            r.profile_name@ == profile_name@,
    {
        DynamoConfig { profile_name: profile_name.to_owned() }
    }

    /// Resolves the connection configuration from the value that the
    /// environment holds for the profile (`None` where it is unset).
    pub fn from_env_values(profile_name: Option<String>) -> (r: Result<DynamoConfig, ConfigError>)
        ensures
            profile_name is None ==> r == Err::<DynamoConfig, ConfigError>(
                ConfigError::MissingProfile,
            ),
            profile_name is Some ==> (r matches Ok(c) && c.profile_name == profile_name.unwrap()),
    {
        match profile_name {
            None => Err(ConfigError::MissingProfile),
            Some(p) => Ok(DynamoConfig { profile_name: p }),
        }
    }
}

/// Everything an export run takes from the environment.
#[derive(Debug, Clone)]
pub struct RunSettings {
    pub scan: ScanConfig,
    pub connection: DynamoConfig,
}

/// Resolves all settings of a run before anything else happens, from the
/// values that the environment holds for the table name, the primary key name
/// and the profile (`None` where a variable is unset). The first one missing,
/// in that order, is reported.
pub fn resolve_settings(
    table_name: Option<String>,
    primary_key_name: Option<String>,
    profile_name: Option<String>,
) -> (r: Result<RunSettings, ConfigError>)
    ensures
        table_name is None ==> r == Err::<RunSettings, ConfigError>(ConfigError::MissingTableName),
        table_name is Some && primary_key_name is None ==> r == Err::<RunSettings, ConfigError>(
            ConfigError::MissingPrimaryKeyName,
        ),
        table_name is Some && primary_key_name is Some && profile_name is None ==> r == Err::<
            RunSettings,
            ConfigError,
        >(ConfigError::MissingProfile),
        table_name is Some && primary_key_name is Some && profile_name is Some ==> (r matches Ok(s)
            && s.scan.table_name == table_name.unwrap() && s.scan.primary_key_name
            == primary_key_name.unwrap() && s.scan.output_file@ == Seq::<char>::empty()
            && s.connection.profile_name == profile_name.unwrap()),
{
    let scan = match ScanConfig::from_env_values(table_name, primary_key_name) {
        Ok(c) => c,
        Err(e) => {
            return Err(e);
        },
    };
    match DynamoConfig::from_env_values(profile_name) {
        Ok(connection) => Ok(RunSettings { scan, connection }),
        Err(e) => Err(e),
    }
}

} // verus!
