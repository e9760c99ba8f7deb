use vstd::prelude::*;

use crate::auth::{offered_methods, AuthMethods};
use crate::config::{same_policy, Config};

verus! {

/// Permission bits that give read, write or execute access to others
/// (`S_IROTH | S_IWOTH | S_IXOTH`).
pub const OTHERS_BITS: u32 = 0o007;

/// The permission bits of a file mode, as reported to the operator.
pub const PERMISSION_BITS: u32 = 0o777;

/// Why the policy could not be loaded. Each of these stops the startup.
#[derive(Clone, Debug, PartialEq, Eq)]
pub enum StartupError {
    /// The configuration file exists but could not be opened.
    Unreadable { path: String, reason: String },
    /// The configuration file is open to others and no override was given.
    InsecurePermissions { mode: u32, path: String },
    /// The configuration file could not be parsed into a policy.
    MalformedConfig { message: String },
}

/// What was found at the configuration path.
#[derive(Clone, Debug)]
pub enum FileProbe {
    /// No file is there.
    Missing,
    /// A file is there but opening it failed.
    Unopenable { reason: String },
    /// The file was opened; `mode` holds its permission bits.
    Opened { mode: u32 },
}

/// What to do next, once the file has been looked at.
#[derive(Clone, Copy, Debug, PartialEq, Eq, Structural)]
pub enum LoadStep {
    /// Use the empty policy.
    UseDefault,
    /// Read the file and parse it.
    Parse,
}

/// The mode gives some access to others.
pub open spec fn open_to_others(mode: u32) -> bool {
    mode & OTHERS_BITS != 0
}

/// The verdict on a file's permissions: refused when others have access and
/// no override was given.
pub open spec fn permission_verdict(path: String, mode: u32, allow_insecure: bool) -> Result<
    (),
    StartupError,
> {
    if open_to_others(mode) && !allow_insecure {
        Err(StartupError::InsecurePermissions { mode: mode & PERMISSION_BITS, path })
    } else {
        Ok(())
    }
}

/// The first part of a load: what the state of the file at `path` leads to.
pub open spec fn load_plan(path: String, probe: FileProbe, allow_insecure: bool) -> Result<
    LoadStep,
    StartupError,
> {
    match probe {
        FileProbe::Missing => Ok(LoadStep::UseDefault),
        FileProbe::Unopenable { reason } => Err(StartupError::Unreadable { path, reason }),
        FileProbe::Opened { mode } => match permission_verdict(path, mode, allow_insecure) {
            Ok(_) => Ok(LoadStep::Parse),
            Err(e) => Err(e),
        },
    }
}

/// The second part of a load: a parsed policy is taken whole, and a parse
/// failure is fatal with the parser's message.
pub open spec fn parse_outcome(parsed: Result<Config, String>) -> Result<Config, StartupError> {
    match parsed {
        Ok(config) => Ok(config),
        Err(message) => Err(StartupError::MalformedConfig { message }),
    }
}

/// Tells whether `mode` gives read, write or execute access to others.
pub fn is_open_to_others(mode: u32) -> (r: bool)
    ensures
        r == open_to_others(mode),
{
    mode & OTHERS_BITS != 0
}

/// Checks the permissions of the configuration file at `path`: a file open to
/// others is refused unless `allow_insecure` is set.
pub fn check_permissions(path: &String, mode: u32, allow_insecure: bool) -> (r: Result<
    (),
    StartupError,
>)
    ensures
        r == permission_verdict(*path, mode, allow_insecure),
{
    if is_open_to_others(mode) && !allow_insecure {
        Err(StartupError::InsecurePermissions { mode: mode & PERMISSION_BITS, path: path.clone() })
    } else {
        Ok(())
    }
}

/// Decides, from what was found at `path`, whether to use the empty policy,
/// to go on to parse the file, or to stop.
pub fn plan_load(path: &String, probe: &FileProbe, allow_insecure: bool) -> (r: Result<
    LoadStep,
    StartupError,
>)
    ensures
        r == load_plan(*path, *probe, allow_insecure),
{
    match probe {
        FileProbe::Missing => Ok(LoadStep::UseDefault),
        FileProbe::Unopenable { reason } => Err(
            StartupError::Unreadable { path: path.clone(), reason: reason.clone() },
        ),
        FileProbe::Opened { mode } => match check_permissions(path, *mode, allow_insecure) {
            Ok(()) => Ok(LoadStep::Parse),
            Err(e) => Err(e),
        },
    }
}

/// Turns the parser's answer into the loaded policy or the fatal error.
pub fn finish_load(parsed: Result<Config, String>) -> (r: Result<Config, StartupError>)
    ensures
        r == parse_outcome(parsed),
{
    match parsed {
        Ok(config) => Ok(config),
        Err(message) => Err(StartupError::MalformedConfig { message }),
    }
}

/// With no file at the path the load goes on with the empty policy, whatever
/// the override; with that policy the methods offered are no authentication
/// alone when it is enabled, and none otherwise.
pub proof fn lemma_absent_file_uses_default(
    path: String,
    allow_insecure: bool,
    no_auth: bool,
    empty: Config,
)
    requires
        empty.users@.len() == 0,
        empty.fqdns@.len() == 0,
    ensures
        load_plan(path, FileProbe::Missing, allow_insecure) == Ok::<LoadStep, StartupError>(
            LoadStep::UseDefault,
        ),
        offered_methods(no_auth, empty.users@.len() > 0) == (if no_auth {
            seq![AuthMethods::NoAuth]
        } else {
            Seq::<AuthMethods>::empty()
        }),
{
}

/// A file open to others stops the load with `InsecurePermissions` unless the
/// override is given; with the override the load goes on to parsing.
pub proof fn lemma_permission_gate(path: String, mode: u32, allow_insecure: bool)
    requires
        open_to_others(mode),
    ensures
        !allow_insecure ==> load_plan(path, FileProbe::Opened { mode }, allow_insecure) == Err::<
            LoadStep,
            StartupError,
        >(StartupError::InsecurePermissions { mode: mode & PERMISSION_BITS, path }),
        allow_insecure ==> load_plan(path, FileProbe::Opened { mode }, allow_insecure) == Ok::<
            LoadStep,
            StartupError,
        >(LoadStep::Parse),
{
}

/// A file that the parser rejects never yields a policy: the load fails with
/// `MalformedConfig` and the parser's message.
pub proof fn lemma_malformed_is_fatal(message: String)
    ensures
        parse_outcome(Err(message)) == Err::<Config, StartupError>(
            StartupError::MalformedConfig { message },
        ),
{
}

/// Every policy equals itself under `==`.
pub proof fn lemma_same_policy_reflexive(config: Config)
    ensures
        same_policy(config, config),
{
}

/// Two loads of the same file, whose parses therefore agree, either both fail
/// or give policies that compare equal under `==`.
pub proof fn lemma_load_idempotent(
    first: Result<Config, String>,
    second: Result<Config, String>,
)
    requires
        first == second,
    ensures
        parse_outcome(first) is Ok <==> parse_outcome(second) is Ok,
        parse_outcome(first) is Ok ==> same_policy(
            parse_outcome(first)->Ok_0,
            parse_outcome(second)->Ok_0,
        ),
{
    if let Ok(config) = first {
        lemma_same_policy_reflexive(config);
    }
}

} // verus!
