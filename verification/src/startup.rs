use vstd::prelude::*;
use crate::config::AppConfig;
use crate::errors::AppError;

verus! {

/// The command line: one required path naming the assets directory.
pub struct App {
    pub assets: String,
}

/// What probing the assets directory found: whether the directory itself,
/// the `config.toml` file and the `token` file exist and are of the right
/// kind.
#[derive(Clone, Copy, Debug, PartialEq, Eq, Structural)]
pub struct AssetsCheck {
    pub assets_exists: bool,
    pub assets_is_dir: bool,
    pub config_exists: bool,
    pub config_is_file: bool,
    pub token_exists: bool,
    pub token_is_file: bool,
}

impl AssetsCheck {
    /// The assets path names an existing directory.
    pub open spec fn assets_ok(self) -> bool {
        self.assets_exists && self.assets_is_dir
    }

    /// The directory holds a regular `config.toml` file.
    pub open spec fn config_ok(self) -> bool {
        self.config_exists && self.config_is_file
    }

    /// The directory holds a regular `token` file.
    pub open spec fn token_ok(self) -> bool {
        self.token_exists && self.token_is_file
    }

    /// Every startup file precondition holds.
    pub open spec fn all_ok(self) -> bool {
        self.assets_ok() && self.config_ok() && self.token_ok()
    }
}

/// Decides whether the probed assets directory satisfies every startup
/// precondition, in order: the directory itself, then the configuration
/// file, then the token file. Succeeds if and only if all three are in
/// place; otherwise names the first one that is not. Any failure here is
/// fatal: the process logs it and exits with code 1.
pub fn check_app_args(check: &AssetsCheck) -> (r: Result<(), AppError>)
    ensures
        r is Ok <==> check.all_ok(),
        !check.assets_ok() ==> r == Err::<(), AppError>(AppError::AssetsDirInvalid),
        check.assets_ok() && !check.config_ok() ==> r == Err::<(), AppError>(
            AppError::ConfigFileMissing,
        ),
        check.assets_ok() && check.config_ok() && !check.token_ok() ==> r == Err::<(), AppError>(
            AppError::TokenFileMissing,
        ),
{
    if !check.assets_exists || !check.assets_is_dir {
        Err(AppError::AssetsDirInvalid)
    } else if !check.config_exists || !check.config_is_file {
        Err(AppError::ConfigFileMissing)
    } else if !check.token_exists || !check.token_is_file {
        Err(AppError::TokenFileMissing)
    } else {
        Ok(())
    }
}

/// The stages of startup, in the order they run: assets check, configuration
/// parse, token read, shard bootstrap. `Running` is reached only when all
/// four succeeded; `Failed` commands exit code 1.
#[derive(Clone, Copy, Debug, PartialEq, Eq, Structural)]
pub enum StartupState {
    CheckingAssets,
    ParsingConfig,
    ReadingToken,
    Bootstrapping,
    Running,
    Failed,
}

/// One observed outcome handed to the startup sequence.
#[derive(Clone, Copy, Debug)]
pub enum StartupEvent {
    /// What probing the assets directory found.
    AssetsChecked(AssetsCheck),
    /// What parsing the configuration file produced.
    ConfigParsed(Result<AppConfig, AppError>),
    /// Whether the token file could be read.
    TokenRead(bool),
    /// What shard bootstrap produced: the number of connections built, or a
    /// failure. Partial shard sets are never started.
    Bootstrapped(Result<usize, AppError>),
}

/// One step of startup: each stage consumes its own observation and either
/// advances to the next stage or fails; an observation that does not belong
/// to the current stage changes nothing. `Failed` and `Running` absorb
/// everything.
pub open spec fn spec_startup_step(s: StartupState, ev: StartupEvent) -> StartupState {
    match (s, ev) {
        (StartupState::CheckingAssets, StartupEvent::AssetsChecked(c)) => if c.all_ok() {
            StartupState::ParsingConfig
        } else {
            StartupState::Failed
        },
        (StartupState::ParsingConfig, StartupEvent::ConfigParsed(r)) => if r is Ok {
            StartupState::ReadingToken
        } else {
            StartupState::Failed
        },
        (StartupState::ReadingToken, StartupEvent::TokenRead(ok)) => if ok {
            StartupState::Bootstrapping
        } else {
            StartupState::Failed
        },
        (StartupState::Bootstrapping, StartupEvent::Bootstrapped(r)) => if r is Ok {
            StartupState::Running
        } else {
            StartupState::Failed
        },
        _ => s,
    }
}

/// Runtime mirror of `spec_startup_step`.
pub fn startup_step(s: StartupState, ev: &StartupEvent) -> (r: StartupState)
    ensures
        r == spec_startup_step(s, *ev),
{
    match (s, ev) {
        (StartupState::CheckingAssets, StartupEvent::AssetsChecked(c)) => {
            if check_app_args(c).is_ok() {
                StartupState::ParsingConfig
            } else {
                StartupState::Failed
            }
        },
        (StartupState::ParsingConfig, StartupEvent::ConfigParsed(r)) => {
            if r.is_ok() {
                StartupState::ReadingToken
            } else {
                StartupState::Failed
            }
        },
        (StartupState::ReadingToken, StartupEvent::TokenRead(ok)) => {
            if *ok {
                StartupState::Bootstrapping
            } else {
                StartupState::Failed
            }
        },
        (StartupState::Bootstrapping, StartupEvent::Bootstrapped(r)) => {
            if r.is_ok() {
                StartupState::Running
            } else {
                StartupState::Failed
            }
        },
        _ => s,
    }
}

/// The startup state after consuming `evs` one at a time, in order.
pub open spec fn run_startup(s: StartupState, evs: Seq<StartupEvent>) -> StartupState
    decreases evs.len(),
{
    if evs.len() == 0 {
        s
    } else {
        run_startup(spec_startup_step(s, evs[0]), evs.drop_first())
    }
}

/// The exit code a startup state commands: a failed startup exits with code
/// 1; any other state keeps the process alive.
pub open spec fn spec_startup_exit(s: StartupState) -> Option<i32> {
    if s is Failed {
        Option::Some(1)
    } else {
        Option::None
    }
}

/// Runtime mirror of `spec_startup_exit`.
pub fn startup_exit(s: StartupState) -> (r: Option<i32>)
    ensures
        r == spec_startup_exit(s),
{
    match s {
        StartupState::Failed => Some(1),
        _ => None,
    }
}

/// A failed startup is final: whatever is observed afterwards, the sequence
/// stays failed — in particular it never reaches the bootstrap stage, so no
/// outbound connection is attempted after a failure.
pub proof fn lemma_failed_is_absorbing(evs: Seq<StartupEvent>)
    ensures
        run_startup(StartupState::Failed, evs) == StartupState::Failed,
    decreases evs.len(),
{
    if evs.len() == 0 {
    } else {
        assert(spec_startup_step(StartupState::Failed, evs[0]) == StartupState::Failed);
        lemma_failed_is_absorbing(evs.drop_first());
    }
}

/// An assets directory that fails its check — for one that does not exist —
/// fails startup at the very first step, and no sequence of later
/// observations ever brings the process to the bootstrap stage or beyond: no
/// outbound connection attempt is made, and the commanded exit code is 1.
pub proof fn lemma_invalid_assets_never_bootstraps(c: AssetsCheck, evs: Seq<StartupEvent>)
    requires
        !c.all_ok(),
    ensures
        spec_startup_step(StartupState::CheckingAssets, StartupEvent::AssetsChecked(c))
            == StartupState::Failed,
        forall|i: int|
            0 <= i <= evs.len() ==> run_startup(StartupState::Failed, #[trigger] evs.take(i))
                == StartupState::Failed,
        run_startup(StartupState::Failed, evs) == StartupState::Failed,
        spec_startup_exit(run_startup(StartupState::Failed, evs)) == Option::Some(1int as i32),
{
    assert forall|i: int|
        0 <= i <= evs.len() implies run_startup(StartupState::Failed, #[trigger] evs.take(i))
        == StartupState::Failed by {
        lemma_failed_is_absorbing(evs.take(i));
    }
    lemma_failed_is_absorbing(evs);
}

/// With the assets in place but a configuration that fails to parse — in
/// particular one missing its `intents` field, which `config_from_fields`
/// always rejects — startup fails at the configuration stage, before the
/// token is read and before bootstrap is ever entered, and the commanded
/// exit code is 1.
pub proof fn lemma_bad_config_never_bootstraps(c: AssetsCheck, e: AppError, evs: Seq<StartupEvent>)
    requires
        c.all_ok(),
    ensures
        forall|s: Option<i64>|
            crate::config::spec_config_from_fields(Option::None, s) == Err::<AppConfig, AppError>(
                AppError::ConfigMissingIntents,
            ),
        spec_startup_step(StartupState::CheckingAssets, StartupEvent::AssetsChecked(c))
            == StartupState::ParsingConfig,
        spec_startup_step(
            StartupState::ParsingConfig,
            StartupEvent::ConfigParsed(Err::<AppConfig, AppError>(e)),
        ) == StartupState::Failed,
        forall|i: int|
            0 <= i <= evs.len() ==> run_startup(StartupState::Failed, #[trigger] evs.take(i))
                == StartupState::Failed,
        spec_startup_exit(run_startup(StartupState::Failed, evs)) == Option::Some(1int as i32),
{
    assert forall|i: int|
        0 <= i <= evs.len() implies run_startup(StartupState::Failed, #[trigger] evs.take(i))
        == StartupState::Failed by {
        lemma_failed_is_absorbing(evs.take(i));
    }
    lemma_failed_is_absorbing(evs);
}

} // verus!
