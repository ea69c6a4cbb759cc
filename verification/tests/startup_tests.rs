use kady::config::get_config;
use kady::errors::AppError;
use kady::startup::{
    check_app_args, startup_exit, startup_step, App, AssetsCheck, StartupEvent, StartupState,
};

fn complete_assets() -> AssetsCheck {
    AssetsCheck {
        assets_exists: true,
        assets_is_dir: true,
        config_exists: true,
        config_is_file: true,
        token_exists: true,
        token_is_file: true,
    }
}

#[test]
fn check_app_args_accepts_complete_assets() {
    assert!(check_app_args(&complete_assets()).is_ok());
}

#[test]
fn check_app_args_rejects_missing_dir() {
    let c = AssetsCheck { assets_exists: false, assets_is_dir: false, ..complete_assets() };
    assert_eq!(check_app_args(&c).unwrap_err(), AppError::AssetsDirInvalid);
    let f = AssetsCheck { assets_is_dir: false, ..complete_assets() };
    assert_eq!(check_app_args(&f).unwrap_err(), AppError::AssetsDirInvalid);
}

#[test]
fn check_app_args_rejects_missing_config() {
    let c = AssetsCheck { config_exists: false, ..complete_assets() };
    assert_eq!(check_app_args(&c).unwrap_err(), AppError::ConfigFileMissing);
}

#[test]
fn check_app_args_rejects_missing_token() {
    let c = AssetsCheck { token_is_file: false, ..complete_assets() };
    assert_eq!(check_app_args(&c).unwrap_err(), AppError::TokenFileMissing);
}

#[test]
fn missing_assets_path_fails_before_bootstrap() {
    let c = AssetsCheck {
        assets_exists: false,
        assets_is_dir: false,
        config_exists: false,
        config_is_file: false,
        token_exists: false,
        token_is_file: false,
    };
    let s1 = startup_step(StartupState::CheckingAssets, &StartupEvent::AssetsChecked(c));
    assert_eq!(s1, StartupState::Failed);
    assert_eq!(startup_exit(s1), Some(1));
    let s2 = startup_step(s1, &StartupEvent::TokenRead(true));
    let s3 = startup_step(s2, &StartupEvent::Bootstrapped(Ok(3)));
    assert_eq!(s3, StartupState::Failed);
    assert_ne!(s3, StartupState::Bootstrapping);
}

#[test]
fn config_missing_intents_fails_before_bootstrap() {
    let s1 = startup_step(
        StartupState::CheckingAssets,
        &StartupEvent::AssetsChecked(complete_assets()),
    );
    assert_eq!(s1, StartupState::ParsingConfig);
    let parsed = get_config("[cache]\nmessage_cache_size = 3");
    assert_eq!(parsed.unwrap_err(), AppError::ConfigMissingIntents);
    let s2 = startup_step(s1, &StartupEvent::ConfigParsed(parsed));
    assert_eq!(s2, StartupState::Failed);
    assert_eq!(startup_exit(s2), Some(1));
    let s3 = startup_step(s2, &StartupEvent::TokenRead(true));
    assert_eq!(s3, StartupState::Failed);
    assert_ne!(s3, StartupState::Bootstrapping);
}

#[test]
fn happy_startup_reaches_running() {
    let s1 = startup_step(
        StartupState::CheckingAssets,
        &StartupEvent::AssetsChecked(complete_assets()),
    );
    assert_eq!(s1, StartupState::ParsingConfig);
    assert_eq!(startup_exit(s1), None);
    let parsed = get_config("intents = 3");
    let s2 = startup_step(s1, &StartupEvent::ConfigParsed(parsed));
    assert_eq!(s2, StartupState::ReadingToken);
    let s3 = startup_step(s2, &StartupEvent::TokenRead(true));
    assert_eq!(s3, StartupState::Bootstrapping);
    let s4 = startup_step(s3, &StartupEvent::Bootstrapped(Ok(2)));
    assert_eq!(s4, StartupState::Running);
    assert_eq!(startup_exit(s4), None);
}

#[test]
fn unreadable_token_fails_startup() {
    let s = startup_step(StartupState::ReadingToken, &StartupEvent::TokenRead(false));
    assert_eq!(s, StartupState::Failed);
    assert_eq!(startup_exit(s), Some(1));
}

#[test]
fn bootstrap_failure_fails_startup() {
    let s = startup_step(
        StartupState::Bootstrapping,
        &StartupEvent::Bootstrapped(Err(AppError::GatewayBootstrapFailed)),
    );
    assert_eq!(s, StartupState::Failed);
    assert_eq!(startup_exit(s), Some(1));
}

#[test]
fn app_holds_assets_path() {
    let app = App { assets: String::from("assets") };
    assert_eq!(app.assets, "assets");
}
