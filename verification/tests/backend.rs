use block_on_proc::{resolve, BackendProfile, BlockingEntry, ConfigError, SetupStatement};

#[test]
fn resolve_tokio() {
    assert_eq!(resolve("tokio"), Ok(BackendProfile::Tokio));
}

#[test]
fn resolve_async_std() {
    assert_eq!(resolve("async-std"), Ok(BackendProfile::AsyncStd));
}

#[test]
fn resolve_rejects_everything_else() {
    for selector in ["", "smol", "Tokio", "TOKIO", "tokio ", " tokio", "async_std", "async-std2", "tokio,async-std"] {
        assert_eq!(
            resolve(selector),
            Err(ConfigError { selector: selector.to_string() }),
            "selector {selector:?}"
        );
    }
}

#[test]
fn error_names_the_supported_backends() {
    let err = resolve("smol").unwrap_err();
    assert_eq!(err.selector, "smol");
    assert_eq!(err.message(), "Only `tokio` and `async-std` backends are supported!");
}

#[test]
fn selector_round_trip() {
    for profile in [BackendProfile::Tokio, BackendProfile::AsyncStd] {
        assert_eq!(resolve(profile.selector()), Ok(profile));
    }
    assert_eq!(BackendProfile::Tokio.selector(), "tokio");
    assert_eq!(BackendProfile::AsyncStd.selector(), "async-std");
}

#[test]
fn tokio_builds_a_runtime() {
    assert_eq!(
        BackendProfile::Tokio.setup(),
        vec![SetupStatement::UseRuntime, SetupStatement::NewRuntime]
    );
    assert_eq!(BackendProfile::Tokio.entry(), BlockingEntry::OnRuntime);
}

#[test]
fn async_std_builds_no_runtime() {
    let setup = BackendProfile::AsyncStd.setup();
    assert_eq!(setup, vec![SetupStatement::UseTask]);
    assert!(!setup.contains(&SetupStatement::NewRuntime));
    assert_eq!(BackendProfile::AsyncStd.entry(), BlockingEntry::GlobalTask);
}

#[test]
fn setup_and_entry_texts() {
    assert_eq!(SetupStatement::UseRuntime.render(), "use tokio::runtime::Runtime;");
    assert_eq!(SetupStatement::NewRuntime.render(), "let mut rt = Runtime::new().unwrap();");
    assert_eq!(SetupStatement::UseTask.render(), "use async_std::task;");
    assert_eq!(BlockingEntry::OnRuntime.render(), "rt.block_on");
    assert_eq!(BlockingEntry::GlobalTask.render(), "task::block_on");
}
