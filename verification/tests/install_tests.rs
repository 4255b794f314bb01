use logkit::{BuildError, InstallSlot, LogLevel, LoggerBuilder};

#[test]
fn first_install_succeeds_second_fails_deterministically() {
    let mut slot = InstallSlot::new();
    assert!(!slot.is_installed());

    let first = LoggerBuilder::new().level(LogLevel::Warn).build();
    assert_eq!(slot.install(first), Ok(()));
    assert!(slot.is_installed());

    let second = LoggerBuilder::new().level(LogLevel::Error).build();
    assert_eq!(slot.install(second), Err(BuildError::DuplicateInstall));

    // The first logger's state is not overwritten.
    assert!(slot.is_installed());
    match &slot.active {
        Some(logger) => assert!(matches!(logger.level, LogLevel::Warn)),
        None => panic!("the first installation must remain in place"),
    }
}

#[test]
fn error_kinds_are_distinct() {
    assert_ne!(BuildError::DirectoryCreation, BuildError::Rotation);
    assert_ne!(BuildError::Rotation, BuildError::FileOpen);
    assert_ne!(BuildError::FileOpen, BuildError::DuplicateInstall);
    assert_ne!(BuildError::DirectoryCreation, BuildError::DuplicateInstall);
}
