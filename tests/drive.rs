use upv_cli::command::ExecutionResult;
use upv_cli::drive::{DriveFollowUp, DriveManager, UPVDomain};
use upv_cli::error::{
    exit_code_of, EXIT_PROGRAM_ERROR, EXIT_SUCCESS, EXIT_UPV_DRIVE_ERROR,
    EXIT_UPV_DRIVE_IN_USE_ERROR,
};

fn finished(success: bool, stdout: &str, stderr: &str) -> ExecutionResult {
    ExecutionResult::new(success, stdout.to_string(), stderr.to_string())
}

#[test]
fn mount_alumno_without_password_then_open() {
    let cmd = DriveManager::mount_command("jdoe", &UPVDomain::ALUMNO, None, 'W').unwrap();
    assert_eq!(cmd.program, "net");
    assert_eq!(cmd.args, vec!["use", "W:", "\\\\nasupv.upv.es\\alumnos\\j\\jdoe"]);
    assert!(cmd.input.is_none());
    let next = DriveManager::mount_outcome('W', true, &finished(true, "", "")).unwrap();
    assert_eq!(next, DriveFollowUp::Open { drive: 'W', check_exists: false });
}

#[test]
fn mount_without_open_is_done() {
    let next = DriveManager::mount_outcome('W', false, &finished(true, "", "")).unwrap();
    assert_eq!(next, DriveFollowUp::Done);
}

#[test]
fn mount_with_password_passes_domain_user() {
    let cmd =
        DriveManager::mount_command("jdoe", &UPVDomain::UPVNET, Some("s3cret"), 'Z').unwrap();
    assert_eq!(
        cmd.args,
        vec!["use", "Z:", "\\\\nasupv.upv.es\\discos\\j\\jdoe", "/user:UPVNET\\jdoe", "s3cret"]
    );
}

#[test]
fn path_segment_is_lowercased_first_character() {
    let path = DriveManager::server_path("JDoe", &UPVDomain::UPVNET).unwrap();
    assert_eq!(path, "\\\\nasupv.upv.es\\discos\\j\\JDoe");
    let path = DriveManager::server_path("Ñu", &UPVDomain::ALUMNO).unwrap();
    assert_eq!(path, "\\\\nasupv.upv.es\\alumnos\\ñ\\Ñu");
}

#[test]
fn domain_prefixes_differ_for_the_same_user() {
    let a = DriveManager::server_path("jdoe", &UPVDomain::ALUMNO).unwrap();
    let b = DriveManager::server_path("jdoe", &UPVDomain::UPVNET).unwrap();
    assert_ne!(a, b);
    assert!(a.starts_with(UPVDomain::ALUMNO.share_prefix()));
    assert!(b.starts_with(UPVDomain::UPVNET.share_prefix()));
    assert!(!a.starts_with(UPVDomain::UPVNET.share_prefix()));
    assert!(!b.starts_with(UPVDomain::ALUMNO.share_prefix()));
}

#[test]
fn domain_names() {
    assert_eq!(UPVDomain::ALUMNO.name(), "ALUMNO");
    assert_eq!(UPVDomain::UPVNET.name(), "UPVNET");
}

#[test]
fn empty_username_is_refused() {
    let err = DriveManager::mount_command("", &UPVDomain::ALUMNO, None, 'W').unwrap_err();
    assert_eq!(err.message(), "Username cannot be empty");
    assert_eq!(err.exit_code, EXIT_PROGRAM_ERROR);
    assert!(DriveManager::server_path("", &UPVDomain::UPVNET).is_err());
}

#[test]
fn mount_failure_carries_error_text() {
    let err = DriveManager::mount_outcome('W', true, &finished(false, "", "System error 53"))
        .unwrap_err();
    assert_eq!(err.message(), "Failed to mount drive W: System error 53");
    assert_eq!(err.exit_code, EXIT_UPV_DRIVE_ERROR);
}

#[test]
fn unmount_in_use_is_its_own_error() {
    let out = "There are open files on W:.\r\nDo you want to continue? (Y/N) [N]: ";
    let err = DriveManager::unmount_outcome('W', &finished(false, out, "No valid response"))
        .unwrap_err();
    assert_eq!(err.exit_code, EXIT_UPV_DRIVE_IN_USE_ERROR);
    assert!(err.message().starts_with("Drive W: is currently IN USE."));
    assert!(err.message().contains("--force"));
    assert!(!err.message().contains("No valid response"));
    assert_eq!(exit_code_of(&Err(err)), 13);
}

#[test]
fn unmount_generic_failure() {
    let err = DriveManager::unmount_outcome('W', &finished(false, "", "not found")).unwrap_err();
    assert_eq!(err.message(), "Failed to unmount drive W: not found");
    assert_eq!(err.exit_code, EXIT_UPV_DRIVE_ERROR);
}

#[test]
fn unmount_success_ignores_output() {
    assert!(DriveManager::unmount_outcome('W', &finished(true, "(Y/N)", "")).is_ok());
}

#[test]
fn unmount_force_adds_yes() {
    assert_eq!(DriveManager::unmount_command('W', false).args, vec!["use", "W:", "/delete"]);
    let forced = DriveManager::unmount_command('X', true);
    assert_eq!(forced.program, "net");
    assert_eq!(forced.args, vec!["use", "X:", "/delete", "/y"]);
}

#[test]
fn open_checks_existence_only_when_asked() {
    assert_eq!(DriveManager::drive_root('W'), "W:\\");
    let err = DriveManager::open_check('W', true, false).unwrap_err();
    assert_eq!(err.message(), "Drive W does not exist");
    assert_eq!(err.exit_code, EXIT_UPV_DRIVE_ERROR);
    assert!(DriveManager::open_check('W', false, false).is_ok());
    assert!(DriveManager::open_check('W', true, true).is_ok());
    let cmd = DriveManager::open_command('W');
    assert_eq!(cmd.program, "explorer.exe");
    assert_eq!(cmd.args, vec!["W:\\"]);
}

#[test]
fn drive_status_only_queries() {
    let cmd = DriveManager::status_command();
    assert_eq!(cmd.program, "net");
    assert_eq!(cmd.args, vec!["use"]);
    assert_eq!(DriveManager::status_command().args, cmd.args);
}

#[test]
fn exit_code_of_success() {
    assert_eq!(exit_code_of(&Ok(())), EXIT_SUCCESS);
}
