use upv_cli::command::ExecutionResult;
use upv_cli::error::{exit_code_of, EXIT_UPV_VPN_ERROR};
use upv_cli::text::{contains, strip_leading, trim};
use upv_cli::vpn::{VpnFollowUp, VpnManager, SERVER_ADDRESS};

fn finished(success: bool, stdout: &str, stderr: &str) -> ExecutionResult {
    ExecutionResult::new(success, stdout.to_string(), stderr.to_string())
}

#[test]
fn create_failure_reports_external_error() {
    let err = VpnManager::create_outcome("Test", false, &finished(false, "", "Access is denied."))
        .unwrap_err();
    assert!(err.message().contains("Access is denied."));
    assert_eq!(err.message(), "Failed to create VPN connection 'Test': Access is denied.");
    assert_eq!(err.exit_code, EXIT_UPV_VPN_ERROR);
    assert_eq!(exit_code_of(&Err(err)), 11);
}

#[test]
fn create_success_connects_only_when_asked() {
    let ok = finished(true, "", "");
    assert_eq!(VpnManager::create_outcome("Test", true, &ok).unwrap(), VpnFollowUp::Connect);
    assert_eq!(VpnManager::create_outcome("Test", false, &ok).unwrap(), VpnFollowUp::Done);
}

#[test]
fn create_script_embeds_cleaned_payload() {
    let cmd = VpnManager::create_command("Test", "\u{feff}\u{feff}<EapHostConfig/>  \r\n");
    assert_eq!(cmd.program, "powershell");
    assert_eq!(cmd.args, vec!["-Command", "-"]);
    assert_eq!(
        cmd.input.unwrap(),
        "Add-VpnConnection -Name 'Test' -ServerAddress 'vpn.upv.es' -AuthenticationMethod Eap \
         -EncryptionLevel Required -TunnelType Sstp -EapConfigXmlStream @'\r\n<EapHostConfig/>\r\n'@\r\n\r\n"
    );
}

#[test]
fn payload_is_trimmed_before_the_mark_is_removed() {
    assert_eq!(VpnManager::clean_payload("  \u{feff}<a/> "), "<a/>");
    assert_eq!(VpnManager::clean_payload("\u{feff} <a/>"), " <a/>");
    assert_eq!(VpnManager::clean_payload(""), "");
}

#[test]
fn listing_is_filtered_by_the_server_address() {
    let cmd = VpnManager::list_command();
    assert_eq!(cmd.program, "powershell");
    assert_eq!(
        cmd.args,
        vec![
            "-Command",
            "Get-VpnConnection | Where-Object {$_.ServerAddress -eq 'vpn.upv.es'} | Select-Object -ExpandProperty Name"
        ]
    );
    assert!(cmd.args[1].contains(SERVER_ADDRESS));
}

#[test]
fn names_are_trimmed_non_empty_lines_in_order() {
    let names = VpnManager::connection_names("UPV Home\r\n\r\n   \r\n  Work VPN \r\nLast");
    assert_eq!(names, vec!["UPV Home", "Work VPN", "Last"]);
    assert!(VpnManager::connection_names("").is_empty());
    assert!(VpnManager::connection_names("\n\r\n \t\n").is_empty());
    assert_eq!(VpnManager::connection_names("b\na\n"), vec!["b", "a"]);
}

#[test]
fn list_outcome_maps_success_and_failure() {
    let names = VpnManager::list_outcome(&finished(true, "A\nB\n", "")).unwrap();
    assert_eq!(names, vec!["A", "B"]);
    let err = VpnManager::list_outcome(&finished(false, "A\n", "boom")).unwrap_err();
    assert_eq!(err.message(), "Failed to get VPN connections: boom");
    assert_eq!(err.exit_code, EXIT_UPV_VPN_ERROR);
}

#[test]
fn connect_disconnect_delete_commands() {
    let c = VpnManager::connect_command("My VPN");
    assert_eq!(c.program, "rasphone");
    assert_eq!(c.args, vec!["-d", "My VPN"]);
    let d = VpnManager::disconnect_command();
    assert_eq!(d.program, "rasdial");
    assert_eq!(d.args, vec!["/disconnect"]);
    let r = VpnManager::delete_command("Old");
    assert_eq!(r.program, "powershell");
    assert_eq!(r.args, vec!["-Command", "Remove-VpnConnection -Name 'Old' -Force"]);
}

#[test]
fn connect_disconnect_delete_failures() {
    let bad = finished(false, "", "E");
    let e = VpnManager::connect_outcome("V", &bad).unwrap_err();
    assert_eq!(e.message(), "Failed to open connection dialog for 'V': E");
    assert_eq!(e.exit_code, EXIT_UPV_VPN_ERROR);
    let e = VpnManager::disconnect_outcome(&bad).unwrap_err();
    assert_eq!(e.message(), "Failed to disconnect from VPN: E");
    let e = VpnManager::delete_outcome("V", &bad).unwrap_err();
    assert_eq!(e.message(), "Failed to delete VPN connection 'V': E");
    let good = finished(true, "", "");
    assert!(VpnManager::connect_outcome("V", &good).is_ok());
    assert!(VpnManager::disconnect_outcome(&good).is_ok());
    assert!(VpnManager::delete_outcome("V", &good).is_ok());
}

#[test]
fn vpn_status_only_queries() {
    let s = VpnManager::status_command();
    assert_eq!(s.program, "rasdial");
    assert!(s.args.is_empty());
    assert!(s.input.is_none());
}

#[test]
fn yes_answers() {
    for yes in ["y", "Y", "yes", " YES \r\n", "Yes\n"] {
        assert!(VpnManager::confirms(yes), "{yes:?}");
    }
    for no in ["", "n", "no", "yess", "y e s", "\n"] {
        assert!(!VpnManager::confirms(no), "{no:?}");
    }
}

#[test]
fn delete_word_is_exact() {
    assert!(VpnManager::confirms_delete_word("DELETE"));
    assert!(VpnManager::confirms_delete_word("  DELETE\r\n"));
    assert!(!VpnManager::confirms_delete_word("delete"));
    assert!(!VpnManager::confirms_delete_word("DELETE!"));
    assert!(!VpnManager::confirms_delete_word("y"));
}

#[test]
fn text_helpers() {
    assert_eq!(trim(" \t a b \u{3000}\n"), "a b");
    assert_eq!(trim("   "), "");
    assert_eq!(strip_leading("xxaxb", 'x'), "axb");
    assert!(contains("(Y/N) [N]", "/N"));
    assert!(!contains("Y N", "/N"));
    assert!(contains("abc", ""));
    assert!(!contains("", "a"));
}
