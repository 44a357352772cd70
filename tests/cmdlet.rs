use ceviche::cmdlet::{manifest_file_name, module_base_command, module_manifest_command, CmdletService, PSModuleManifest, ServiceManifest};
use ceviche::encoding::{encode_command, encode_utf16_units, get_utf16, utf16_le_bytes};

fn manifest() -> ServiceManifest {
    ServiceManifest {
        service_name: "Watcher".to_string(),
        display_name: None,
        description: None,
        company_name: Some("Acme".to_string()),
        working_dir: "%ProgramData%\\Watcher".to_string(),
        module_name: None,
        start_command: "Start-Watcher".to_string(),
        stop_command: "Stop-Watcher".to_string(),
    }
}

fn module() -> PSModuleManifest {
    PSModuleManifest {
        module_version: "1.0".to_string(),
        company_name: "Module Co".to_string(),
        description: "Watches things".to_string(),
    }
}

#[test]
fn module_name_falls_back_on_service_name() {
    let mut m = manifest();
    assert_eq!(m.get_module_name(), "Watcher");
    m.module_name = Some("WatcherModule".to_string());
    assert_eq!(m.get_module_name(), "WatcherModule");
}

#[test]
fn load_fills_missing_entries() {
    let s = CmdletService::load(&manifest(), &module());
    assert_eq!(s.get_service_name(), "Watcher");
    assert_eq!(s.get_display_name(), "Watcher");
    assert_eq!(s.description, "Watches things");
    assert_eq!(s.company_name, "Acme");
    assert_eq!(s.get_module_name(), "Watcher");
    assert_eq!(s.get_start_command(), "Start-Watcher");
    assert_eq!(s.get_stop_command(), "Stop-Watcher");
    assert_eq!(s.get_description(), "Watches things");
    assert_eq!(s.working_dir, "%ProgramData%\\Watcher");
}

#[test]
fn start_and_stop_scripts_import_the_module() {
    let s = CmdletService::load(&manifest(), &module());
    assert_eq!(s.start(), "Import-Module -Name Watcher;\nStart-Watcher");
    assert_eq!(s.stop(), "Import-Module -Name Watcher;\nStop-Watcher");
}

#[test]
fn module_queries() {
    assert_eq!(
        module_base_command("Watcher"),
        "Get-Module -Name Watcher -ListAvailable | Select-Object -First 1 | foreach { $_.ModuleBase }"
    );
    assert_eq!(
        module_manifest_command("C:\\Modules\\Watcher", "Watcher"),
        "Import-PowerShellDataFile -Path \"C:\\Modules\\Watcher\\Watcher.psd1\" | ConvertTo-Json"
    );
}

#[test]
fn utf16_le_bytes_put_the_low_byte_first() {
    assert_eq!(utf16_le_bytes(&vec![0x0061, 0x20AC, 0xD83D]), vec![0x61, 0x00, 0xAC, 0x20, 0x3D, 0xD8]);
    assert!(utf16_le_bytes(&vec![]).is_empty());
}

#[test]
fn encoded_command_is_base64_of_utf16le() {
    assert_eq!(encode_command("a"), "YQA=");
    assert_eq!(encode_command("dir"), "ZABpAHIA");
    assert_eq!(encode_command(""), "");
    assert_eq!(encode_utf16_units(&vec![0x0061]), "YQA=");
    // A character outside the basic plane takes a surrogate pair.
    assert_eq!(encode_command("\u{1F600}"), "PdgA3g==");
    assert_eq!(encode_utf16_units(&vec![0xD83D, 0xDE00]), "PdgA3g==");
}

#[test]
fn utf16_names_end_with_nul() {
    assert_eq!(get_utf16("ab"), vec![0x61, 0x62, 0]);
    assert_eq!(get_utf16(""), vec![0]);
    assert_eq!(get_utf16("\u{20AC}\u{1F600}"), vec![0x20AC, 0xD83D, 0xDE00, 0]);
}

#[test]
fn manifest_is_named_after_the_executable() {
    assert_eq!(manifest_file_name("watcher"), "watcher.service.json");
}
