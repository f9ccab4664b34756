use installer_core::registrar::{
    list_bundle_arguments, list_script_arguments, registration_key_path, write_removal_script,
    write_shortcut_script, InstallTarget, NamedValue, RegistrationRecord, RegistryValue,
};

#[test]
fn target_lies_below_the_local_application_data() {
    let target = InstallTarget::locate("C:\\Users\\Ana\\AppData\\Local");
    assert_eq!(target.root, "C:\\Users\\Ana\\AppData\\Local\\BattlyLauncher4Hytale");
    assert_eq!(target.executable_name, "Battly Launcher 4 Hytale.exe");
    assert_eq!(target.uninstaller_name, "uninstall.exe");
    assert_eq!(target.display_name, "Battly Launcher");
    assert_eq!(target.publisher, "TecnoBros");
}

#[test]
fn target_paths_lie_in_the_root() {
    let target = InstallTarget::locate("C:\\L");
    assert_eq!(
        target.executable_path(),
        "C:\\L\\BattlyLauncher4Hytale\\Battly Launcher 4 Hytale.exe"
    );
    assert_eq!(target.uninstaller_path(), "C:\\L\\BattlyLauncher4Hytale\\uninstall.exe");
}

#[test]
fn same_user_same_target() {
    assert_eq!(InstallTarget::locate("D:\\data"), InstallTarget::locate("D:\\data"));
}

#[test]
fn registration_key_names_the_product() {
    assert_eq!(
        registration_key_path(),
        "Software\\Microsoft\\Windows\\CurrentVersion\\Uninstall\\BattlyLauncher4Hytale"
    );
}

#[test]
fn registration_record_points_at_the_uninstaller() {
    let record = RegistrationRecord::compose("C:\\L\\App", "C:\\L\\App\\uninstall.exe");
    assert_eq!(
        record.key_path,
        "Software\\Microsoft\\Windows\\CurrentVersion\\Uninstall\\BattlyLauncher4Hytale"
    );
    assert_eq!(record.display_name, "Battly Launcher");
    assert_eq!(record.publisher, "TecnoBros");
    assert_eq!(record.uninstall_string, "\"C:\\L\\App\\uninstall.exe\" --uninstall");
    assert_eq!(record.install_location, "C:\\L\\App");
    assert_eq!(record.display_icon, "C:\\L\\App\\Battly Launcher 4 Hytale.exe");
    assert_eq!(record.no_modify, 1);
    assert_eq!(record.no_repair, 1);
}

#[test]
fn shortcut_script_names_link_and_target() {
    let script = write_shortcut_script("C:\\D\\Battly Launcher.lnk", "C:\\A\\app.exe");
    assert_eq!(
        script,
        "$ws = New-Object -ComObject WScript.Shell; $s = $ws.CreateShortcut('C:\\D\\Battly Launcher.lnk'); $s.TargetPath = 'C:\\A\\app.exe'; $s.IconLocation = 'C:\\A\\app.exe'; $s.Save()"
    );
}

#[test]
fn shortcut_script_doubles_quotes_in_paths() {
    let script = write_shortcut_script("C:\\O'Neil\\x.lnk", "C:\\O'Neil\\a'b.exe");
    assert_eq!(
        script,
        "$ws = New-Object -ComObject WScript.Shell; $s = $ws.CreateShortcut('C:\\O''Neil\\x.lnk'); $s.TargetPath = 'C:\\O''Neil\\a''b.exe'; $s.IconLocation = 'C:\\O''Neil\\a''b.exe'; $s.Save()"
    );
}

#[test]
fn removal_script_waits_and_removes() {
    assert_eq!(
        write_removal_script("C:\\L\\App"),
        "Start-Sleep -Seconds 2; Remove-Item -LiteralPath 'C:\\L\\App' -Recurse -Force"
    );
    assert_eq!(
        write_removal_script("C:\\it's"),
        "Start-Sleep -Seconds 2; Remove-Item -LiteralPath 'C:\\it''s' -Recurse -Force"
    );
}

#[test]
fn script_host_runs_unseen() {
    let args = list_script_arguments(String::from("exit"));
    assert_eq!(
        args,
        vec!["-NoProfile", "-NonInteractive", "-WindowStyle", "Hidden", "-Command", "exit"]
    );
}

#[test]
fn bundle_setup_runs_silently() {
    assert_eq!(list_bundle_arguments(), vec!["/silent", "/launch=0", "/allusers=0"]);
}

#[test]
fn record_lists_its_values_under_their_registry_names() {
    let record = RegistrationRecord::compose("C:\\L\\App", "C:\\L\\App\\uninstall.exe");
    let text = |name: &str, text: &str| NamedValue {
        name: name.to_string(),
        value: RegistryValue::Text(text.to_string()),
    };
    let number = |name: &str, number: u32| NamedValue {
        name: name.to_string(),
        value: RegistryValue::Number(number),
    };
    assert_eq!(
        record.values(),
        vec![
            text("DisplayName", "Battly Launcher"),
            text("Publisher", "TecnoBros"),
            text("UninstallString", "\"C:\\L\\App\\uninstall.exe\" --uninstall"),
            text("InstallLocation", "C:\\L\\App"),
            text("DisplayIcon", "C:\\L\\App\\Battly Launcher 4 Hytale.exe"),
            number("NoModify", 1),
            number("NoRepair", 1),
        ]
    );
}
