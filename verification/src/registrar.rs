//! What makes the installed product known to the system: the registration
//! record, the shortcuts, and the scripts that make and remove them.

use vstd::prelude::*;
use vstd::string::*;

use crate::config::{
    APP_DISPLAY_NAME, APP_FOLDER_NAME, EXECUTABLE_NAME, PUBLISHER, SHORTCUT_FILE_NAME,
    UNINSTALLER_NAME, UNINSTALL_FLAG, UNINSTALL_REGISTRY_KEY,
};
use crate::text::{double_quotes, join_path, joined, quotes_doubled};

verus! {

/// The texts that a list of strings holds.
pub open spec fn texts(list: Seq<String>) -> Seq<Seq<char>> {
    list.map_values(|s: String| s@)
}

/// Where the product is installed, and under which names.
#[derive(Debug, PartialEq, Eq)]
pub struct InstallTarget {
    /// The directory that holds the product.
    pub root: String,
    pub executable_name: String,
    pub uninstaller_name: String,
    pub display_name: String,
    pub publisher: String,
}

/// An install target as a mathematical value.
pub struct InstallTargetView {
    pub root: Seq<char>,
    pub executable_name: Seq<char>,
    pub uninstaller_name: Seq<char>,
    pub display_name: Seq<char>,
    pub publisher: Seq<char>,
}

impl View for InstallTarget {
    type V = InstallTargetView;

    open spec fn view(&self) -> InstallTargetView {
        InstallTargetView {
            root: self.root@,
            executable_name: self.executable_name@,
            uninstaller_name: self.uninstaller_name@,
            display_name: self.display_name@,
            publisher: self.publisher@,
        }
    }
}

/// The directory that holds the product, for a user whose local application
/// data is at `local_app_data`.
pub open spec fn install_root(local_app_data: Seq<char>) -> Seq<char> {
    joined(local_app_data, APP_FOLDER_NAME@)
}

/// The one target of a user whose local application data is at
/// `local_app_data`: nothing of it is for the user to choose.
pub open spec fn target_of(local_app_data: Seq<char>) -> InstallTargetView {
    InstallTargetView {
        root: install_root(local_app_data),
        executable_name: EXECUTABLE_NAME@,
        uninstaller_name: UNINSTALLER_NAME@,
        display_name: APP_DISPLAY_NAME@,
        publisher: PUBLISHER@,
    }
}

impl InstallTargetView {
    /// The file that starts the product.
    pub open spec fn executable_path(self) -> Seq<char> {
        joined(self.root, self.executable_name)
    }

    /// The file that removes the product.
    pub open spec fn uninstaller_path(self) -> Seq<char> {
        joined(self.root, self.uninstaller_name)
    }
}

impl InstallTarget {
    /// The target of a user whose local application data is at
    /// `local_app_data`.
    pub fn locate(local_app_data: &str) -> (target: InstallTarget)
        ensures
            target@ == target_of(local_app_data@),
    {
        InstallTarget {
            root: join_path(local_app_data, APP_FOLDER_NAME),
            executable_name: String::from_str(EXECUTABLE_NAME),
            uninstaller_name: String::from_str(UNINSTALLER_NAME),
            display_name: String::from_str(APP_DISPLAY_NAME),
            publisher: String::from_str(PUBLISHER),
        }
    }

    /// The file that starts the product.
    pub fn executable_path(&self) -> (path: String)
        ensures
            path@ == self@.executable_path(),
    {
        join_path(self.root.as_str(), self.executable_name.as_str())
    }

    /// The file that removes the product.
    pub fn uninstaller_path(&self) -> (path: String)
        ensures
            path@ == self@.uninstaller_path(),
    {
        join_path(self.root.as_str(), self.uninstaller_name.as_str())
    }
}

/// The record that marks the product as installed.
#[derive(Clone, Debug, PartialEq, Eq)]
pub struct RegistrationRecord {
    /// The registry key that holds the record.
    pub key_path: String,
    pub display_name: String,
    pub publisher: String,
    /// The command line that removes the product.
    pub uninstall_string: String,
    pub install_location: String,
    pub display_icon: String,
    pub no_modify: u32,
    pub no_repair: u32,
}

/// A registration record as a mathematical value.
pub struct RegistrationRecordView {
    pub key_path: Seq<char>,
    pub display_name: Seq<char>,
    pub publisher: Seq<char>,
    pub uninstall_string: Seq<char>,
    pub install_location: Seq<char>,
    pub display_icon: Seq<char>,
    pub no_modify: nat,
    pub no_repair: nat,
}

impl View for RegistrationRecord {
    type V = RegistrationRecordView;

    open spec fn view(&self) -> RegistrationRecordView {
        RegistrationRecordView {
            key_path: self.key_path@,
            display_name: self.display_name@,
            publisher: self.publisher@,
            uninstall_string: self.uninstall_string@,
            install_location: self.install_location@,
            display_icon: self.display_icon@,
            no_modify: self.no_modify as nat,
            no_repair: self.no_repair as nat,
        }
    }
}

/// The registry key that holds the record of the product.
pub open spec fn registration_key() -> Seq<char> {
    UNINSTALL_REGISTRY_KEY@ + "\\"@ + APP_FOLDER_NAME@
}

/// The command line that runs the uninstaller at `uninstaller`: the path in
/// double quotes, a space, and the flag that asks for removal.
pub open spec fn uninstall_command(uninstaller: Seq<char>) -> Seq<char> {
    "\""@ + uninstaller + "\" "@ + UNINSTALL_FLAG@
}

/// The record of a product installed in `root`, whose uninstaller is at
/// `uninstaller`.
pub open spec fn registration_of(root: Seq<char>, uninstaller: Seq<char>) -> RegistrationRecordView {
    RegistrationRecordView {
        key_path: registration_key(),
        display_name: APP_DISPLAY_NAME@,
        publisher: PUBLISHER@,
        uninstall_string: uninstall_command(uninstaller),
        install_location: root,
        display_icon: joined(root, EXECUTABLE_NAME@),
        no_modify: 1,
        no_repair: 1,
    }
}

/// Writes the registry key that holds the record of the product.
pub fn registration_key_path() -> (key: String)
    ensures
        key@ == registration_key(),
{
    let mut key = String::from_str(UNINSTALL_REGISTRY_KEY);
    key.append("\\");
    key.append(APP_FOLDER_NAME);
    key
}

impl RegistrationRecord {
    /// Composes the record of a product installed in `root`, whose
    /// uninstaller is at `uninstaller`.
    pub fn compose(root: &str, uninstaller: &str) -> (record: RegistrationRecord)
        ensures
            record@ == registration_of(root@, uninstaller@),
    {
        let mut command = String::from_str("\"");
        command.append(uninstaller);
        command.append("\" ");
        command.append(UNINSTALL_FLAG);
        RegistrationRecord {
            key_path: registration_key_path(),
            display_name: String::from_str(APP_DISPLAY_NAME),
            publisher: String::from_str(PUBLISHER),
            uninstall_string: command,
            install_location: String::from_str(root),
            display_icon: join_path(root, EXECUTABLE_NAME),
            no_modify: 1,
            no_repair: 1,
        }
    }
}

/// What a value of the registration record holds.
#[derive(Clone, Debug, PartialEq, Eq)]
pub enum RegistryValue {
    Text(String),
    Number(u32),
}

/// One value of the registration record, under its name in the registry.
#[derive(Clone, Debug, PartialEq, Eq)]
pub struct NamedValue {
    pub name: String,
    pub value: RegistryValue,
}

/// What a value of the registration record holds, as a mathematical value.
pub enum RegistryValueView {
    Text(Seq<char>),
    Number(nat),
}

/// A named value as a mathematical value.
pub struct NamedValueView {
    pub name: Seq<char>,
    pub value: RegistryValueView,
}

impl View for NamedValue {
    type V = NamedValueView;

    open spec fn view(&self) -> NamedValueView {
        NamedValueView {
            name: self.name@,
            value: match self.value {
                RegistryValue::Text(text) => RegistryValueView::Text(text@),
                RegistryValue::Number(number) => RegistryValueView::Number(number as nat),
            },
        }
    }
}

/// The named values of a list.
pub open spec fn named_values(list: Seq<NamedValue>) -> Seq<NamedValueView> {
    list.map_values(|v: NamedValue| v@)
}

/// A text under a name.
pub open spec fn text_value(name: Seq<char>, text: Seq<char>) -> NamedValueView {
    NamedValueView { name, value: RegistryValueView::Text(text) }
}

/// A number under a name.
pub open spec fn number_value(name: Seq<char>, number: nat) -> NamedValueView {
    NamedValueView { name, value: RegistryValueView::Number(number) }
}

impl RegistrationRecordView {
    /// The values of the record under the names that the system looks for,
    /// in the order in which they are written.
    pub open spec fn values(self) -> Seq<NamedValueView> {
        seq![
            text_value("DisplayName"@, self.display_name),
            text_value("Publisher"@, self.publisher),
            text_value("UninstallString"@, self.uninstall_string),
            text_value("InstallLocation"@, self.install_location),
            text_value("DisplayIcon"@, self.display_icon),
            number_value("NoModify"@, self.no_modify),
            number_value("NoRepair"@, self.no_repair),
        ]
    }
}

fn text_under(name: &str, text: &String) -> (v: NamedValue)
    ensures
        v@ == text_value(name@, text@),
{
    NamedValue { name: String::from_str(name), value: RegistryValue::Text(text.clone()) }
}

fn number_under(name: &str, number: u32) -> (v: NamedValue)
    ensures
        v@ == number_value(name@, number as nat),
{
    NamedValue { name: String::from_str(name), value: RegistryValue::Number(number) }
}

impl RegistrationRecord {
    /// Lists the values of the record under their names in the registry, in
    /// the order in which they are to be written.
    pub fn values(&self) -> (list: Vec<NamedValue>)
        ensures
            named_values(list@) == self@.values(),
    {
        let mut list: Vec<NamedValue> = Vec::new();
        list.push(text_under("DisplayName", &self.display_name));
        list.push(text_under("Publisher", &self.publisher));
        list.push(text_under("UninstallString", &self.uninstall_string));
        list.push(text_under("InstallLocation", &self.install_location));
        list.push(text_under("DisplayIcon", &self.display_icon));
        list.push(number_under("NoModify", self.no_modify));
        list.push(number_under("NoRepair", self.no_repair));
        assert(named_values(list@) =~= self@.values());
        list
    }
}

/// The script that makes a shortcut at `link` which starts `target` and shows
/// its icon. Both paths stand in single quotes, with their own single quotes
/// doubled.
pub open spec fn shortcut_script(link: Seq<char>, target: Seq<char>) -> Seq<char> {
    "$ws = New-Object -ComObject WScript.Shell; $s = $ws.CreateShortcut('"@ + quotes_doubled(link)
        + "'); $s.TargetPath = '"@ + quotes_doubled(target) + "'; $s.IconLocation = '"@
        + quotes_doubled(target) + "'; $s.Save()"@
}

/// Writes the script that makes a shortcut at `link` to `target`.
pub fn write_shortcut_script(link: &str, target: &str) -> (script: String)
    ensures
        script@ == shortcut_script(link@, target@),
{
    let quoted_link = double_quotes(link);
    let quoted_target = double_quotes(target);
    let mut script = String::from_str(
        "$ws = New-Object -ComObject WScript.Shell; $s = $ws.CreateShortcut('",
    );
    script.append(quoted_link.as_str());
    script.append("'); $s.TargetPath = '");
    script.append(quoted_target.as_str());
    script.append("'; $s.IconLocation = '");
    script.append(quoted_target.as_str());
    script.append("'; $s.Save()");
    script
}

/// The shortcut that stands in the directory `folder`.
pub open spec fn shortcut_in(folder: Seq<char>) -> Seq<char> {
    joined(folder, SHORTCUT_FILE_NAME@)
}

/// The script that removes the directory `root` with all it holds, two
/// seconds after it is started.
pub open spec fn removal_script(root: Seq<char>) -> Seq<char> {
    "Start-Sleep -Seconds 2; Remove-Item -LiteralPath '"@ + quotes_doubled(root)
        + "' -Recurse -Force"@
}

/// Writes the script that removes the directory `root` after a delay.
pub fn write_removal_script(root: &str) -> (script: String)
    ensures
        script@ == removal_script(root@),
{
    let quoted = double_quotes(root);
    let mut script = String::from_str("Start-Sleep -Seconds 2; Remove-Item -LiteralPath '");
    script.append(quoted.as_str());
    script.append("' -Recurse -Force");
    script
}

/// The arguments with which the script host runs `script`, unseen and without
/// asking the user anything.
pub open spec fn script_arguments(script: Seq<char>) -> Seq<Seq<char>> {
    seq!["-NoProfile"@, "-NonInteractive"@, "-WindowStyle"@, "Hidden"@, "-Command"@, script]
}

/// Lists the arguments with which the script host runs `script`.
pub fn list_script_arguments(script: String) -> (args: Vec<String>)
    ensures
        texts(args@) == script_arguments(script@),
{
    let mut args: Vec<String> = Vec::new();
    args.push(String::from_str("-NoProfile"));
    args.push(String::from_str("-NonInteractive"));
    args.push(String::from_str("-WindowStyle"));
    args.push(String::from_str("Hidden"));
    args.push(String::from_str("-Command"));
    args.push(script);
    assert(texts(args@) =~= script_arguments(script@));
    args
}

/// The arguments with which the setup of the bundled application is started:
/// silently, without starting the application, for this user alone.
pub open spec fn bundle_arguments() -> Seq<Seq<char>> {
    seq!["/silent"@, "/launch=0"@, "/allusers=0"@]
}

/// Lists the arguments with which the bundled application's setup is started.
pub fn list_bundle_arguments() -> (args: Vec<String>)
    ensures
        texts(args@) == bundle_arguments(),
{
    let mut args: Vec<String> = Vec::new();
    args.push(String::from_str("/silent"));
    args.push(String::from_str("/launch=0"));
    args.push(String::from_str("/allusers=0"));
    assert(texts(args@) =~= bundle_arguments());
    args
}

} // verus!
