//! The fixed names and addresses of the product that is installed.

use vstd::prelude::*;

verus! {

/// The folder under the user's local application data that holds the product,
/// and the name under which the product is registered.
pub const APP_FOLDER_NAME: &'static str = "BattlyLauncher4Hytale";

/// The name shown to the user.
pub const APP_DISPLAY_NAME: &'static str = "Battly Launcher";

/// The publisher shown to the user.
pub const PUBLISHER: &'static str = "TecnoBros";

/// The file that starts the installed product.
pub const EXECUTABLE_NAME: &'static str = "Battly Launcher 4 Hytale.exe";

/// The file under which the installer keeps a copy of itself.
pub const UNINSTALLER_NAME: &'static str = "uninstall.exe";

/// Where the packaged product is fetched from.
pub const PAYLOAD_URL: &'static str =
    "https://github.com/1ly4s0/Battly4Hytale/releases/latest/download/BattlyLauncher-win.zip";

/// The file name of each shortcut.
pub const SHORTCUT_FILE_NAME: &'static str = "Battly Launcher.lnk";

/// The start menu's folder, below the user's roaming application data.
pub const START_MENU_FOLDER: &'static str = "Microsoft/Windows/Start Menu/Programs";

/// Where the optional bundled application is fetched from.
pub const BUNDLE_URL: &'static str =
    "https://net.geo.opera.com/opera/stable/windows?utm_source=battly&utm_medium=installer&utm_campaign=battly_installer";

/// The file name under which the bundled application's setup is stored.
pub const BUNDLE_FILE_NAME: &'static str = "OperaSetup.exe";

/// The registry key that lists the installed applications of the user.
pub const UNINSTALL_REGISTRY_KEY: &'static str =
    "Software\\Microsoft\\Windows\\CurrentVersion\\Uninstall";

/// The command-line argument that asks for removal.
pub const UNINSTALL_FLAG: &'static str = "--uninstall";

/// The name under which the observer is told of progress.
pub const PROGRESS_CHANNEL: &'static str = "install-progress";

/// The name under which the observer is told that the run has finished.
pub const FINISH_CHANNEL: &'static str = "install-finished";

/// The program that runs the scripts.
pub const SCRIPT_HOST: &'static str = "powershell";

} // verus!
