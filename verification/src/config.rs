//! The configuration of the host.
//!
//! Reading and writing its file, and expanding paths, is left to the caller.
use vstd::prelude::*;

use crate::application::ApplicationConfig;
use crate::scanner::heroic::HeroicApplicationScannerConfig;
use crate::scanner::lutris::LutrisApplicationScannerConfig;
use crate::scanner::steam::SteamApplicationScannerConfig;
use crate::text;

verus! {

/// A scanner that adds applications.
#[derive(Debug)]
pub enum ApplicationScannerConfig {
    /// Games of Steam.
    Steam(SteamApplicationScannerConfig),
    /// Games of Lutris.
    Lutris(LutrisApplicationScannerConfig),
    /// Games of the Heroic launcher.
    Heroic(HeroicApplicationScannerConfig),
}

/// The configuration of the host.
#[derive(Debug)]
pub struct Config {
    /// Its name.
    pub name: String,
    /// The address to which it binds.
    pub address: String,
    /// Path to its certificate.
    pub certificate: String,
    /// Path to the key of its certificate.
    pub private_key: String,
    /// The applications.
    pub applications: Vec<ApplicationConfig>,
    /// The scanners that add applications.
    pub application_scanners: Vec<ApplicationScannerConfig>,
}

/// Steam as it is set up at first: in big picture mode.
pub open spec fn is_first_application(app: ApplicationConfig) -> bool {
    &&& app.title@ == "Steam"@
    &&& text::texts(app.command@) == seq!["/usr/bin/steam"@, "steam://open/bigpicture"@]
    &&& app.boxart is None
    &&& app.pre_command@.len() == 0
    &&& app.post_command@.len() == 0
    &&& app.stdout is None
    &&& app.stderr is None
    &&& app.launch_timeout_secs == 2
}

/// The scanner for Steam as it is set up at first.
pub open spec fn is_first_scanner(scanner: SteamApplicationScannerConfig) -> bool {
    &&& scanner.library@ == "$HOME/.local/share/Steam"@
    &&& text::texts(scanner.command@) == seq![
        "/usr/bin/steam"@,
        "-bigpicture"@,
        "steam://rungameid/{game_id}"@,
    ]
    &&& scanner.pre_command@.len() == 0
    &&& scanner.post_command@.len() == 0
    &&& scanner.stdout is None
    &&& scanner.stderr is None
    &&& scanner.launch_timeout_secs == 2
}

/// Steam as it is set up at first; see [`is_first_application`].
fn default_application() -> (r: ApplicationConfig)
    ensures
        is_first_application(r),
{
    let mut command: Vec<String> = Vec::new();
    command.push("/usr/bin/steam".to_owned());
    command.push("steam://open/bigpicture".to_owned());
    assert(text::texts(command@) == seq!["/usr/bin/steam"@, "steam://open/bigpicture"@]);
    let mut application = ApplicationConfig::default();
    application.title = "Steam".to_owned();
    application.command = command;
    application
}

/// The scanner for Steam as it is set up at first; see [`is_first_scanner`].
fn default_scanner() -> (r: SteamApplicationScannerConfig)
    ensures
        is_first_scanner(r),
{
    let mut command: Vec<String> = Vec::new();
    command.push("/usr/bin/steam".to_owned());
    command.push("-bigpicture".to_owned());
    command.push("steam://rungameid/{game_id}".to_owned());
    assert(text::texts(command@) == seq![
        "/usr/bin/steam"@,
        "-bigpicture"@,
        "steam://rungameid/{game_id}"@,
    ]);
    SteamApplicationScannerConfig {
        library: "$HOME/.local/share/Steam".to_owned(),
        command,
        pre_command: Vec::new(),
        post_command: Vec::new(),
        stdout: None,
        stderr: None,
        launch_timeout_secs: 2,
    }
}

impl Config {
    /// The configuration that is written where there is none: Steam, and a
    /// scanner for its games. `certificate` and `private_key` are where the
    /// web server keeps them.
    pub fn initial(certificate: String, private_key: String) -> (r: Self)
        ensures
            r.name@ == "Moonshine"@,
            r.address@ == "0.0.0.0"@,
            r.certificate == certificate,
            r.private_key == private_key,
            r.applications@.len() == 1,
            is_first_application(r.applications@[0]),
            r.application_scanners@.len() == 1,
            r.application_scanners@[0] matches ApplicationScannerConfig::Steam(s)
                && is_first_scanner(s),
    {
        let mut applications: Vec<ApplicationConfig> = Vec::new();
        applications.push(default_application());
        let mut application_scanners: Vec<ApplicationScannerConfig> = Vec::new();
        application_scanners.push(ApplicationScannerConfig::Steam(default_scanner()));
        Config {
            name: "Moonshine".to_owned(),
            address: "0.0.0.0".to_owned(),
            certificate,
            private_key,
            applications,
            application_scanners,
        }
    }

    /// Takes over the expanded paths of certificate and key; where either
    /// could not be expanded (`None`) that is an error. The certificate is
    /// taken over before the key is looked at.
    pub fn resolve_paths(&mut self, certificate: Option<String>, private_key: Option<String>) -> (r: Result<
        (),
        (),
    >)
        ensures
            r is Ok <==> certificate is Some && private_key is Some,
            *final(self) == (Config {
                certificate: match certificate {
                    Some(c) => c,
                    None => old(self).certificate,
                },
                private_key: if certificate is Some && private_key is Some {
                    private_key->0
                } else {
                    old(self).private_key
                },
                ..*old(self)
            }),
    {
        match certificate {
            Some(c) => {
                self.certificate = c;
            },
            None => return Err(()),
        }
        match private_key {
            Some(k) => {
                self.private_key = k;
                Ok(())
            },
            None => Err(()),
        }
    }
}

/// At first there is one application, Steam in big picture mode, and one
/// scanner, which starts the games of Steam by their numbers.
pub proof fn steam_is_set_up_at_first(app: ApplicationConfig, scanner: SteamApplicationScannerConfig)
    ensures
        is_first_application(app) ==> {
            &&& app.title@ == "Steam"@
            &&& app.command@.len() == 2
            &&& app.command@[0]@ == "/usr/bin/steam"@
            &&& app.command@[1]@ == "steam://open/bigpicture"@
            &&& app.boxart is None && app.stdout is None && app.stderr is None
            &&& app.pre_command@.len() == 0 && app.post_command@.len() == 0
            &&& app.launch_timeout_secs == 2
        },
        is_first_scanner(scanner) ==> {
            &&& scanner.library@ == "$HOME/.local/share/Steam"@
            &&& scanner.command@.len() == 3
            &&& scanner.command@[0]@ == "/usr/bin/steam"@
            &&& scanner.command@[1]@ == "-bigpicture"@
            &&& scanner.command@[2]@ == "steam://rungameid/{game_id}"@
            &&& scanner.stdout is None && scanner.stderr is None
            &&& scanner.pre_command@.len() == 0 && scanner.post_command@.len() == 0
            &&& scanner.launch_timeout_secs == 2
        },
{
    if is_first_application(app) {
        assert(text::texts(app.command@).len() == 2);
        assert(text::texts(app.command@)[0] == app.command@[0]@);
        assert(text::texts(app.command@)[1] == app.command@[1]@);
    }
    if is_first_scanner(scanner) {
        assert(text::texts(scanner.command@).len() == 3);
        assert(text::texts(scanner.command@)[0] == scanner.command@[0]@);
        assert(text::texts(scanner.command@)[1] == scanner.command@[1]@);
        assert(text::texts(scanner.command@)[2] == scanner.command@[2]@);
    }
}

} // verus!
