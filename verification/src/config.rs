//! The deployment configuration and the topology it selects.

use crate::text::{opt_text, same_text};
use vstd::prelude::*;

verus! {

/// The topology in which this instance runs.
#[derive(Clone, Copy, Debug, PartialEq, Eq, Structural)]
pub enum DeploymentMode {
    Unconfigured,
    Local,
    Hub,
    Spoke,
    Enterprise,
}

impl Default for DeploymentMode {
    fn default() -> (mode: Self)
        ensures
            mode == DeploymentMode::Unconfigured,
    {
        DeploymentMode::Unconfigured
    }
}

impl DeploymentMode {
    /// Whether this mode runs the embedded backing service on this machine.
    pub open spec fn runs_local_service(self) -> bool {
        self == DeploymentMode::Local || self == DeploymentMode::Hub
    }

    /// Whether this mode points at a service run elsewhere.
    pub open spec fn uses_remote_service(self) -> bool {
        self == DeploymentMode::Spoke || self == DeploymentMode::Enterprise
    }

    /// Exec counterpart of [`Self::runs_local_service`].
    pub fn is_local_service(&self) -> (b: bool)
        ensures
            b == self.runs_local_service(),
    {
        match self {
            DeploymentMode::Local | DeploymentMode::Hub => true,
            _ => false,
        }
    }
}

/// The name under which a mode is stored and announced.
pub open spec fn mode_name(mode: DeploymentMode) -> Seq<char> {
    match mode {
        DeploymentMode::Unconfigured => "unconfigured"@,
        DeploymentMode::Local => "local"@,
        DeploymentMode::Hub => "hub"@,
        DeploymentMode::Spoke => "spoke"@,
        DeploymentMode::Enterprise => "enterprise"@,
    }
}

/// The mode that a name stands for.
pub open spec fn mode_named(name: Seq<char>) -> Option<DeploymentMode> {
    if name == "unconfigured"@ {
        Some(DeploymentMode::Unconfigured)
    } else if name == "local"@ {
        Some(DeploymentMode::Local)
    } else if name == "hub"@ {
        Some(DeploymentMode::Hub)
    } else if name == "spoke"@ {
        Some(DeploymentMode::Spoke)
    } else if name == "enterprise"@ {
        Some(DeploymentMode::Enterprise)
    } else {
        None
    }
}

/// Each mode is found again under its name.
pub proof fn lemma_mode_name_round_trip(mode: DeploymentMode)
    ensures
        mode_named(mode_name(mode)) == Some(mode),
{
    reveal_strlit("unconfigured");
    reveal_strlit("local");
    reveal_strlit("hub");
    reveal_strlit("spoke");
    reveal_strlit("enterprise");
    assert("local"@[0] != "spoke"@[0]);
    assert("unconfigured"@.len() != "enterprise"@.len());
}

impl DeploymentMode {
    /// Gives [`mode_name`].
    pub fn name(&self) -> (name: &'static str)
        ensures
            name@ == mode_name(*self),
    {
        match self {
            DeploymentMode::Unconfigured => "unconfigured",
            DeploymentMode::Local => "local",
            DeploymentMode::Hub => "hub",
            DeploymentMode::Spoke => "spoke",
            DeploymentMode::Enterprise => "enterprise",
        }
    }

    /// Computes [`mode_named`].
    pub fn from_name(name: &str) -> (mode: Option<DeploymentMode>)
        ensures
            mode == mode_named(name@),
    {
        if same_text(name, "unconfigured") {
            Some(DeploymentMode::Unconfigured)
        } else if same_text(name, "local") {
            Some(DeploymentMode::Local)
        } else if same_text(name, "hub") {
            Some(DeploymentMode::Hub)
        } else if same_text(name, "spoke") {
            Some(DeploymentMode::Spoke)
        } else if same_text(name, "enterprise") {
            Some(DeploymentMode::Enterprise)
        } else {
            None
        }
    }
}

/// The deployment configuration that setup produces.
#[derive(Debug)]
pub struct AppConfig {
    pub mode: DeploymentMode,
    pub lab_name: Option<String>,
    pub api_url: Option<String>,
    pub server_port: u16,
}

/// The model of an [`AppConfig`], and of a [`StoredConfig`] whose mode is known.
pub struct ConfigView {
    pub mode: DeploymentMode,
    pub lab_name: Option<Seq<char>>,
    pub api_url: Option<Seq<char>>,
    pub server_port: u16,
}

impl View for AppConfig {
    type V = ConfigView;

    open spec fn view(&self) -> ConfigView {
        ConfigView {
            mode: self.mode,
            lab_name: opt_text(self.lab_name),
            api_url: opt_text(self.api_url),
            server_port: self.server_port,
        }
    }
}

impl ConfigView {
    /// The configuration of an instance that was never set up.
    pub open spec fn unconfigured() -> ConfigView {
        ConfigView {
            mode: DeploymentMode::Unconfigured,
            lab_name: None,
            api_url: None,
            server_port: 0,
        }
    }

    /// Whether the configuration holds what its mode needs: a hub its lab
    /// name, a spoke or an enterprise client a non-empty address.
    pub open spec fn complete(self) -> bool {
        &&& self.mode == DeploymentMode::Hub ==> self.lab_name is Some
        &&& self.mode.uses_remote_service() ==> self.api_url is Some && self.api_url.unwrap().len()
            > 0
    }
}

fn copy_of(text: &Option<String>) -> (copy: Option<String>)
    ensures
        opt_text(copy) == opt_text(*text),
{
    match text {
        Some(t) => Some(t.clone()),
        None => None,
    }
}

impl Default for AppConfig {
    fn default() -> (config: Self)
        ensures
            config@ == ConfigView::unconfigured(),
    {
        AppConfig {
            mode: DeploymentMode::Unconfigured,
            lab_name: None,
            api_url: None,
            server_port: 0,
        }
    }
}

impl Clone for AppConfig {
    fn clone(&self) -> (config: Self)
        ensures
            config@ == self@,
    {
        AppConfig {
            mode: self.mode,
            lab_name: copy_of(&self.lab_name),
            api_url: copy_of(&self.api_url),
            server_port: self.server_port,
        }
    }
}

impl AppConfig {
    /// Tests [`ConfigView::complete`].
    pub fn is_complete(&self) -> (complete: bool)
        ensures
            complete == self@.complete(),
    {
        match self.mode {
            DeploymentMode::Hub => self.lab_name.is_some(),
            DeploymentMode::Spoke | DeploymentMode::Enterprise => match &self.api_url {
                Some(url) => !url.as_str().is_empty(),
                None => false,
            },
            _ => true,
        }
    }

    /// The form in which the configuration is written to its file.
    pub fn to_stored(&self) -> (stored: StoredConfig)
        ensures
            stored@ == stored_form(self@),
    {
        StoredConfig {
            mode: String::from_str(self.mode.name()),
            lab_name: copy_of(&self.lab_name),
            api_url: copy_of(&self.api_url),
            server_port: self.server_port,
        }
    }

    /// The configuration that a file's content stands for; none where its
    /// mode is no mode's name.
    pub fn from_stored(stored: StoredConfig) -> (config: Option<AppConfig>)
        ensures
            config is Some <==> restored(stored@) is Some,
            config matches Some(c) ==> restored(stored@) == Some(c@),
    {
        match DeploymentMode::from_name(stored.mode.as_str()) {
            Some(mode) => Some(
                AppConfig {
                    mode,
                    lab_name: stored.lab_name,
                    api_url: stored.api_url,
                    server_port: stored.server_port,
                },
            ),
            None => None,
        }
    }
}

/// The content of the configuration file, field by field: `mode`,
/// `labName`, `apiUrl`, `serverPort`.
#[derive(Debug)]
pub struct StoredConfig {
    pub mode: String,
    pub lab_name: Option<String>,
    pub api_url: Option<String>,
    pub server_port: u16,
}

/// The model of a [`StoredConfig`].
pub struct StoredView {
    pub mode: Seq<char>,
    pub lab_name: Option<Seq<char>>,
    pub api_url: Option<Seq<char>>,
    pub server_port: u16,
}

impl View for StoredConfig {
    type V = StoredView;

    open spec fn view(&self) -> StoredView {
        StoredView {
            mode: self.mode@,
            lab_name: opt_text(self.lab_name),
            api_url: opt_text(self.api_url),
            server_port: self.server_port,
        }
    }
}

/// What is written for a configuration.
pub open spec fn stored_form(config: ConfigView) -> StoredView {
    StoredView {
        mode: mode_name(config.mode),
        lab_name: config.lab_name,
        api_url: config.api_url,
        server_port: config.server_port,
    }
}

/// What is read back from a file's content.
pub open spec fn restored(stored: StoredView) -> Option<ConfigView> {
    match mode_named(stored.mode) {
        Some(mode) => Some(
            ConfigView {
                mode,
                lab_name: stored.lab_name,
                api_url: stored.api_url,
                server_port: stored.server_port,
            },
        ),
        None => None,
    }
}

/// What was written for a configuration reads back as that configuration,
/// whatever its mode.
pub proof fn lemma_stored_round_trip(config: ConfigView)
    ensures
        restored(stored_form(config)) == Some(config),
{
    lemma_mode_name_round_trip(config.mode);
}

/// The configuration to start with, given what the configuration file
/// holds (`None` where the file is missing or cannot be read as one): what
/// is read back from it, or the unconfigured default.
pub open spec fn loaded(stored: Option<StoredView>) -> ConfigView {
    match stored {
        Some(s) => match restored(s) {
            Some(c) => c,
            None => ConfigView::unconfigured(),
        },
        None => ConfigView::unconfigured(),
    }
}

/// Loading what was saved for a configuration gives that configuration,
/// whatever its mode.
pub proof fn lemma_load_after_save(config: ConfigView)
    ensures
        loaded(Some(stored_form(config))) == config,
{
    lemma_stored_round_trip(config);
}

/// The models of an optional file content.
pub open spec fn stored_view(stored: Option<StoredConfig>) -> Option<StoredView> {
    match stored {
        Some(s) => Some(s@),
        None => None,
    }
}

/// Computes [`loaded`].
pub fn load_config(stored: Option<StoredConfig>) -> (config: AppConfig)
    ensures
        config@ == loaded(stored_view(stored)),
{
    match stored {
        Some(s) => match AppConfig::from_stored(s) {
            Some(config) => config,
            None => AppConfig::default(),
        },
        None => AppConfig::default(),
    }
}

/// Whether setup has yet to run: it has while no configuration file exists.
pub fn needs_setup(config_file_exists: bool) -> (needed: bool)
    ensures
        needed == !config_file_exists,
{
    !config_file_exists
}

/// The configuration that the running instance goes by.
pub struct AppState {
    config: AppConfig,
}

impl AppState {
    /// The configuration currently held.
    pub closed spec fn config(&self) -> ConfigView {
        self.config@
    }

    /// The state of an instance that was never set up.
    pub fn new() -> (state: Self)
        ensures
            state.config() == ConfigView::unconfigured(),
    {
        AppState { config: AppConfig::default() }
    }

    /// A copy of the configuration currently held.
    pub fn get_config(&self) -> (config: AppConfig)
        ensures
            config@ == self.config(),
    {
        self.config.clone()
    }

    /// Replaces the configuration as a whole.
    pub fn set_config(&mut self, config: AppConfig)
        ensures
            final(self).config() == config@,
    {
        self.config = config;
    }
}

} // verus!
