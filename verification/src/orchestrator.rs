//! The orchestrator: what entering a deployment mode asks of the program.
//!
//! Given a configuration, the state of the license and a way to probe
//! ports, the functions here decide which port the embedded service gets,
//! whether the configuration is written back, whether the hub is
//! advertised, and what the user interface is told. The program carries
//! the decisions out.

use crate::config::{AppConfig, AppState, ConfigView, DeploymentMode};
use crate::discovery::{advertisement, advertisement_of, Advertisement, AdvertisementView};
use crate::licensing::{
    offline_verdict, online_verdict, requires_license, rfc3339_instant, tier_covers, Instant,
    License, LicenseValidator, Reply, ValidationRequest, ValidationResponse,
};
use crate::ports::{find_available_port, port_choice};
use crate::text::{decimal, push_decimal};
use vstd::prelude::*;

verus! {

/// The name of the event that tells the user interface of a configuration.
pub const CONFIG_EVENT: &'static str = "openbio:config";

/// The base URL under which the user interface reaches the backing
/// service: on this machine for a local or hub instance, the configured
/// address (empty where there is none) for a spoke or an enterprise
/// client, empty while unconfigured.
pub open spec fn effective_url(config: ConfigView) -> Seq<char> {
    match config.mode {
        DeploymentMode::Local | DeploymentMode::Hub => "http://localhost:"@ + decimal(
            config.server_port as nat,
        ),
        DeploymentMode::Spoke | DeploymentMode::Enterprise => match config.api_url {
            Some(url) => url,
            None => Seq::empty(),
        },
        DeploymentMode::Unconfigured => Seq::empty(),
    }
}

/// Computes [`effective_url`].
pub fn effective_api_url(config: &AppConfig) -> (url: String)
    ensures
        url@ == effective_url(config@),
{
    match config.mode {
        DeploymentMode::Local | DeploymentMode::Hub => {
            let mut url = String::from_str("http://localhost:");
            push_decimal(&mut url, config.server_port as u32);
            url
        },
        DeploymentMode::Spoke | DeploymentMode::Enterprise => match &config.api_url {
            Some(url) => url.clone(),
            None => String::new(),
        },
        DeploymentMode::Unconfigured => String::new(),
    }
}

/// The address on which the embedded service listens for `port`.
pub open spec fn service_address_of(port: u16) -> Seq<char> {
    "127.0.0.1:"@ + decimal(port as nat)
}

/// Computes [`service_address_of`].
pub fn service_address(port: u16) -> (address: String)
    ensures
        address@ == service_address_of(port),
{
    let mut address = String::from_str("127.0.0.1:");
    push_decimal(&mut address, port as u32);
    address
}

/// The locator of the embedded service's storage in the file `path`.
pub fn database_url(path: &str) -> (url: String)
    ensures
        url@ == "file:"@ + path@,
{
    let mut url = String::from_str("file:");
    url.append(path);
    url
}

/// What the user interface is told when the configuration changes.
#[derive(Debug)]
pub struct ConfigNotice {
    pub api_url: String,
    pub mode: DeploymentMode,
}

/// The model of a [`ConfigNotice`].
pub struct NoticeView {
    pub api_url: Seq<char>,
    pub mode: DeploymentMode,
}

impl View for ConfigNotice {
    type V = NoticeView;

    open spec fn view(&self) -> NoticeView {
        NoticeView { api_url: self.api_url@, mode: self.mode }
    }
}

/// The notice that goes with `config`.
pub fn config_notice(config: &AppConfig) -> (notice: ConfigNotice)
    ensures
        notice@ == (NoticeView { api_url: effective_url(config@), mode: config.mode }),
{
    ConfigNotice { api_url: effective_api_url(config), mode: config.mode }
}

/// How the embedded service is to be started.
#[derive(Clone, Copy, Debug, PartialEq, Eq, Structural)]
pub struct ServiceStart {
    pub port: u16,
    pub apply_migrations: bool,
}

/// What is known of the license when a mode is entered.
pub enum LicenseStatus {
    /// No license was looked for.
    NotChecked,
    /// This license was validated, online or offline within its grace period.
    Valid(License),
    /// Validation failed for the reason given.
    Invalid(String),
}

/// What the program does next to learn the state of the license.
pub enum LicenseStep {
    /// Nothing: this is the state.
    Known(LicenseStatus),
    /// It sends this request to the license server and hands the answer to
    /// [`license_after_reply`].
    AskServer(ValidationRequest),
}

/// Whether `step` is the right next step for `mode` with the license
/// `cached` on disk, at the instant `now`.
///
/// A mode that needs no license looks for none, and without a cached
/// license there is nothing to validate. A cached license that holds
/// offline is valid as it is; one that does not is put to the server, for
/// the machine `server_id`.
pub open spec fn license_step_fits(
    mode: DeploymentMode,
    cached: Option<License>,
    server_id: Option<String>,
    now: Instant,
    step: LicenseStep,
) -> bool {
    if !(mode == DeploymentMode::Hub || mode == DeploymentMode::Enterprise) {
        step == LicenseStep::Known(LicenseStatus::NotChecked)
    } else {
        match cached {
            None => step == LicenseStep::Known(LicenseStatus::NotChecked),
            Some(license) => if offline_verdict(rfc3339_instant(license.expires_at@), now) is Ok {
                step == LicenseStep::Known(LicenseStatus::Valid(license))
            } else {
                &&& step matches LicenseStep::AskServer(request)
                &&& request.license_key@ == license.key@
                &&& request.server_id == server_id
            },
        }
    }
}

/// The next step at the instant `now`; see [`license_step_fits`].
pub fn license_step_at(
    validator: &LicenseValidator,
    mode: &DeploymentMode,
    cached: Option<License>,
    server_id: Option<String>,
    now: Instant,
) -> (step: LicenseStep)
    ensures
        license_step_fits(*mode, cached, server_id, now, step),
{
    if !requires_license(mode) {
        return LicenseStep::Known(LicenseStatus::NotChecked);
    }
    match cached {
        None => LicenseStep::Known(LicenseStatus::NotChecked),
        Some(license) => match validator.validate_offline_at(&license, now) {
            Ok(_) => LicenseStep::Known(LicenseStatus::Valid(license)),
            Err(_) => LicenseStep::AskServer(
                validator.validation_request(license.key.as_str(), server_id),
            ),
        },
    }
}

/// The next step at the clock's reading; see [`license_step_fits`].
pub fn license_step(
    validator: &LicenseValidator,
    mode: &DeploymentMode,
    cached: Option<License>,
    server_id: Option<String>,
) -> (step: LicenseStep)
    ensures
        exists|now: Instant| #[trigger] license_step_fits(*mode, cached, server_id, now, step),
{
    let offline = match &cached {
        Some(license) => validator.validate_offline(license).is_ok(),
        None => false,
    };
    if !requires_license(mode) {
        let step = LicenseStep::Known(LicenseStatus::NotChecked);
        assert(license_step_fits(*mode, cached, server_id, Instant { seconds: 0, nanos: 0 }, step));
        return step;
    }
    match cached {
        None => {
            let step = LicenseStep::Known(LicenseStatus::NotChecked);
            assert(license_step_fits(
                *mode,
                cached,
                server_id,
                Instant { seconds: 0, nanos: 0 },
                step,
            ));
            step
        },
        Some(license) => {
            let ghost parsed = rfc3339_instant(license.expires_at@);
            let ghost now = choose|now: Instant|
                offline == (#[trigger] offline_verdict(parsed, now) is Ok);
            let step = if offline {
                LicenseStep::Known(LicenseStatus::Valid(license))
            } else {
                LicenseStep::AskServer(
                    validator.validation_request(license.key.as_str(), server_id),
                )
            };
            assert(license_step_fits(*mode, cached, server_id, now, step));
            step
        },
    }
}

/// The state of the license `key` once the server has answered: valid
/// with the license it granted, or invalid for the reason it gave.
pub fn license_after_reply(
    validator: &LicenseValidator,
    key: &str,
    reply: Reply<ValidationResponse>,
) -> (status: LicenseStatus)
    ensures
        match online_verdict(key@, reply) {
            Ok(granted) => status matches LicenseStatus::Valid(license) && license@ == granted,
            Err(reason) => status matches LicenseStatus::Invalid(given) && given@ == reason,
        },
{
    match validator.validate_online(key, reply) {
        Ok(license) => LicenseStatus::Valid(license),
        Err(reason) => LicenseStatus::Invalid(reason),
    }
}

/// On what occasion a mode is entered.
#[derive(Clone, Copy, Debug, PartialEq, Eq, Structural)]
pub enum Occasion {
    /// The program starts with the configuration it loaded.
    Startup,
    /// The user completed setup with a new configuration.
    Setup,
}

/// Why `mode` may not be entered with the license in the state `license`;
/// none where it may: the mode needs no license, or a valid license covers it.
pub open spec fn license_refusal(mode: DeploymentMode, license: LicenseStatus) -> Option<
    Seq<char>,
> {
    if !(mode == DeploymentMode::Hub || mode == DeploymentMode::Enterprise) {
        None
    } else {
        match license {
            LicenseStatus::NotChecked => Some("A valid license is required for this mode"@),
            LicenseStatus::Invalid(reason) => Some(reason@),
            LicenseStatus::Valid(found) => if tier_covers(found.tier@, mode) {
                None
            } else {
                Some("The license does not cover this mode"@)
            },
        }
    }
}

/// Computes [`license_refusal`].
pub fn check_license(mode: &DeploymentMode, license: &LicenseStatus) -> (refusal: Option<String>)
    ensures
        refusal is Some <==> license_refusal(*mode, *license) is Some,
        refusal matches Some(reason) ==> license_refusal(*mode, *license) == Some(reason@),
{
    if !requires_license(mode) {
        return None;
    }
    match license {
        LicenseStatus::NotChecked => Some(
            String::from_str("A valid license is required for this mode"),
        ),
        LicenseStatus::Invalid(reason) => Some(reason.clone()),
        LicenseStatus::Valid(found) => if found.covers(mode) {
            None
        } else {
            Some(String::from_str("The license does not cover this mode"))
        },
    }
}

/// What the program does to enter a mode.
#[derive(Debug)]
pub struct Activation {
    /// The configuration in force, its port corrected where it had to be.
    pub config: AppConfig,
    /// Whether the configuration is written to its file first.
    pub persist: bool,
    /// How the embedded service is started, where the mode runs one.
    pub service: Option<ServiceStart>,
    /// What is advertised on the network, where the mode is a hub with a name.
    pub broadcast: Option<Advertisement>,
    /// What the user interface is told.
    pub notice: ConfigNotice,
}

/// The model of an [`Activation`].
pub struct ActivationView {
    pub config: ConfigView,
    pub persist: bool,
    pub service: Option<ServiceStart>,
    pub broadcast: Option<AdvertisementView>,
    pub notice: NoticeView,
}

impl View for Activation {
    type V = ActivationView;

    open spec fn view(&self) -> ActivationView {
        ActivationView {
            config: self.config@,
            persist: self.persist,
            service: self.service,
            broadcast: match self.broadcast {
                Some(ad) => Some(ad@),
                None => None,
            },
            notice: self.notice@,
        }
    }
}

/// The configuration in force once `config` is entered with `port` found
/// for the embedded service: a mode that runs the service takes that port.
pub open spec fn config_in_force(config: ConfigView, port: u16) -> ConfigView {
    if config.mode.runs_local_service() {
        ConfigView { server_port: port, ..config }
    } else {
        config
    }
}

/// What entering `config` asks for, `port` being the port found for the
/// embedded service.
///
/// A local or hub instance starts the service on `port`, with migrations; a
/// hub with a lab name is advertised on that port as well. The
/// configuration is written back after setup, and at startup where the
/// port had to be corrected. The notice carries the effective URL of the
/// configuration in force.
pub open spec fn activation_of(config: ConfigView, port: u16, occasion: Occasion) -> ActivationView {
    let local = config.mode.runs_local_service();
    let in_force = config_in_force(config, port);
    ActivationView {
        config: in_force,
        persist: occasion == Occasion::Setup || (local && port != config.server_port),
        service: if local {
            Some(ServiceStart { port, apply_migrations: true })
        } else {
            None
        },
        broadcast: if config.mode == DeploymentMode::Hub && config.lab_name is Some {
            Some(advertisement_of(config.lab_name.unwrap(), port))
        } else {
            None
        },
        notice: NoticeView { api_url: effective_url(in_force), mode: config.mode },
    }
}

/// Computes [`activation_of`].
pub fn activation(config: AppConfig, port: u16, occasion: Occasion) -> (plan: Activation)
    ensures
        plan@ == activation_of(config@, port, occasion),
{
    let local = config.mode.is_local_service();
    let setup = match occasion {
        Occasion::Setup => true,
        Occasion::Startup => false,
    };
    let persist = setup || (local && port != config.server_port);
    let service = if local {
        Some(ServiceStart { port, apply_migrations: true })
    } else {
        None
    };
    let broadcast = match (&config.mode, &config.lab_name) {
        (DeploymentMode::Hub, Some(lab_name)) => Some(advertisement(lab_name.as_str(), port)),
        _ => None,
    };
    let mut in_force = config;
    if local {
        in_force.server_port = port;
    }
    let notice = config_notice(&in_force);
    Activation { config: in_force, persist, service, broadcast, notice }
}

/// Decides how `config` is entered.
///
/// Where the mode needs a license and `license` does not grant it, the
/// mode is refused with the reason and no port is probed. Otherwise a
/// local or hub instance gets the first free port from its configured one
/// on (see [`find_available_port`]) and the activation follows from that
/// port; another mode keeps its configuration as it is.
pub fn plan_activation<F: Fn(u16) -> bool>(
    config: AppConfig,
    license: &LicenseStatus,
    occasion: Occasion,
    can_bind: F,
) -> (outcome: Result<Activation, String>)
    requires
        forall|p: u16| call_requires(can_bind, (p,)),
    ensures
        match outcome {
            Err(reason) => license_refusal(config.mode, *license) == Some(reason@),
            Ok(plan) => {
                &&& license_refusal(config.mode, *license) is None
                &&& config.mode.runs_local_service() ==> port_choice(
                    config.server_port,
                    can_bind,
                    plan.config.server_port,
                )
                &&& plan@ == activation_of(config@, plan.config.server_port, occasion)
            },
        },
{
    if let Some(reason) = check_license(&config.mode, license) {
        return Err(reason);
    }
    let port = if config.mode.is_local_service() {
        find_available_port(config.server_port, can_bind)
    } else {
        config.server_port
    };
    Ok(activation(config, port, occasion))
}

/// Enters `config`: decides as [`plan_activation`] does and, where the
/// mode is granted, makes the configuration in force the state's own. A
/// refusal leaves the state as it was.
pub fn enter_mode<F: Fn(u16) -> bool>(
    state: &mut AppState,
    config: AppConfig,
    license: &LicenseStatus,
    occasion: Occasion,
    can_bind: F,
) -> (outcome: Result<Activation, String>)
    requires
        forall|p: u16| call_requires(can_bind, (p,)),
    ensures
        match outcome {
            Err(reason) => {
                &&& license_refusal(config.mode, *license) == Some(reason@)
                &&& final(state).config() == old(state).config()
            },
            Ok(plan) => {
                &&& license_refusal(config.mode, *license) is None
                &&& config.mode.runs_local_service() ==> port_choice(
                    config.server_port,
                    can_bind,
                    plan.config.server_port,
                )
                &&& plan@ == activation_of(config@, plan.config.server_port, occasion)
                &&& final(state).config() == plan.config@
            },
        },
{
    match plan_activation(config, license, occasion, can_bind) {
        Ok(plan) => {
            state.set_config(plan.config.clone());
            Ok(plan)
        },
        Err(reason) => Err(reason),
    }
}

} // verus!
