//! What a run is configured with: the capabilities of the platform, the build
//! profile, and the fixed interface of the backend sidecar.

use vstd::prelude::*;

verus! {

/// The port that the backend sidecar listens on.
pub const BACKEND_PORT: u16 = 8100;

/// The environment variable that tells the sidecar its port.
pub const PORT_VARIABLE: &'static str = "DUGOUT_BACKEND_PORT";

/// The environment variable that tells the sidecar where to keep its state.
pub const DATA_DIR_VARIABLE: &'static str = "DUGOUT_DATA_DIR";

/// The name under which the sidecar binary is bundled beside the host
/// executable.
pub const SIDECAR_ID: &'static str = "backend-sidecar";

/// The directory, below the application's data directory, that holds the
/// sidecar's state.
pub const DATA_SUBDIRECTORY: &'static str = "data";

/// What the platform offers, settled once at startup.
#[derive(Clone, Copy, Debug, PartialEq, Eq, Structural)]
pub struct PlatformCapabilities {
    /// A sidecar can be bundled and spawned.
    pub has_sidecar: bool,
    /// The application can update and relaunch itself.
    pub has_updater: bool,
}

impl PlatformCapabilities {
    /// A desktop platform: sidecar and updater are both available.
    pub fn desktop() -> (caps: PlatformCapabilities)
        ensures
            caps.has_sidecar,
            caps.has_updater,
    {
        PlatformCapabilities { has_sidecar: true, has_updater: true }
    }

    /// A mobile platform: neither a sidecar nor an updater.
    pub fn mobile() -> (caps: PlatformCapabilities)
        ensures
            !caps.has_sidecar,
            !caps.has_updater,
    {
        PlatformCapabilities { has_sidecar: false, has_updater: false }
    }
}

/// Everything that shapes the startup sequence of one run.
#[derive(Clone, Copy, Debug, PartialEq, Eq, Structural)]
pub struct BootstrapConfig {
    /// What the platform offers.
    pub capabilities: PlatformCapabilities,
    /// Whether diagnostic logging is wired in (development builds).
    pub diagnostics: bool,
}

impl BootstrapConfig {
    pub fn new(capabilities: PlatformCapabilities, diagnostics: bool) -> (config: BootstrapConfig)
        ensures
            config.capabilities == capabilities,
            config.diagnostics == diagnostics,
    {
        BootstrapConfig { capabilities, diagnostics }
    }
}

/// The mathematical content of a [`SidecarConfig`].
pub ghost struct SidecarConfigView {
    pub port: u16,
    pub data_dir: Option<Seq<char>>,
    pub executable_id: Seq<char>,
}

/// The view of an optional string.
pub open spec fn text_of(text: Option<String>) -> Option<Seq<char>> {
    match text {
        Some(t) => Some(t@),
        None => None,
    }
}

/// The configuration of the sidecar for one run. It cannot be changed once
/// built.
#[derive(Debug, PartialEq, Eq)]
pub struct SidecarConfig {
    port: u16,
    data_dir: Option<String>,
    executable_id: String,
}

impl View for SidecarConfig {
    type V = SidecarConfigView;

    closed spec fn view(&self) -> SidecarConfigView {
        SidecarConfigView {
            port: self.port,
            data_dir: text_of(self.data_dir),
            executable_id: self.executable_id@,
        }
    }
}

impl Clone for SidecarConfig {
    fn clone(&self) -> (copy: SidecarConfig)
        ensures
            copy@ == self@,
    {
        SidecarConfig {
            port: self.port,
            data_dir: match &self.data_dir {
                Some(dir) => Some(dir.clone()),
                None => None,
            },
            executable_id: self.executable_id.clone(),
        }
    }
}

/// The configuration that every run of this application uses: the fixed
/// port and sidecar name, and the data directory that was resolved, if any.
pub open spec fn standard_config(data_dir: Option<Seq<char>>) -> SidecarConfigView {
    SidecarConfigView { port: BACKEND_PORT, data_dir, executable_id: SIDECAR_ID@ }
}

impl SidecarConfig {
    pub fn new(port: u16, data_dir: Option<String>, executable_id: String) -> (config:
        SidecarConfig)
        ensures
            config@ == (SidecarConfigView {
                port,
                data_dir: text_of(data_dir),
                executable_id: executable_id@,
            }),
    {
        SidecarConfig { port, data_dir, executable_id }
    }

    /// The configuration of this application's sidecar.
    pub fn standard(data_dir: Option<String>) -> (config: SidecarConfig)
        ensures
            config@ == standard_config(text_of(data_dir)),
    {
        SidecarConfig { port: BACKEND_PORT, data_dir, executable_id: String::from_str(SIDECAR_ID) }
    }

    pub fn port(&self) -> (port: u16)
        ensures
            port == self@.port,
    {
        self.port
    }

    pub fn data_dir(&self) -> (data_dir: Option<&String>)
        ensures
            match data_dir {
                Some(d) => self@.data_dir == Some(d@),
                None => self@.data_dir is None,
            },
    {
        self.data_dir.as_ref()
    }

    pub fn executable_id(&self) -> (id: &String)
        ensures
            id@ == self@.executable_id,
    {
        &self.executable_id
    }
}

} // verus!
