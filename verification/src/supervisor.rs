//! The sidecar itself: the reference to its binary, the command that starts
//! it, and what came of starting it.
//!
//! Finding the binary and creating the process are the shell's work. What is
//! decided here is the environment that the process gets, and how each
//! answer of the shell is classified. Nothing here ever waits for the
//! process, signals it or ends it: once started, it lives as long as the
//! host application.

use crate::config::{SidecarConfig, SidecarConfigView, DATA_DIR_VARIABLE, PORT_VARIABLE};
use crate::decimal::{decimal, decimal_string};
use vstd::prelude::*;

verus! {

/// The mathematical content of an [`EnvVar`].
pub ghost struct EnvVarView {
    pub name: Seq<char>,
    pub value: Seq<char>,
}

/// One variable of a process environment.
#[derive(Debug, PartialEq, Eq)]
pub struct EnvVar {
    pub name: String,
    pub value: String,
}

impl View for EnvVar {
    type V = EnvVarView;

    open spec fn view(&self) -> EnvVarView {
        EnvVarView { name: self.name@, value: self.value@ }
    }
}

impl Clone for EnvVar {
    fn clone(&self) -> (copy: EnvVar)
        ensures
            copy@ == self@,
    {
        EnvVar { name: self.name.clone(), value: self.value.clone() }
    }
}

/// The views of a list of variables, in order.
pub open spec fn env_view(env: Seq<EnvVar>) -> Seq<EnvVarView> {
    env.map_values(|var: EnvVar| var@)
}

/// A reference to the sidecar binary that was found in the bundle. It says
/// under which name the binary was found; the shell holds the platform's
/// own handle on it.
#[derive(Debug, PartialEq, Eq)]
pub struct ExecutableRef {
    executable_id: String,
}

impl View for ExecutableRef {
    type V = Seq<char>;

    closed spec fn view(&self) -> Seq<char> {
        self.executable_id@
    }
}

impl ExecutableRef {
    pub fn new(executable_id: String) -> (executable: ExecutableRef)
        ensures
            executable@ == executable_id@,
    {
        ExecutableRef { executable_id }
    }

    pub fn executable_id(&self) -> (id: &String)
        ensures
            id@ == self@,
    {
        &self.executable_id
    }
}

impl Clone for ExecutableRef {
    fn clone(&self) -> (copy: ExecutableRef)
        ensures
            copy@ == self@,
    {
        ExecutableRef { executable_id: self.executable_id.clone() }
    }
}

/// The mathematical content of a [`ConfiguredCommand`].
pub ghost struct ConfiguredCommandView {
    pub executable: Seq<char>,
    pub env: Seq<EnvVarView>,
}

/// The sidecar binary together with the environment it is to run in.
#[derive(Debug, PartialEq, Eq)]
pub struct ConfiguredCommand {
    executable: ExecutableRef,
    env: Vec<EnvVar>,
}

impl View for ConfiguredCommand {
    type V = ConfiguredCommandView;

    closed spec fn view(&self) -> ConfiguredCommandView {
        ConfiguredCommandView { executable: self.executable@, env: env_view(self.env@) }
    }
}

impl ConfiguredCommand {
    pub fn executable(&self) -> (executable: &ExecutableRef)
        ensures
            executable@ == self@.executable,
    {
        &self.executable
    }

    /// The variables to set, in the order in which they are to be set.
    pub fn env(&self) -> (env: &Vec<EnvVar>)
        ensures
            env_view(env@) == self@.env,
    {
        &self.env
    }
}

/// The variable that carries the port.
pub open spec fn port_variable(port: u16) -> EnvVarView {
    EnvVarView { name: PORT_VARIABLE@, value: decimal(port as nat) }
}

/// The variable that carries the data directory.
pub open spec fn data_dir_variable(data_dir: Seq<char>) -> EnvVarView {
    EnvVarView { name: DATA_DIR_VARIABLE@, value: data_dir }
}

/// The environment of the sidecar: always the port, and after it the data
/// directory where one is configured.
pub open spec fn configured_env(config: SidecarConfigView) -> Seq<EnvVarView> {
    match config.data_dir {
        Some(data_dir) => seq![port_variable(config.port), data_dir_variable(data_dir)],
        None => seq![port_variable(config.port)],
    }
}

/// The command that `configure` builds.
pub open spec fn configured_command(
    executable: Seq<char>,
    config: SidecarConfigView,
) -> ConfiguredCommandView {
    ConfiguredCommandView { executable, env: configured_env(config) }
}

/// Builds the command that starts the sidecar. No outside work is done.
pub fn configure(executable: ExecutableRef, config: &SidecarConfig) -> (command: ConfiguredCommand)
    ensures
        command@ == configured_command(executable@, config@),
{
    let mut env: Vec<EnvVar> = Vec::new();
    env.push(
        EnvVar { name: String::from_str(PORT_VARIABLE), value: decimal_string(config.port()) },
    );
    match config.data_dir() {
        Some(data_dir) => {
            env.push(EnvVar { name: String::from_str(DATA_DIR_VARIABLE), value: data_dir.clone() });
        },
        None => {},
    }
    assert(env_view(env@) =~= configured_env(config@));
    ConfiguredCommand { executable, env }
}

/// The running sidecar process, by its process identifier. Holding this
/// value holds nothing of the process: the process has been detached.
#[derive(Clone, Copy, Debug, PartialEq, Eq, Structural)]
pub struct SidecarProcessHandle {
    pub pid: u32,
}

/// Why the sidecar binary was not found.
#[derive(Debug, PartialEq, Eq)]
pub struct NotFoundError {
    pub reason: String,
}

impl Clone for NotFoundError {
    fn clone(&self) -> (copy: NotFoundError)
        ensures
            copy@ == self@,
    {
        NotFoundError { reason: self.reason.clone() }
    }
}

impl View for NotFoundError {
    type V = Seq<char>;

    open spec fn view(&self) -> Seq<char> {
        self.reason@
    }
}

/// Why the sidecar process could not be created, in the operating system's
/// words.
#[derive(Debug, PartialEq, Eq)]
pub struct SpawnError {
    pub reason: String,
}

impl Clone for SpawnError {
    fn clone(&self) -> (copy: SpawnError)
        ensures
            copy@ == self@,
    {
        SpawnError { reason: self.reason.clone() }
    }
}

impl View for SpawnError {
    type V = Seq<char>;

    open spec fn view(&self) -> Seq<char> {
        self.reason@
    }
}

/// Which of the three ways the attempt to start the sidecar ended.
#[derive(Clone, Copy, Debug, PartialEq, Eq, Structural)]
pub enum OutcomeKind {
    Started,
    NotFound,
    SpawnFailed,
}

/// The mathematical content of a [`SpawnOutcome`].
pub ghost enum SpawnOutcomeView {
    Started(SidecarProcessHandle),
    NotFound(Seq<char>),
    SpawnFailed(Seq<char>),
}

impl SpawnOutcomeView {
    pub open spec fn kind(self) -> OutcomeKind {
        match self {
            SpawnOutcomeView::Started(_) => OutcomeKind::Started,
            SpawnOutcomeView::NotFound(_) => OutcomeKind::NotFound,
            SpawnOutcomeView::SpawnFailed(_) => OutcomeKind::SpawnFailed,
        }
    }
}

/// What came of the one attempt to start the sidecar.
#[derive(Debug, PartialEq, Eq)]
pub enum SpawnOutcome {
    /// The sidecar runs.
    Started(SidecarProcessHandle),
    /// The binary is not in the bundle.
    NotFound(String),
    /// The operating system refused to create the process.
    SpawnFailed(String),
}

impl View for SpawnOutcome {
    type V = SpawnOutcomeView;

    open spec fn view(&self) -> SpawnOutcomeView {
        match self {
            SpawnOutcome::Started(handle) => SpawnOutcomeView::Started(*handle),
            SpawnOutcome::NotFound(reason) => SpawnOutcomeView::NotFound(reason@),
            SpawnOutcome::SpawnFailed(reason) => SpawnOutcomeView::SpawnFailed(reason@),
        }
    }
}

impl SpawnOutcome {
    pub fn kind(&self) -> (kind: OutcomeKind)
        ensures
            kind == self@.kind(),
    {
        match self {
            SpawnOutcome::Started(_) => OutcomeKind::Started,
            SpawnOutcome::NotFound(_) => OutcomeKind::NotFound,
            SpawnOutcome::SpawnFailed(_) => OutcomeKind::SpawnFailed,
        }
    }
}

impl Clone for SpawnOutcome {
    fn clone(&self) -> (copy: SpawnOutcome)
        ensures
            copy@ == self@,
    {
        match self {
            SpawnOutcome::Started(handle) => SpawnOutcome::Started(*handle),
            SpawnOutcome::NotFound(reason) => SpawnOutcome::NotFound(reason.clone()),
            SpawnOutcome::SpawnFailed(reason) => SpawnOutcome::SpawnFailed(reason.clone()),
        }
    }
}

/// The numeral of the fixed port.
pub proof fn lemma_backend_port_numeral()
    ensures
        decimal(crate::config::BACKEND_PORT as nat) == "8100"@,
{
    reveal_strlit("8100");
    reveal_with_fuel(decimal, 5);
    assert(decimal(8100) =~= "8100"@);
}

} // verus!
