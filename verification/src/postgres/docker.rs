//! The database container of the test bench: its configuration, and what
//! the adapter asks of the container engine to have the container run.
//! Talking to the engine is left to the caller.

use vstd::prelude::*;
use vstd::string::*;

use super::{DriverError, DriverErrorView, PostgresqlStorageConfig};
use crate::model::document::texts;
use crate::ports::secondary::remote::{Error as RemoteError, ErrorView as RemoteErrorView};
use crate::text::{decimal, decimal_text};

verus! {

/// Why the container is not there to be used. `source` is, where it is a
/// text, the engine's account of the failure.
#[derive(Debug, PartialEq, Eq)]
#[allow(inconsistent_fields)]
pub enum Error {
    DockerConnectionFailed { source: String },
    PostgresqlPoolConnectionFailed { source: RemoteError },
    PostgresqlConnectionFailed { source: DriverError },
    Version { source: String },
    UrlParse { source: String },
    PostgresqlClient { source: DriverError },
    DockerEngine { source: String },
    DockerContainerUnavailable { name: String },
}

/// What an `Error` holds.
#[allow(inconsistent_fields)]
pub enum ErrorView {
    DockerConnectionFailed { source: Seq<char> },
    PostgresqlPoolConnectionFailed { source: RemoteErrorView },
    PostgresqlConnectionFailed { source: DriverErrorView },
    Version { source: Seq<char> },
    UrlParse { source: Seq<char> },
    PostgresqlClient { source: DriverErrorView },
    DockerEngine { source: Seq<char> },
    DockerContainerUnavailable { name: Seq<char> },
}

impl View for Error {
    type V = ErrorView;

    open spec fn view(&self) -> ErrorView {
        match self {
            Error::DockerConnectionFailed { source } => ErrorView::DockerConnectionFailed {
                source: source@,
            },
            Error::PostgresqlPoolConnectionFailed {
                source,
            } => ErrorView::PostgresqlPoolConnectionFailed { source: source@ },
            Error::PostgresqlConnectionFailed { source } => ErrorView::PostgresqlConnectionFailed {
                source: source@,
            },
            Error::Version { source } => ErrorView::Version { source: source@ },
            Error::UrlParse { source } => ErrorView::UrlParse { source: source@ },
            Error::PostgresqlClient { source } => ErrorView::PostgresqlClient { source: source@ },
            Error::DockerEngine { source } => ErrorView::DockerEngine { source: source@ },
            Error::DockerContainerUnavailable { name } => ErrorView::DockerContainerUnavailable {
                name: name@,
            },
        }
    }
}

impl ErrorView {
    /// The text that describes the error.
    pub open spec fn message(self) -> Seq<char> {
        match self {
            ErrorView::DockerConnectionFailed { source } => "Connection to docker socket: "@
                + source,
            ErrorView::PostgresqlPoolConnectionFailed { source } => "Connection to postgresql: "@
                + source.message(),
            ErrorView::PostgresqlConnectionFailed { source } => "Connection to postgresql: "@
                + source.message,
            ErrorView::Version { source } => "docker version: "@ + source,
            ErrorView::UrlParse { source } => "url parsing error: "@ + source,
            ErrorView::PostgresqlClient { source } => "postgresql client error: "@
                + source.message,
            ErrorView::DockerEngine { source } => "docker error: "@ + source,
            ErrorView::DockerContainerUnavailable { name } => "docker container "@ + name
                + " is not available"@,
        }
    }
}

impl Error {
    /// The text that describes the error.
    pub fn message(&self) -> (text: String)
        ensures
            text@ == self@.message(),
    {
        match self {
            Error::DockerConnectionFailed { source } => String::from_str(
                "Connection to docker socket: ",
            ).concat(source.as_str()),
            Error::PostgresqlPoolConnectionFailed { source } => String::from_str(
                "Connection to postgresql: ",
            ).concat(source.message().as_str()),
            Error::PostgresqlConnectionFailed { source } => String::from_str(
                "Connection to postgresql: ",
            ).concat(source.message.as_str()),
            Error::Version { source } => String::from_str("docker version: ").concat(
                source.as_str(),
            ),
            Error::UrlParse { source } => String::from_str("url parsing error: ").concat(
                source.as_str(),
            ),
            Error::PostgresqlClient { source } => String::from_str(
                "postgresql client error: ",
            ).concat(source.message.as_str()),
            Error::DockerEngine { source } => String::from_str("docker error: ").concat(
                source.as_str(),
            ),
            Error::DockerContainerUnavailable { name } => String::from_str(
                "docker container ",
            ).concat(name.as_str()).concat(" is not available"),
        }
    }
}

/// The version of the engine's API that the adapter speaks.
#[derive(Debug, Clone, Copy, PartialEq, Eq, Structural)]
pub struct DockerVersion {
    pub major: usize,
    pub minor: usize,
}

/// The account under which images are pulled.
#[derive(Debug, Clone, PartialEq, Eq)]
pub struct RegistryCredentials {
    pub username: String,
    pub password: String,
}

/// The registry from which images are pulled.
#[derive(Debug, Clone, PartialEq, Eq)]
pub struct RegistryConfig {
    pub credentials: RegistryCredentials,
}

/// The container to run: its image, its name, its memory in mebibytes and
/// its environment.
#[derive(Debug, Clone, PartialEq, Eq)]
pub struct ContainerConfig {
    pub image: String,
    pub name: String,
    pub memory: i64,
    pub vars: Vec<String>,
}

/// How to reach the engine and what to run on it. The three waits are in
/// milliseconds: after the container is created, after it is started, and
/// after it is cleaned.
#[derive(Debug, Clone, PartialEq, Eq)]
pub struct DockerConfig {
    pub registry: RegistryConfig,
    pub container: ContainerConfig,
    pub timeout: u64,
    pub version: DockerVersion,
    pub container_wait: u64,
    pub container_available: u64,
    pub container_cleanup: u64,
}

/// The port on which PostgreSQL listens inside its container.
pub const POSTGRESQL_PORT: u32 = 5432;

/// The port that a URL names: `None` for a text that is no URL,
/// `Some(None)` for a URL that names no port, or none but the one that its
/// scheme implies.
pub uninterp spec fn url_port(url: Seq<char>) -> Option<Option<u16>>;

/// Calls `url::Url::parse` on the text and `url::Url::port` on the URL
/// that comes back: `None` where the text is refused, else what the URL
/// gives for its port. The contract claims that the result depends on the
/// text alone. Which texts are URLs, and which port each names, it does
/// not say.
#[verifier::external_body]
fn parse_url_port(url: &str) -> (port: Option<Option<u16>>)
    ensures
        port == url_port(url@),
{
    match url::Url::parse(url) {
        Ok(parsed) => Some(parsed.port()),
        Err(_) => None,
    }
}

/// The test bench's hold on the container engine: the ports to publish,
/// each as the host's port and the container's, and the configuration.
#[derive(Debug, PartialEq, Eq)]
pub struct DockerWrapper {
    pub ports: Vec<(u32, u32)>,
    pub docker_config: DockerConfig,
}

impl DockerWrapper {
    /// The wrapper that publishes PostgreSQL on the host under the port of
    /// the database's URL.
    pub fn new(postgresql_config: &PostgresqlStorageConfig, docker_config: DockerConfig) -> (wrapper:
        DockerWrapper)
        requires
            url_port(postgresql_config.url@) matches Some(Some(_)),
        ensures
            wrapper.ports@ == seq![
                (url_port(postgresql_config.url@)->Some_0->Some_0 as u32, POSTGRESQL_PORT),
            ],
            wrapper.docker_config == docker_config,
    {
        let port: u16 = parse_url_port(postgresql_config.url.as_str()).unwrap().unwrap();
        let mut ports: Vec<(u32, u32)> = Vec::new();
        ports.push((port as u32, POSTGRESQL_PORT));
        DockerWrapper { ports, docker_config }
    }

    /// The wrapper of `new`, where the database's URL is one and names a
    /// port; `None` elsewhere.
    pub fn try_new(postgresql_config: &PostgresqlStorageConfig, docker_config: DockerConfig) -> (wrapper:
        Option<DockerWrapper>)
        ensures
            match url_port(postgresql_config.url@) {
                Some(Some(port)) => wrapper matches Some(made) && made.ports@ == seq![
                    (port as u32, POSTGRESQL_PORT),
                ] && made.docker_config == docker_config,
                _ => wrapper is None,
            },
    {
        match parse_url_port(postgresql_config.url.as_str()) {
            Some(Some(_)) => Some(DockerWrapper::new(postgresql_config, docker_config)),
            _ => None,
        }
    }
}

/// Where the host takes a published port.
#[derive(Debug, PartialEq, Eq)]
pub struct PortBinding {
    pub host_ip: String,
    pub host_port: String,
}

/// What a `PortBinding` holds.
pub struct PortBindingView {
    pub host_ip: Seq<char>,
    pub host_port: Seq<char>,
}

impl View for PortBinding {
    type V = PortBindingView;

    open spec fn view(&self) -> PortBindingView {
        PortBindingView { host_ip: self.host_ip@, host_port: self.host_port@ }
    }
}

/// The container as the engine is asked to create it.
#[derive(Debug, PartialEq, Eq)]
pub struct ContainerPlan {
    pub image: String,
    /// The ports that the container exposes, each with its protocol, as
    /// `5432/tcp`.
    pub exposed_ports: Vec<String>,
    /// For each published port, in the order of the wrapper's ports: the
    /// container's port with its protocol, and where the host takes it.
    pub port_bindings: Vec<(String, PortBinding)>,
    /// The memory of the container, in bytes.
    pub memory: i64,
    /// The environment of the container; none where no variable is set.
    pub env: Option<Vec<String>>,
}

/// What a `ContainerPlan` holds.
pub struct ContainerPlanView {
    pub image: Seq<char>,
    pub exposed_ports: Seq<Seq<char>>,
    pub port_bindings: Seq<(Seq<char>, PortBindingView)>,
    pub memory: int,
    pub env: Option<Seq<Seq<char>>>,
}

impl View for ContainerPlan {
    type V = ContainerPlanView;

    open spec fn view(&self) -> ContainerPlanView {
        ContainerPlanView {
            image: self.image@,
            exposed_ports: texts(self.exposed_ports@),
            port_bindings: self.port_bindings@.map_values(
                |binding: (String, PortBinding)| (binding.0@, binding.1@),
            ),
            memory: self.memory as int,
            env: match self.env {
                Some(vars) => Some(texts(vars@)),
                None => None,
            },
        }
    }
}

/// The number of bytes in a mebibyte.
pub const MEBIBYTE: i64 = 1048576;

/// A port of a container with the protocol that PostgreSQL speaks on it.
pub open spec fn tcp_port(port: u32) -> Seq<char> {
    decimal_text(port as nat) + "/tcp"@
}

/// The binding that publishes a port on every address of the host.
pub open spec fn published(host_port: u32) -> PortBindingView {
    PortBindingView { host_ip: "0.0.0.0"@, host_port: decimal_text(host_port as nat) }
}

impl ContainerConfig {
    /// The memory of the container in bytes fits the engine's field.
    pub open spec fn memory_fits(&self) -> bool {
        i64::MIN <= self.memory * MEBIBYTE <= i64::MAX
    }

    /// Whether the memory of the container in bytes fits the engine's
    /// field.
    pub fn has_fitting_memory(&self) -> (fits: bool)
        ensures
            fits == self.memory_fits(),
    {
        i64::MIN / MEBIBYTE <= self.memory && self.memory <= i64::MAX / MEBIBYTE
    }
}

impl DockerWrapper {
    /// The container that the wrapper asks for: the image of the
    /// configuration; each container port exposed, and published on the
    /// host's port of the same pair; the memory in bytes; the environment,
    /// where there is one.
    pub open spec fn plan(&self) -> ContainerPlanView {
        ContainerPlanView {
            image: self.docker_config.container.image@,
            exposed_ports: self.ports@.map_values(|pair: (u32, u32)| tcp_port(pair.1)),
            port_bindings: self.ports@.map_values(
                |pair: (u32, u32)| (tcp_port(pair.1), published(pair.0)),
            ),
            memory: self.docker_config.container.memory * MEBIBYTE,
            env: if self.docker_config.container.vars@.len() == 0 {
                None
            } else {
                Some(texts(self.docker_config.container.vars@))
            },
        }
    }

    /// The container that the wrapper asks the engine to create.
    pub fn container_plan(&self) -> (plan: ContainerPlan)
        requires
            self.docker_config.container.memory_fits(),
        ensures
            plan@ == self.plan(),
    {
        let mut exposed_ports: Vec<String> = Vec::new();
        let mut port_bindings: Vec<(String, PortBinding)> = Vec::new();
        let mut i: usize = 0;
        while i < self.ports.len()
            invariant
                i <= self.ports@.len(),
                exposed_ports@.len() == i,
                port_bindings@.len() == i,
                forall|k: int|
                    0 <= k < i ==> (#[trigger] exposed_ports@[k])@ == tcp_port(self.ports@[k].1),
                forall|k: int|
                    0 <= k < i ==> {
                        &&& (#[trigger] port_bindings@[k]).0@ == tcp_port(self.ports@[k].1)
                        &&& port_bindings@[k].1@ == published(self.ports@[k].0)
                    },
            decreases self.ports@.len() - i,
        {
            let (host_port, container_port) = self.ports[i];
            exposed_ports.push(decimal(container_port).concat("/tcp"));
            port_bindings.push(
                (
                    decimal(container_port).concat("/tcp"),
                    PortBinding {
                        host_ip: String::from_str("0.0.0.0"),
                        host_port: decimal(host_port),
                    },
                ),
            );
            i += 1;
        }
        let vars = self.docker_config.container.vars.clone();
        assert(vars@ =~= self.docker_config.container.vars@);
        let env = if vars.len() == 0 {
            None
        } else {
            Some(vars)
        };
        let plan = ContainerPlan {
            image: self.docker_config.container.image.clone(),
            exposed_ports,
            port_bindings,
            memory: self.docker_config.container.memory * MEBIBYTE,
            env,
        };
        assert(plan@.exposed_ports =~= self.plan().exposed_ports);
        assert(plan@.port_bindings =~= self.plan().port_bindings);
        plan
    }
}

/// The socket on which the container engine listens.
pub const DOCKER_SOCKET: &'static str = "unix:///var/run/docker.sock";

/// What a procedure of the wrapper asks of its caller: one call on the
/// engine, with what the call is given, or a wait.
#[derive(Debug, PartialEq, Eq)]
pub enum Action {
    /// Connect to the engine on `DOCKER_SOCKET`, allowing each request the
    /// given time and speaking the given version of the API.
    Connect { timeout: u64, version: DockerVersion },
    /// Settle with the engine on a version of its API.
    NegotiateVersion,
    /// Ask the engine for its version.
    Version,
    /// List the containers of the given name: all of them, or those that
    /// run.
    ListContainers { all: bool, name: String },
    /// Pull the image, under the account of the registry.
    CreateImage { image: String, username: String, password: String },
    /// Create the container of `container_plan`, under the given name.
    CreateContainer { name: String },
    /// Start the container of the given name.
    StartContainer { name: String },
    /// Wait for the given number of milliseconds.
    Sleep { milliseconds: u64 },
}

/// What came of an action: that it was done, and where it listed
/// containers how many it found; or the engine's account of its failure.
#[derive(Debug, PartialEq, Eq)]
pub enum Event {
    Succeeded { found: usize },
    Failed { cause: String },
}

/// One step of a procedure: the next action, with the stage at which the
/// procedure then stands; or its end.
#[derive(Debug, PartialEq, Eq)]
pub enum Step<S, A, R> {
    Next { stage: S, action: A },
    End { result: R },
}

/// Where the check for a running container stands: at the action whose
/// event it awaits.
#[derive(Debug, Clone, Copy, PartialEq, Eq, Structural)]
pub enum Availability {
    Connecting,
    Negotiating,
    ReadingVersion,
    Listing,
}

/// Where the creation of the container stands: at the action whose event
/// it awaits.
#[derive(Debug, Clone, Copy, PartialEq, Eq, Structural)]
pub enum Creation {
    Connecting,
    Negotiating,
    ReadingVersion,
    Listing,
    Pulling,
    Creating,
    Settling,
    Starting,
    Waking,
}

impl Availability {
    /// The number of events that the check may yet await.
    pub open spec fn remaining(self) -> nat {
        match self {
            Availability::Connecting => 4,
            Availability::Negotiating => 3,
            Availability::ReadingVersion => 2,
            Availability::Listing => 1,
        }
    }
}

impl Creation {
    /// The number of events that the creation may yet await.
    pub open spec fn remaining(self) -> nat {
        match self {
            Creation::Connecting => 9,
            Creation::Negotiating => 8,
            Creation::ReadingVersion => 7,
            Creation::Listing => 6,
            Creation::Pulling => 5,
            Creation::Creating => 4,
            Creation::Settling => 3,
            Creation::Starting => 2,
            Creation::Waking => 1,
        }
    }
}

impl DockerWrapper {
    /// The connection that the configuration asks for.
    pub open spec fn connection(&self) -> Action {
        Action::Connect {
            timeout: self.docker_config.timeout,
            version: self.docker_config.version,
        }
    }

    /// The listing of the containers of the configured name.
    pub open spec fn listing(&self, all: bool) -> Action {
        Action::ListContainers { all, name: self.docker_config.container.name }
    }

    /// The pulling of the configured image under the configured account.
    pub open spec fn pulling(&self) -> Action {
        Action::CreateImage {
            image: self.docker_config.container.image,
            username: self.docker_config.registry.credentials.username,
            password: self.docker_config.registry.credentials.password,
        }
    }

    /// The creation of the container under the configured name.
    pub open spec fn creating(&self) -> Action {
        Action::CreateContainer { name: self.docker_config.container.name }
    }

    /// The start of the container of the configured name.
    pub open spec fn starting(&self) -> Action {
        Action::StartContainer { name: self.docker_config.container.name }
    }

    fn connect(&self) -> (action: Action)
        ensures
            action == self.connection(),
    {
        Action::Connect {
            timeout: self.docker_config.timeout,
            version: self.docker_config.version,
        }
    }

    fn list_containers(&self, all: bool) -> (action: Action)
        ensures
            action == self.listing(all),
    {
        Action::ListContainers { all, name: self.docker_config.container.name.clone() }
    }

    fn create_image(&self) -> (action: Action)
        ensures
            action == self.pulling(),
    {
        Action::CreateImage {
            image: self.docker_config.container.image.clone(),
            username: self.docker_config.registry.credentials.username.clone(),
            password: self.docker_config.registry.credentials.password.clone(),
        }
    }

    fn start_container(&self) -> (action: Action)
        ensures
            action == self.starting(),
    {
        Action::StartContainer { name: self.docker_config.container.name.clone() }
    }

    /// The step that follows an event of the check for a running
    /// container. The check connects, settles on a version, reads the
    /// engine's version and lists the running containers of the
    /// configured name: the container is available where there is one.
    /// Every failure ends the check: one to connect as a failed
    /// connection, one on the version as such, one to list as the
    /// engine's.
    pub open spec fn availability_step(&self, stage: Availability, event: Event) -> Step<
        Availability,
        Action,
        Result<bool, Error>,
    > {
        match event {
            Event::Failed { cause } => Step::End {
                result: Err(
                    match stage {
                        Availability::Connecting => Error::DockerConnectionFailed { source: cause },
                        Availability::Negotiating => Error::Version { source: cause },
                        Availability::ReadingVersion => Error::Version { source: cause },
                        Availability::Listing => Error::DockerEngine { source: cause },
                    },
                ),
            },
            Event::Succeeded { found } => match stage {
                Availability::Connecting => Step::Next {
                    stage: Availability::Negotiating,
                    action: Action::NegotiateVersion,
                },
                Availability::Negotiating => Step::Next {
                    stage: Availability::ReadingVersion,
                    action: Action::Version,
                },
                Availability::ReadingVersion => Step::Next {
                    stage: Availability::Listing,
                    action: self.listing(false),
                },
                Availability::Listing => Step::End { result: Ok(found > 0) },
            },
        }
    }

    /// The step that follows an event of the creation of the container.
    /// The creation connects, settles on a version, reads the engine's
    /// version and lists all containers of the configured name. Where
    /// there is none, it pulls the image, creates the container and waits
    /// for `container_wait`. Then it starts the container and waits for
    /// `container_available`. A failure to read the version is passed
    /// over. Every other failure ends the creation: one to connect as a
    /// failed connection, one to settle on a version as the version's,
    /// any other as the engine's.
    pub open spec fn creation_step(&self, stage: Creation, event: Event) -> Step<
        Creation,
        Action,
        Result<(), Error>,
    > {
        match (stage, event) {
            (Creation::Connecting, Event::Failed { cause }) => Step::End {
                result: Err(Error::DockerConnectionFailed { source: cause }),
            },
            (Creation::Connecting, _) => Step::Next {
                stage: Creation::Negotiating,
                action: Action::NegotiateVersion,
            },
            (Creation::Negotiating, Event::Failed { cause }) => Step::End {
                result: Err(Error::Version { source: cause }),
            },
            (Creation::Negotiating, _) => Step::Next {
                stage: Creation::ReadingVersion,
                action: Action::Version,
            },
            (Creation::ReadingVersion, _) => Step::Next {
                stage: Creation::Listing,
                action: self.listing(true),
            },
            (_, Event::Failed { cause }) => Step::End {
                result: Err(Error::DockerEngine { source: cause }),
            },
            (Creation::Listing, Event::Succeeded { found }) => if found == 0 {
                Step::Next { stage: Creation::Pulling, action: self.pulling() }
            } else {
                Step::Next { stage: Creation::Starting, action: self.starting() }
            },
            (Creation::Pulling, _) => Step::Next {
                stage: Creation::Creating,
                action: self.creating(),
            },
            (Creation::Creating, _) => Step::Next {
                stage: Creation::Settling,
                action: Action::Sleep { milliseconds: self.docker_config.container_wait },
            },
            (Creation::Settling, _) => Step::Next {
                stage: Creation::Starting,
                action: self.starting(),
            },
            (Creation::Starting, _) => Step::Next {
                stage: Creation::Waking,
                action: Action::Sleep { milliseconds: self.docker_config.container_available },
            },
            (Creation::Waking, _) => Step::End { result: Ok(()) },
        }
    }

    /// Begins the check for a running container.
    pub fn is_container_available(&self) -> (step: Step<Availability, Action, Result<bool, Error>>)
        ensures
            step == (Step::<Availability, Action, Result<bool, Error>>::Next {
                stage: Availability::Connecting,
                action: self.connection(),
            }),
    {
        Step::Next { stage: Availability::Connecting, action: self.connect() }
    }

    /// Goes on with the check for a running container, from the event of
    /// the action that was asked for last.
    pub fn is_container_available_next(&self, stage: Availability, event: Event) -> (step: Step<
        Availability,
        Action,
        Result<bool, Error>,
    >)
        ensures
            step == self.availability_step(stage, event),
    {
        match event {
            Event::Failed { cause } => Step::End {
                result: Err(
                    match stage {
                        Availability::Connecting => Error::DockerConnectionFailed { source: cause },
                        Availability::Negotiating => Error::Version { source: cause },
                        Availability::ReadingVersion => Error::Version { source: cause },
                        Availability::Listing => Error::DockerEngine { source: cause },
                    },
                ),
            },
            Event::Succeeded { found } => match stage {
                Availability::Connecting => Step::Next {
                    stage: Availability::Negotiating,
                    action: Action::NegotiateVersion,
                },
                Availability::Negotiating => Step::Next {
                    stage: Availability::ReadingVersion,
                    action: Action::Version,
                },
                Availability::ReadingVersion => Step::Next {
                    stage: Availability::Listing,
                    action: self.list_containers(false),
                },
                Availability::Listing => Step::End { result: Ok(found > 0) },
            },
        }
    }

    /// Begins the creation of the container.
    pub fn create_container(&self) -> (step: Step<Creation, Action, Result<(), Error>>)
        ensures
            step == (Step::<Creation, Action, Result<(), Error>>::Next {
                stage: Creation::Connecting,
                action: self.connection(),
            }),
    {
        Step::Next { stage: Creation::Connecting, action: self.connect() }
    }

    /// Goes on with the creation of the container, from the event of the
    /// action that was asked for last.
    pub fn create_container_next(&self, stage: Creation, event: Event) -> (step: Step<
        Creation,
        Action,
        Result<(), Error>,
    >)
        ensures
            step == self.creation_step(stage, event),
    {
        match stage {
            Creation::Connecting => match event {
                Event::Failed { cause } => Step::End {
                    result: Err(Error::DockerConnectionFailed { source: cause }),
                },
                Event::Succeeded { .. } => Step::Next {
                    stage: Creation::Negotiating,
                    action: Action::NegotiateVersion,
                },
            },
            Creation::Negotiating => match event {
                Event::Failed { cause } => Step::End {
                    result: Err(Error::Version { source: cause }),
                },
                Event::Succeeded { .. } => Step::Next {
                    stage: Creation::ReadingVersion,
                    action: Action::Version,
                },
            },
            Creation::ReadingVersion => Step::Next {
                stage: Creation::Listing,
                action: self.list_containers(true),
            },
            _ => match event {
                Event::Failed { cause } => Step::End {
                    result: Err(Error::DockerEngine { source: cause }),
                },
                Event::Succeeded { found } => match stage {
                    Creation::Listing => if found == 0 {
                        Step::Next { stage: Creation::Pulling, action: self.create_image() }
                    } else {
                        Step::Next { stage: Creation::Starting, action: self.start_container() }
                    },
                    Creation::Pulling => Step::Next {
                        stage: Creation::Creating,
                        action: Action::CreateContainer {
                            name: self.docker_config.container.name.clone(),
                        },
                    },
                    Creation::Creating => Step::Next {
                        stage: Creation::Settling,
                        action: Action::Sleep {
                            milliseconds: self.docker_config.container_wait,
                        },
                    },
                    Creation::Settling => Step::Next {
                        stage: Creation::Starting,
                        action: self.start_container(),
                    },
                    Creation::Starting => Step::Next {
                        stage: Creation::Waking,
                        action: Action::Sleep {
                            milliseconds: self.docker_config.container_available,
                        },
                    },
                    _ => Step::End { result: Ok(()) },
                },
            },
        }
    }
}

/// What the setting up of the container asks of its caller: to run one
/// of the wrapper's procedures to its end, or to reach the database.
#[derive(Debug, Clone, Copy, PartialEq, Eq, Structural)]
pub enum SetupAction {
    /// Run `is_container_available`.
    IsContainerAvailable,
    /// Run `create_container`.
    CreateContainer,
    /// Leave the container for the given time to get clean.
    Cleanup { milliseconds: u64 },
    /// Make the pool of connections to the database of the test bench.
    ConnectPool,
    /// Take one connection from the pool.
    Acquire,
}

/// What came of an action of the setting up: that it was done, and where
/// it checked for the container whether the container runs; or its
/// failure: a procedure's own, the pool's, or the connection's.
#[derive(Debug, PartialEq, Eq)]
#[allow(inconsistent_fields)]
pub enum SetupEvent {
    Succeeded { running: bool },
    Failed { error: Error },
    PoolFailed { source: RemoteError },
    ClientFailed { source: DriverError },
}

/// Where the setting up of the container stands: at the action whose
/// event it awaits. The first check remembers whether a container that
/// runs is to be cleaned.
#[derive(Debug, Clone, Copy, PartialEq, Eq, Structural)]
pub enum Setup {
    Checking { cleanup: bool },
    Creating,
    Cleaning,
    Rechecking,
    ConnectingPool,
    Acquiring,
}

impl Setup {
    /// The number of events that the setting up may yet await.
    pub open spec fn remaining(self) -> nat {
        match self {
            Setup::Checking { .. } => 5,
            Setup::Creating => 4,
            Setup::Cleaning => 4,
            Setup::Rechecking => 3,
            Setup::ConnectingPool => 2,
            Setup::Acquiring => 1,
        }
    }
}

/// The step that follows an event of the setting up of the container. It
/// checks whether the container runs. One that does not is created; one
/// that does is cleaned, where the setting up was begun so. It checks again,
/// and gives up on a container that still does not run. Then it makes a
/// pool of connections to the database and takes one connection. Every
/// failure ends it: a procedure's as it is, the pool's and the
/// connection's each under its own kind.
pub open spec fn setup_step(wrapper: &DockerWrapper, stage: Setup, event: SetupEvent) -> Step<Setup, SetupAction, Result<(), Error>> {
    match event {
        SetupEvent::Failed { error } => Step::End { result: Err(error) },
        SetupEvent::PoolFailed { source } => Step::End {
            result: Err(Error::PostgresqlPoolConnectionFailed { source }),
        },
        SetupEvent::ClientFailed { source } => Step::End {
            result: Err(Error::PostgresqlConnectionFailed { source }),
        },
        SetupEvent::Succeeded { running } => match stage {
            Setup::Checking { cleanup } => if !running {
                Step::Next { stage: Setup::Creating, action: SetupAction::CreateContainer }
            } else if cleanup {
                Step::Next {
                    stage: Setup::Cleaning,
                    action: SetupAction::Cleanup {
                        milliseconds: wrapper.docker_config.container_cleanup,
                    },
                }
            } else {
                Step::Next { stage: Setup::Rechecking, action: SetupAction::IsContainerAvailable }
            },
            Setup::Creating => Step::Next {
                stage: Setup::Rechecking,
                action: SetupAction::IsContainerAvailable,
            },
            Setup::Cleaning => Step::Next {
                stage: Setup::Rechecking,
                action: SetupAction::IsContainerAvailable,
            },
            Setup::Rechecking => if !running {
                Step::End {
                    result: Err(
                        Error::DockerContainerUnavailable {
                            name: wrapper.docker_config.container.name,
                        },
                    ),
                }
            } else {
                Step::Next { stage: Setup::ConnectingPool, action: SetupAction::ConnectPool }
            },
            Setup::ConnectingPool => Step::Next {
                stage: Setup::Acquiring,
                action: SetupAction::Acquire,
            },
            Setup::Acquiring => Step::End { result: Ok(()) },
        },
    }
}

/// Begins the setting up of the container, with the cleaning of a
/// container that already runs.
pub fn initialize() -> (step: Step<Setup, SetupAction, Result<(), Error>>)
    ensures
        step == (Step::<Setup, SetupAction, Result<(), Error>>::Next {
            stage: Setup::Checking { cleanup: true },
            action: SetupAction::IsContainerAvailable,
        }),
{
    initialize_with_param(true)
}

/// Begins the setting up of the container: the first thing is to check
/// whether the container runs. `cleanup` says whether one that does is
/// then to be cleaned.
pub fn initialize_with_param(cleanup: bool) -> (step: Step<Setup, SetupAction, Result<(), Error>>)
    ensures
        step == (Step::<Setup, SetupAction, Result<(), Error>>::Next {
            stage: Setup::Checking { cleanup },
            action: SetupAction::IsContainerAvailable,
        }),
{
    Step::Next { stage: Setup::Checking { cleanup }, action: SetupAction::IsContainerAvailable }
}

/// Goes on with the setting up of the container, from the event of the
/// action that was asked for last.
pub fn initialize_next(wrapper: &DockerWrapper, stage: Setup, event: SetupEvent) -> (step: Step<
    Setup,
    SetupAction,
    Result<(), Error>,
>)
    ensures
        step == setup_step(wrapper, stage, event),
{
    match event {
        SetupEvent::Failed { error } => Step::End { result: Err(error) },
        SetupEvent::PoolFailed { source } => Step::End {
            result: Err(Error::PostgresqlPoolConnectionFailed { source }),
        },
        SetupEvent::ClientFailed { source } => Step::End {
            result: Err(Error::PostgresqlConnectionFailed { source }),
        },
        SetupEvent::Succeeded { running } => match stage {
            Setup::Checking { cleanup } => if !running {
                Step::Next { stage: Setup::Creating, action: SetupAction::CreateContainer }
            } else if cleanup {
                wrapper.cleanup()
            } else {
                Step::Next { stage: Setup::Rechecking, action: SetupAction::IsContainerAvailable }
            },
            Setup::Creating => Step::Next {
                stage: Setup::Rechecking,
                action: SetupAction::IsContainerAvailable,
            },
            Setup::Cleaning => Step::Next {
                stage: Setup::Rechecking,
                action: SetupAction::IsContainerAvailable,
            },
            Setup::Rechecking => if !running {
                Step::End {
                    result: Err(
                        Error::DockerContainerUnavailable {
                            name: wrapper.docker_config.container.name.clone(),
                        },
                    ),
                }
            } else {
                Step::Next { stage: Setup::ConnectingPool, action: SetupAction::ConnectPool }
            },
            Setup::ConnectingPool => Step::Next {
                stage: Setup::Acquiring,
                action: SetupAction::Acquire,
            },
            Setup::Acquiring => Step::End { result: Ok(()) },
        },
    }
}

impl DockerWrapper {
    /// The cleaning of a container that runs: a wait of
    /// `container_cleanup`.
    fn cleanup(&self) -> (step: Step<Setup, SetupAction, Result<(), Error>>)
        ensures
            step == (Step::<Setup, SetupAction, Result<(), Error>>::Next {
                stage: Setup::Cleaning,
                action: SetupAction::Cleanup {
                    milliseconds: self.docker_config.container_cleanup,
                },
            }),
    {
        Step::Next {
            stage: Setup::Cleaning,
            action: SetupAction::Cleanup { milliseconds: self.docker_config.container_cleanup },
        }
    }
}

/// The setting up of the container ends: each step that does not end it
/// leaves fewer events to await. It succeeds only once a connection to
/// the database was taken, and it reaches for the database only once the
/// container was seen to run. It cleans only a container that the first
/// check saw run, and only where it was begun with the cleaning.
pub proof fn lemma_setup_ends(wrapper: DockerWrapper, stage: Setup, event: SetupEvent)
    ensures
        setup_step(&wrapper, stage, event) matches Step::Next { stage: next, .. }
            ==> next.remaining() < stage.remaining(),
        setup_step(&wrapper, stage, event) matches Step::End { result: Ok(_) } ==> stage
            == Setup::Acquiring,
        setup_step(&wrapper, stage, event) matches Step::Next {
            action: SetupAction::ConnectPool,
            ..
        } ==> stage == Setup::Rechecking && event is Succeeded && event->running,
        setup_step(&wrapper, stage, event) matches Step::Next {
            action: SetupAction::Cleanup { .. },
            ..
        } ==> stage == (Setup::Checking { cleanup: true }) && event is Succeeded && event->running,
{
}

/// The check for a running container ends: each step that does not end
/// it leaves fewer events to await. It answers only once it has listed.
pub proof fn lemma_availability_ends(wrapper: DockerWrapper, stage: Availability, event: Event)
    ensures
        wrapper.availability_step(stage, event) matches Step::Next { stage: next, .. }
            ==> next.remaining() < stage.remaining(),
        wrapper.availability_step(stage, event) matches Step::End { result: Ok(_) } ==> stage
            == Availability::Listing,
{
}

/// The creation of the container ends: each step that does not end it
/// leaves fewer events to await. It succeeds only once the container was
/// started and the wait for it is over, and the container is started only
/// where it was found or was created.
pub proof fn lemma_creation_ends(wrapper: DockerWrapper, stage: Creation, event: Event)
    ensures
        wrapper.creation_step(stage, event) matches Step::Next { stage: next, .. }
            ==> next.remaining() < stage.remaining(),
        wrapper.creation_step(stage, event) matches Step::End { result: Ok(_) } ==> stage
            == Creation::Waking,
        wrapper.creation_step(stage, event) matches Step::Next {
            action: Action::StartContainer { .. },
            ..
        } ==> stage == Creation::Settling || (stage == Creation::Listing && event is Succeeded
            && event->found > 0),
{
}

} // verus!
