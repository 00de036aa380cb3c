//! What travels between the orchestrator and the container engine, as plain values.

use vstd::prelude::*;

verus! {

/// The engine-reported status that a container query filters on.
#[derive(Clone, Copy, Debug, PartialEq, Eq)]
pub enum ContainerStatus {
    Running,
    Exited,
}

/// What is known of the container. It is derived from the engine's answers
/// and never stored.
#[derive(Clone, Copy, Debug, PartialEq, Eq)]
pub enum ContainerState {
    Absent,
    Running,
    Exited,
    Unknown,
}

/// One request to the engine. Volumes are named by their position in the
/// service's catalog; the request's details are built by the service.
#[derive(Clone, Copy, Debug, PartialEq, Eq)]
pub enum Action {
    Connect,
    ListContainers(ContainerStatus),
    PullImage,
    ListVolume(usize),
    CreateVolume(usize),
    CreateContainer,
    StartContainer,
    StopContainer,
}

impl Action {
    /// Whether the action changes anything on the engine.
    pub open spec fn is_mutating(self) -> bool {
        match self {
            Action::Connect => false,
            Action::ListContainers(_) => false,
            Action::ListVolume(_) => false,
            Action::PullImage => true,
            Action::CreateVolume(_) => true,
            Action::CreateContainer => true,
            Action::StartContainer => true,
            Action::StopContainer => true,
        }
    }

    /// Whether the action changes anything on the engine.
    pub fn mutates(self) -> (r: bool)
        ensures
            r == self.is_mutating(),
    {
        match self {
            Action::Connect => false,
            Action::ListContainers(_) => false,
            Action::ListVolume(_) => false,
            _ => true,
        }
    }
}

/// The engine's answer to a container query: how many containers matched the
/// filters, or that the query itself failed.
#[derive(Clone, Copy, Debug, PartialEq, Eq)]
pub enum ContainerListing {
    Containers(usize),
    Failed,
}

impl ContainerListing {
    /// Whether the query found a container. A failed query found none.
    pub open spec fn found(self) -> bool {
        self matches ContainerListing::Containers(n) && n > 0
    }
}

/// The engine's answer to a volume query: the names of the volumes it
/// returned, or that the query failed.
#[derive(Debug, PartialEq, Eq)]
pub enum VolumeListing {
    Volumes(Vec<String>),
    Failed,
}

/// The engine's answer to a request that returns nothing of interest: done,
/// or failed with the engine's own words.
#[derive(Debug, PartialEq, Eq)]
pub enum EngineReply {
    Done,
    Failed(String),
}

/// The kinds of failure. Every kind ends the command.
#[derive(Clone, Copy, Debug, PartialEq, Eq)]
pub enum ErrorKind {
    EngineUnreachable,
    ImagePullFailed,
    VolumeCreationFailed { volume_name: &'static str },
    ContainerCreationFailed,
    ContainerStartFailed,
    ContainerStopFailed,
}

/// Why a command failed: the kind of failure and what the engine said of it,
/// empty where the engine said nothing.
#[derive(Debug, PartialEq, Eq)]
pub struct ServiceError {
    pub kind: ErrorKind,
    pub detail: String,
}

/// An error with its detail as a sequence of characters.
pub struct ErrorView {
    pub kind: ErrorKind,
    pub detail: Seq<char>,
}

impl View for ServiceError {
    type V = ErrorView;

    open spec fn view(&self) -> ErrorView {
        ErrorView { kind: self.kind, detail: self.detail@ }
    }
}

/// The view of the outcome of a request.
pub open spec fn outcome_view(outcome: Result<(), ServiceError>) -> Result<(), ErrorView> {
    match outcome {
        Ok(()) => Ok(()),
        Err(e) => Err(e@),
    }
}

/// What a reply means for the command: nothing where the engine did what it
/// was asked, else an error of the given kind that carries the engine's words.
pub open spec fn reply_outcome(reply: EngineReply, kind: ErrorKind) -> Result<(), ErrorView> {
    match reply {
        EngineReply::Done => Ok(()),
        EngineReply::Failed(text) => Err(ErrorView { kind, detail: text@ }),
    }
}

impl EngineReply {
    /// The outcome of the request, with `kind` as the kind of its failure.
    pub fn outcome(self, kind: ErrorKind) -> (r: Result<(), ServiceError>)
        ensures
            outcome_view(r) == reply_outcome(self, kind),
    {
        match self {
            EngineReply::Done => Ok(()),
            EngineReply::Failed(text) => Err(ServiceError { kind, detail: text }),
        }
    }
}

impl ErrorView {
    /// The text of the message: what failed, then what the engine said. A
    /// volume that could not be created is named instead.
    pub open spec fn message_text(self) -> Seq<char> {
        match self.kind {
            ErrorKind::EngineUnreachable => "Failed to connect to Docker: "@ + self.detail,
            ErrorKind::ImagePullFailed => "Failed to pull image: "@ + self.detail,
            ErrorKind::VolumeCreationFailed { volume_name } => "Failed to create volume "@
                + volume_name@,
            ErrorKind::ContainerCreationFailed => "Failed to create container: "@ + self.detail,
            ErrorKind::ContainerStartFailed => "Failed to start container: "@ + self.detail,
            ErrorKind::ContainerStopFailed => "Failed to stop container: "@ + self.detail,
        }
    }
}

impl ServiceError {
    /// The message shown to the operator.
    pub fn message(&self) -> (r: String)
        ensures
            r@ == self@.message_text(),
    {
        let detail = self.detail.as_str();
        match self.kind {
            ErrorKind::EngineUnreachable => String::from_str(
                "Failed to connect to Docker: ",
            ).concat(detail),
            ErrorKind::ImagePullFailed => String::from_str("Failed to pull image: ").concat(detail),
            ErrorKind::VolumeCreationFailed { volume_name } => String::from_str(
                "Failed to create volume ",
            ).concat(volume_name),
            ErrorKind::ContainerCreationFailed => String::from_str(
                "Failed to create container: ",
            ).concat(detail),
            ErrorKind::ContainerStartFailed => String::from_str(
                "Failed to start container: ",
            ).concat(detail),
            ErrorKind::ContainerStopFailed => String::from_str(
                "Failed to stop container: ",
            ).concat(detail),
        }
    }
}

} // verus!
