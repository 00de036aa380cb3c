//! The order in which the engine is asked to act: volume provisioning, the
//! bring-up of the container and its shutdown, each as a state machine whose
//! pending action the caller performs and answers with its outcome.

use crate::engine::{Action, ContainerState, ContainerStatus, ErrorKind};
use crate::service::{
    label_text, status_text, ContainerFilters, ContainerSpec, ContainerSpecView, NepheliosService,
    ServiceView, StartRequest,
};
use crate::volume::NepheliosVolume;
use vstd::prelude::*;

verus! {

/// Where volume provisioning stands. Volumes are taken in catalog order.
#[derive(Clone, Copy, Debug, PartialEq, Eq)]
pub enum VolumeState {
    /// The engine is being asked whether the volume at this position exists.
    Checking(usize),
    /// The engine is being asked to create the volume at this position.
    Creating(usize),
    /// Every volume exists.
    Ready,
    /// A volume could not be created; the ones after it were not looked at.
    Failed { volume_name: &'static str },
}

/// How a successful bring-up ended.
#[derive(Clone, Copy, Debug, PartialEq, Eq)]
pub enum UpOutcome {
    AlreadyRunning,
    Started,
}

/// Where the bring-up stands.
#[derive(Clone, Copy, Debug, PartialEq, Eq)]
pub enum UpState {
    Connecting,
    ProbingRunning,
    ProbingStopped,
    Pulling,
    CheckingVolume(usize),
    CreatingVolume(usize),
    Creating,
    Starting,
    Finished(Result<UpOutcome, ErrorKind>),
}

/// Where the shutdown stands.
#[derive(Clone, Copy, Debug, PartialEq, Eq)]
pub enum DownState {
    Connecting,
    Stopping,
    Finished(Result<(), ErrorKind>),
}

/// The actions issued and the state reached by a bring-up that was fed a
/// sequence of outcomes.
pub struct UpRun {
    pub actions: Vec<Action>,
    pub state: UpState,
}

/// An action with everything that the engine needs to perform it.
pub enum Request {
    Connect,
    ListContainers(ContainerFilters),
    PullImage(String),
    ListVolumes(String),
    CreateVolume(String),
    CreateContainer(ContainerSpec),
    StartContainer(StartRequest),
    StopContainer(String),
}

/// A request as sequences of characters.
pub enum RequestView {
    Connect,
    ListContainers { status: Seq<char>, label: Seq<char> },
    PullImage(Seq<char>),
    ListVolumes(Seq<char>),
    CreateVolume(Seq<char>),
    CreateContainer(ContainerSpecView),
    StartContainer { container: Seq<char>, detach_keys: Seq<char> },
    StopContainer(Seq<char>),
}

impl View for Request {
    type V = RequestView;

    open spec fn view(&self) -> RequestView {
        match self {
            Request::Connect => RequestView::Connect,
            Request::ListContainers(filters) => RequestView::ListContainers {
                status: filters.status@,
                label: filters.label@,
            },
            Request::PullImage(image) => RequestView::PullImage(image@),
            Request::ListVolumes(name) => RequestView::ListVolumes(name@),
            Request::CreateVolume(name) => RequestView::CreateVolume(name@),
            Request::CreateContainer(spec) => RequestView::CreateContainer(spec@),
            Request::StartContainer(start) => RequestView::StartContainer {
                container: start.container@,
                detach_keys: start.detach_keys@,
            },
            Request::StopContainer(name) => RequestView::StopContainer(name@),
        }
    }
}

/// The view of an optional request.
pub open spec fn request_view(request: Option<Request>) -> Option<RequestView> {
    match request {
        Some(r) => Some(r@),
        None => None,
    }
}

/// The request that an action stands for. Containers are found by the
/// identity label and the status; the image is pulled, and the container
/// created, at the tag `latest`; a volume is named by the catalog; the
/// container is started and stopped by its name. There is no request for a
/// volume outside the catalog.
pub open spec fn request_for(service: ServiceView, action: Action) -> Option<RequestView> {
    match action {
        Action::Connect => Some(RequestView::Connect),
        Action::ListContainers(status) => Some(
            RequestView::ListContainers {
                status: status_text(status),
                label: label_text(service.name),
            },
        ),
        Action::PullImage => Some(RequestView::PullImage(service.image_reference("latest"@))),
        Action::ListVolume(i) => if i < service.volumes.len() {
            Some(RequestView::ListVolumes(service.volumes[i as int].name))
        } else {
            None
        },
        Action::CreateVolume(i) => if i < service.volumes.len() {
            Some(RequestView::CreateVolume(service.volumes[i as int].name))
        } else {
            None
        },
        Action::CreateContainer => Some(
            RequestView::CreateContainer(service.container_spec("latest"@)),
        ),
        Action::StartContainer => Some(
            RequestView::StartContainer { container: service.name, detach_keys: "ctrl-d"@ },
        ),
        Action::StopContainer => Some(RequestView::StopContainer(service.name)),
    }
}

/// What a bring-up in the given state knows of the container: nothing before
/// both queries are answered or after a failure, absent while it is being
/// provisioned and created, stopped while it waits to be started, running
/// once the bring-up has succeeded.
pub open spec fn up_observed(state: UpState) -> ContainerState {
    match state {
        UpState::Connecting | UpState::ProbingRunning | UpState::ProbingStopped =>
            ContainerState::Unknown,
        UpState::Pulling | UpState::CheckingVolume(_) | UpState::CreatingVolume(_)
        | UpState::Creating => ContainerState::Absent,
        UpState::Starting => ContainerState::Exited,
        UpState::Finished(Ok(_)) => ContainerState::Running,
        UpState::Finished(Err(_)) => ContainerState::Unknown,
    }
}

/// The state in which provisioning begins: at the first volume, or done where
/// there is none.
pub open spec fn volumes_first(volumes: Seq<NepheliosVolume>) -> VolumeState {
    if volumes.len() > 0 {
        VolumeState::Checking(0)
    } else {
        VolumeState::Ready
    }
}

/// The state once the volume at `index` is known to exist.
pub open spec fn volumes_after(volumes: Seq<NepheliosVolume>, index: usize) -> VolumeState {
    if index + 1 < volumes.len() {
        VolumeState::Checking((index + 1) as usize)
    } else {
        VolumeState::Ready
    }
}

/// One step of provisioning. While checking, `ok` says that the volume exists;
/// while creating, that it was created. A missing volume is created next, a
/// failed creation ends provisioning, and the end states stay. At a position
/// outside the catalog nothing is left to provision.
pub open spec fn volumes_next(
    volumes: Seq<NepheliosVolume>,
    state: VolumeState,
    ok: bool,
) -> VolumeState {
    match state {
        VolumeState::Checking(i) => if i >= volumes.len() {
            VolumeState::Ready
        } else if ok {
            volumes_after(volumes, i)
        } else {
            VolumeState::Creating(i)
        },
        VolumeState::Creating(i) => if i >= volumes.len() {
            VolumeState::Ready
        } else if ok {
            volumes_after(volumes, i)
        } else {
            VolumeState::Failed { volume_name: volumes[i as int].name }
        },
        VolumeState::Ready => VolumeState::Ready,
        VolumeState::Failed { volume_name } => VolumeState::Failed { volume_name },
    }
}

/// The action that provisioning waits for, if any.
pub open spec fn volumes_action(state: VolumeState) -> Option<Action> {
    match state {
        VolumeState::Checking(i) => Some(Action::ListVolume(i)),
        VolumeState::Creating(i) => Some(Action::CreateVolume(i)),
        VolumeState::Ready => None,
        VolumeState::Failed { .. } => None,
    }
}

/// The bring-up state that stands for a provisioning state.
pub open spec fn up_from_volumes(state: VolumeState) -> UpState {
    match state {
        VolumeState::Checking(i) => UpState::CheckingVolume(i),
        VolumeState::Creating(i) => UpState::CreatingVolume(i),
        VolumeState::Ready => UpState::Creating,
        VolumeState::Failed { volume_name } => UpState::Finished(
            Err(ErrorKind::VolumeCreationFailed { volume_name }),
        ),
    }
}

/// One step of the bring-up: the state that follows when the pending action
/// had the outcome `ok`. For a query `ok` says that something was found; for
/// every other action, that it succeeded. A finished bring-up stays finished.
pub open spec fn up_next(volumes: Seq<NepheliosVolume>, state: UpState, ok: bool) -> UpState {
    match state {
        UpState::Connecting => if ok {
            UpState::ProbingRunning
        } else {
            UpState::Finished(Err(ErrorKind::EngineUnreachable))
        },
        UpState::ProbingRunning => if ok {
            UpState::Finished(Ok(UpOutcome::AlreadyRunning))
        } else {
            UpState::ProbingStopped
        },
        UpState::ProbingStopped => if ok {
            UpState::Starting
        } else {
            UpState::Pulling
        },
        UpState::Pulling => if ok {
            up_from_volumes(volumes_first(volumes))
        } else {
            UpState::Finished(Err(ErrorKind::ImagePullFailed))
        },
        UpState::CheckingVolume(i) => up_from_volumes(
            volumes_next(volumes, VolumeState::Checking(i), ok),
        ),
        UpState::CreatingVolume(i) => up_from_volumes(
            volumes_next(volumes, VolumeState::Creating(i), ok),
        ),
        UpState::Creating => if ok {
            UpState::Starting
        } else {
            UpState::Finished(Err(ErrorKind::ContainerCreationFailed))
        },
        UpState::Starting => if ok {
            UpState::Finished(Ok(UpOutcome::Started))
        } else {
            UpState::Finished(Err(ErrorKind::ContainerStartFailed))
        },
        UpState::Finished(result) => UpState::Finished(result),
    }
}

/// The action that the bring-up waits for; none once it has finished.
pub open spec fn up_pending(state: UpState) -> Option<Action> {
    match state {
        UpState::Connecting => Some(Action::Connect),
        UpState::ProbingRunning => Some(Action::ListContainers(ContainerStatus::Running)),
        UpState::ProbingStopped => Some(Action::ListContainers(ContainerStatus::Exited)),
        UpState::Pulling => Some(Action::PullImage),
        UpState::CheckingVolume(i) => Some(Action::ListVolume(i)),
        UpState::CreatingVolume(i) => Some(Action::CreateVolume(i)),
        UpState::Creating => Some(Action::CreateContainer),
        UpState::Starting => Some(Action::StartContainer),
        UpState::Finished(_) => None,
    }
}

/// The state of a bring-up after the given outcomes, one for each action it
/// issued, in order. Outcomes beyond its end are not read.
pub open spec fn up_state_after(volumes: Seq<NepheliosVolume>, outcomes: Seq<bool>) -> UpState
    decreases outcomes.len(),
{
    if outcomes.len() == 0 {
        UpState::Connecting
    } else {
        up_next(volumes, up_state_after(volumes, outcomes.drop_last()), outcomes.last())
    }
}

/// The actions that a bring-up issued to receive the given outcomes, in order.
pub open spec fn up_trace(volumes: Seq<NepheliosVolume>, outcomes: Seq<bool>) -> Seq<Action>
    decreases outcomes.len(),
{
    if outcomes.len() == 0 {
        Seq::empty()
    } else {
        let before = up_trace(volumes, outcomes.drop_last());
        match up_pending(up_state_after(volumes, outcomes.drop_last())) {
            Some(action) => before.push(action),
            None => before,
        }
    }
}

/// One step of the shutdown: connect, then stop the container, whatever state
/// it is in. A failed stop is an error.
pub open spec fn down_next(state: DownState, ok: bool) -> DownState {
    match state {
        DownState::Connecting => if ok {
            DownState::Stopping
        } else {
            DownState::Finished(Err(ErrorKind::EngineUnreachable))
        },
        DownState::Stopping => if ok {
            DownState::Finished(Ok(()))
        } else {
            DownState::Finished(Err(ErrorKind::ContainerStopFailed))
        },
        DownState::Finished(result) => DownState::Finished(result),
    }
}

/// The action that the shutdown waits for; none once it has finished.
pub open spec fn down_pending(state: DownState) -> Option<Action> {
    match state {
        DownState::Connecting => Some(Action::Connect),
        DownState::Stopping => Some(Action::StopContainer),
        DownState::Finished(_) => None,
    }
}

impl VolumeState {
    /// The action to perform next, if any.
    pub fn action(self) -> (r: Option<Action>)
        ensures
            r == volumes_action(self),
    {
        match self {
            VolumeState::Checking(i) => Some(Action::ListVolume(i)),
            VolumeState::Creating(i) => Some(Action::CreateVolume(i)),
            VolumeState::Ready => None,
            VolumeState::Failed { .. } => None,
        }
    }

    /// The result of provisioning, once it has ended.
    pub fn result(self) -> (r: Option<Result<(), ErrorKind>>)
        ensures
            r == (match self {
                VolumeState::Ready => Some(Ok::<(), ErrorKind>(())),
                VolumeState::Failed { volume_name } => Some(
                    Err(ErrorKind::VolumeCreationFailed { volume_name }),
                ),
                _ => None,
            }),
    {
        match self {
            VolumeState::Ready => Some(Ok(())),
            VolumeState::Failed { volume_name } => Some(
                Err(ErrorKind::VolumeCreationFailed { volume_name }),
            ),
            _ => None,
        }
    }
}

impl UpState {
    /// The action to perform next; none once the bring-up has finished.
    pub fn action(self) -> (r: Option<Action>)
        ensures
            r == up_pending(self),
    {
        match self {
            UpState::Connecting => Some(Action::Connect),
            UpState::ProbingRunning => Some(Action::ListContainers(ContainerStatus::Running)),
            UpState::ProbingStopped => Some(Action::ListContainers(ContainerStatus::Exited)),
            UpState::Pulling => Some(Action::PullImage),
            UpState::CheckingVolume(i) => Some(Action::ListVolume(i)),
            UpState::CreatingVolume(i) => Some(Action::CreateVolume(i)),
            UpState::Creating => Some(Action::CreateContainer),
            UpState::Starting => Some(Action::StartContainer),
            UpState::Finished(_) => None,
        }
    }

    /// What the bring-up knows of the container in this state.
    pub fn observed(self) -> (r: ContainerState)
        ensures
            r == up_observed(self),
    {
        match self {
            UpState::Connecting | UpState::ProbingRunning | UpState::ProbingStopped => {
                ContainerState::Unknown
            },
            UpState::Pulling | UpState::CheckingVolume(_) | UpState::CreatingVolume(_)
            | UpState::Creating => ContainerState::Absent,
            UpState::Starting => ContainerState::Exited,
            UpState::Finished(Ok(_)) => ContainerState::Running,
            UpState::Finished(Err(_)) => ContainerState::Unknown,
        }
    }

    /// The result of the bring-up, once it has finished.
    pub fn result(self) -> (r: Option<Result<UpOutcome, ErrorKind>>)
        ensures
            r == (match self {
                UpState::Finished(result) => Some(result),
                _ => None,
            }),
    {
        match self {
            UpState::Finished(result) => Some(result),
            _ => None,
        }
    }
}

impl DownState {
    /// The action to perform next; none once the shutdown has finished.
    pub fn action(self) -> (r: Option<Action>)
        ensures
            r == down_pending(self),
    {
        match self {
            DownState::Connecting => Some(Action::Connect),
            DownState::Stopping => Some(Action::StopContainer),
            DownState::Finished(_) => None,
        }
    }

    /// The result of the shutdown, once it has finished.
    pub fn result(self) -> (r: Option<Result<(), ErrorKind>>)
        ensures
            r == (match self {
                DownState::Finished(result) => Some(result),
                _ => None,
            }),
    {
        match self {
            DownState::Finished(result) => Some(result),
            _ => None,
        }
    }
}

fn up_state_of(state: VolumeState) -> (r: UpState)
    ensures
        r == up_from_volumes(state),
{
    match state {
        VolumeState::Checking(i) => UpState::CheckingVolume(i),
        VolumeState::Creating(i) => UpState::CreatingVolume(i),
        VolumeState::Ready => UpState::Creating,
        VolumeState::Failed { volume_name } => UpState::Finished(
            Err(ErrorKind::VolumeCreationFailed { volume_name }),
        ),
    }
}

/// The image tag that a bring-up pulls and creates the container from.
pub fn up_version() -> (r: &'static str)
    ensures
        r@ == "latest"@,
{
    "latest"
}

impl NepheliosService {
    /// The request that the engine is to be sent for an action.
    pub fn request(&self, action: Action) -> (r: Option<Request>)
        ensures
            request_view(r) == request_for(self@, action),
    {
        match action {
            Action::Connect => Some(Request::Connect),
            Action::ListContainers(status) => Some(
                Request::ListContainers(self.container_request(status)),
            ),
            Action::PullImage => Some(Request::PullImage(self.pull_request(up_version()))),
            Action::ListVolume(i) => if i < self.volumes.len() {
                Some(Request::ListVolumes(self.volumes[i].list_request()))
            } else {
                None
            },
            Action::CreateVolume(i) => if i < self.volumes.len() {
                Some(Request::CreateVolume(self.volumes[i].create_request()))
            } else {
                None
            },
            Action::CreateContainer => Some(
                Request::CreateContainer(self.create_request(up_version())),
            ),
            Action::StartContainer => Some(Request::StartContainer(self.start_request())),
            Action::StopContainer => Some(Request::StopContainer(self.stop_request())),
        }
    }

    /// The state in which volume provisioning begins.
    pub fn first_volume(&self) -> (r: VolumeState)
        ensures
            r == volumes_first(self.volumes@),
    {
        if self.volumes.len() > 0 {
            VolumeState::Checking(0)
        } else {
            VolumeState::Ready
        }
    }

    fn volume_done(&self, index: usize) -> (r: VolumeState)
        requires
            index < self.volumes@.len(),
        ensures
            r == volumes_after(self.volumes@, index),
    {
        let count: usize = self.volumes.len();
        if index + 1 < count {
            VolumeState::Checking(index + 1)
        } else {
            VolumeState::Ready
        }
    }

    /// One step of volume provisioning: each volume in catalog order is looked
    /// for and, where absent, created; the first failed creation ends it with
    /// the volume's name.
    pub fn ensure_volumes(&self, state: VolumeState, ok: bool) -> (r: VolumeState)
        ensures
            r == volumes_next(self.volumes@, state, ok),
    {
        match state {
            VolumeState::Checking(i) => if i >= self.volumes.len() {
                VolumeState::Ready
            } else if ok {
                self.volume_done(i)
            } else {
                VolumeState::Creating(i)
            },
            VolumeState::Creating(i) => if i >= self.volumes.len() {
                VolumeState::Ready
            } else if ok {
                self.volume_done(i)
            } else {
                VolumeState::Failed { volume_name: self.volumes[i].name }
            },
            VolumeState::Ready => VolumeState::Ready,
            VolumeState::Failed { volume_name } => VolumeState::Failed { volume_name },
        }
    }

    /// The state in which a bring-up begins.
    pub fn up_begin(&self) -> (r: UpState)
        ensures
            r == UpState::Connecting,
    {
        UpState::Connecting
    }

    /// One step of the bring-up: a running container ends it at once, a
    /// stopped one is started, and an absent one is pulled, provisioned,
    /// created and started. The first failure ends it.
    pub fn up(&self, state: UpState, ok: bool) -> (r: UpState)
        ensures
            r == up_next(self.volumes@, state, ok),
    {
        match state {
            UpState::Connecting => if ok {
                UpState::ProbingRunning
            } else {
                UpState::Finished(Err(ErrorKind::EngineUnreachable))
            },
            UpState::ProbingRunning => if ok {
                UpState::Finished(Ok(UpOutcome::AlreadyRunning))
            } else {
                UpState::ProbingStopped
            },
            UpState::ProbingStopped => if ok {
                UpState::Starting
            } else {
                UpState::Pulling
            },
            UpState::Pulling => if ok {
                up_state_of(self.first_volume())
            } else {
                UpState::Finished(Err(ErrorKind::ImagePullFailed))
            },
            UpState::CheckingVolume(i) => up_state_of(
                self.ensure_volumes(VolumeState::Checking(i), ok),
            ),
            UpState::CreatingVolume(i) => up_state_of(
                self.ensure_volumes(VolumeState::Creating(i), ok),
            ),
            UpState::Creating => if ok {
                UpState::Starting
            } else {
                UpState::Finished(Err(ErrorKind::ContainerCreationFailed))
            },
            UpState::Starting => if ok {
                UpState::Finished(Ok(UpOutcome::Started))
            } else {
                UpState::Finished(Err(ErrorKind::ContainerStartFailed))
            },
            UpState::Finished(result) => UpState::Finished(result),
        }
    }

    /// The state in which a shutdown begins.
    pub fn down_begin(&self) -> (r: DownState)
        ensures
            r == DownState::Connecting,
    {
        DownState::Connecting
    }

    /// One step of the shutdown: the container is stopped without being
    /// looked for first, and a failed stop is an error.
    pub fn down(&self, state: DownState, ok: bool) -> (r: DownState)
        ensures
            r == down_next(state, ok),
    {
        match state {
            DownState::Connecting => if ok {
                DownState::Stopping
            } else {
                DownState::Finished(Err(ErrorKind::EngineUnreachable))
            },
            DownState::Stopping => if ok {
                DownState::Finished(Ok(()))
            } else {
                DownState::Finished(Err(ErrorKind::ContainerStopFailed))
            },
            DownState::Finished(result) => DownState::Finished(result),
        }
    }

    /// Runs a bring-up against a script: each action it issues is answered by
    /// the next outcome, until it finishes or the script ends.
    pub fn run_up(&self, outcomes: &Vec<bool>) -> (r: UpRun)
        ensures
            r.actions@ == up_trace(self.volumes@, outcomes@),
            r.state == up_state_after(self.volumes@, outcomes@),
    {
        let mut state = UpState::Connecting;
        let mut actions: Vec<Action> = Vec::new();
        let mut i: usize = 0;
        while i < outcomes.len()
            invariant
                i <= outcomes.len(),
                state == up_state_after(self.volumes@, outcomes@.take(i as int)),
                actions@ == up_trace(self.volumes@, outcomes@.take(i as int)),
            decreases outcomes.len() - i,
        {
            proof {
                let next = outcomes@.take(i + 1);
                assert(next.drop_last() =~= outcomes@.take(i as int));
                assert(next.last() == outcomes@[i as int]);
            }
            match state.action() {
                Some(action) => {
                    actions.push(action);
                },
                None => {},
            }
            state = self.up(state, outcomes[i]);
            i += 1;
        }
        assert(outcomes@.take(i as int) =~= outcomes@);
        UpRun { actions, state }
    }
}

} // verus!
