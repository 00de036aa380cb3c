//! What holds of every bring-up and shutdown, whatever the engine answers.

use crate::engine::{Action, ContainerListing, ContainerStatus, ErrorKind};
use crate::orchestrator::{
    down_next, down_pending, request_for, up_pending, up_state_after, up_trace, DownState,
    UpOutcome, UpState,
};
use crate::service::{
    env_texts, label_text, status_text, volume_views, EnvOverrides, ServiceView,
};
use crate::volume::NepheliosVolume;
use vstd::prelude::*;

verus! {

/// Whether the action asks for, or creates, a volume at position `from` or later.
pub open spec fn touches_volume_from(action: Action, from: int) -> bool {
    match action {
        Action::ListVolume(j) => j >= from,
        Action::CreateVolume(j) => j >= from,
        _ => false,
    }
}

/// No action of the trace concerns a volume at position `from` or later.
pub open spec fn volumes_untouched_from(trace: Seq<Action>, from: int) -> bool {
    forall|k: int| 0 <= k < trace.len() ==> !touches_volume_from(#[trigger] trace[k], from)
}

/// The volume at position `j` was looked for.
pub open spec fn volume_queried(trace: Seq<Action>, j: int) -> bool {
    trace.contains(Action::ListVolume(j as usize))
}

/// Every volume before position `until` was looked for.
pub open spec fn volumes_queried_until(trace: Seq<Action>, until: int) -> bool {
    forall|j: int| 0 <= j < until ==> #[trigger] volume_queried(trace, j)
}

/// No action of the trace changes anything on the engine.
pub open spec fn changes_nothing(trace: Seq<Action>) -> bool {
    forall|k: int| 0 <= k < trace.len() ==> !(#[trigger] trace[k]).is_mutating()
}

/// How many times the trace asks the engine to create the container.
pub open spec fn creations(trace: Seq<Action>) -> nat
    decreases trace.len(),
{
    if trace.len() == 0 {
        0
    } else {
        creations(trace.drop_last()) + if trace.last() == Action::CreateContainer {
            1nat
        } else {
            0nat
        }
    }
}

/// A bring-up that has finished issues nothing more and keeps its result,
/// whatever outcomes follow.
pub proof fn lemma_finished_stays(
    volumes: Seq<NepheliosVolume>,
    outcomes: Seq<bool>,
    more: Seq<bool>,
)
    requires
        up_state_after(volumes, outcomes) is Finished,
    ensures
        up_state_after(volumes, outcomes + more) == up_state_after(volumes, outcomes),
        up_trace(volumes, outcomes + more) == up_trace(volumes, outcomes),
    decreases more.len(),
{
    if more.len() == 0 {
        assert(outcomes + more =~= outcomes);
    } else {
        lemma_finished_stays(volumes, outcomes, more.drop_last());
        assert((outcomes + more).drop_last() =~= outcomes + more.drop_last());
    }
}

/// The first steps of every bring-up that reaches the engine: it connects,
/// asks for a running container and, where there is none, for a stopped one.
proof fn lemma_first_outcomes(volumes: Seq<NepheliosVolume>, running: bool, stopped: bool)
    ensures
        up_state_after(volumes, seq![true, running]) == (if running {
            UpState::Finished(Ok(UpOutcome::AlreadyRunning))
        } else {
            UpState::ProbingStopped
        }),
        up_trace(volumes, seq![true, running]) == seq![
            Action::Connect,
            Action::ListContainers(ContainerStatus::Running),
        ],
        up_state_after(volumes, seq![true, false, stopped]) == (if stopped {
            UpState::Starting
        } else {
            UpState::Pulling
        }),
        up_trace(volumes, seq![true, false, stopped]) == seq![
            Action::Connect,
            Action::ListContainers(ContainerStatus::Running),
            Action::ListContainers(ContainerStatus::Exited),
        ],
{
    let one = seq![true];
    let two = seq![true, running];
    let absent = seq![true, false];
    let three = seq![true, false, stopped];
    assert(one.drop_last() =~= Seq::<bool>::empty());
    assert(two.drop_last() =~= one);
    assert(absent.drop_last() =~= one);
    assert(three.drop_last() =~= absent);
    assert(up_state_after(volumes, Seq::<bool>::empty()) == UpState::Connecting);
    assert(up_state_after(volumes, one) == UpState::ProbingRunning);
    assert(up_state_after(volumes, absent) == UpState::ProbingStopped);
    assert(up_trace(volumes, Seq::<bool>::empty()) =~= Seq::<Action>::empty());
    assert(up_trace(volumes, one) =~= seq![Action::Connect]);
    assert(up_trace(volumes, two) =~= seq![
        Action::Connect,
        Action::ListContainers(ContainerStatus::Running),
    ]);
    assert(up_trace(volumes, absent) =~= seq![
        Action::Connect,
        Action::ListContainers(ContainerStatus::Running),
    ]);
    assert(up_trace(volumes, three) =~= seq![
        Action::Connect,
        Action::ListContainers(ContainerStatus::Running),
        Action::ListContainers(ContainerStatus::Exited),
    ]);
}

/// Where the engine reports the container running, the bring-up connects,
/// asks once, changes nothing on the engine and succeeds.
pub proof fn lemma_running_is_left_alone(volumes: Seq<NepheliosVolume>, more: Seq<bool>)
    ensures
        up_trace(volumes, seq![true, true] + more) == seq![
            Action::Connect,
            Action::ListContainers(ContainerStatus::Running),
        ],
        up_state_after(volumes, seq![true, true] + more) == UpState::Finished(
            Ok(UpOutcome::AlreadyRunning),
        ),
        changes_nothing(up_trace(volumes, seq![true, true] + more)),
{
    lemma_first_outcomes(volumes, true, true);
    lemma_finished_stays(volumes, seq![true, true], more);
}

/// Where the container exists but is stopped, the bring-up starts it and does
/// nothing else: no pull, no volume is looked for or created, no container is
/// created. Its result is that of the start.
pub proof fn lemma_stopped_is_resumed(
    volumes: Seq<NepheliosVolume>,
    started: bool,
    more: Seq<bool>,
)
    ensures
        up_trace(volumes, seq![true, false, true, started] + more) == seq![
            Action::Connect,
            Action::ListContainers(ContainerStatus::Running),
            Action::ListContainers(ContainerStatus::Exited),
            Action::StartContainer,
        ],
        up_state_after(volumes, seq![true, false, true, started] + more) == UpState::Finished(
            if started {
                Ok(UpOutcome::Started)
            } else {
                Err(ErrorKind::ContainerStartFailed)
            },
        ),
{
    lemma_first_outcomes(volumes, false, true);
    let three = seq![true, false, true];
    let four = seq![true, false, true, started];
    assert(four.drop_last() =~= three);
    assert(up_state_after(volumes, four) is Finished);
    assert(up_trace(volumes, four) =~= seq![
        Action::Connect,
        Action::ListContainers(ContainerStatus::Running),
        Action::ListContainers(ContainerStatus::Exited),
        Action::StartContainer,
    ]);
    lemma_finished_stays(volumes, four, more);
}

/// Volumes are taken in catalog order: while the bring-up stands at the
/// volume at position `i`, every volume before it was looked for and none
/// after it was touched; before provisioning no volume was touched at all.
pub proof fn lemma_volumes_in_order(volumes: Seq<NepheliosVolume>, outcomes: Seq<bool>)
    requires
        volumes.len() <= usize::MAX,
    ensures
        match up_state_after(volumes, outcomes) {
            UpState::CheckingVolume(i) => i < volumes.len() && volumes_untouched_from(
                up_trace(volumes, outcomes),
                i as int,
            ) && volumes_queried_until(up_trace(volumes, outcomes), i as int),
            UpState::CreatingVolume(i) => i < volumes.len() && volumes_untouched_from(
                up_trace(volumes, outcomes),
                i + 1,
            ) && volumes_queried_until(up_trace(volumes, outcomes), i + 1),
            UpState::Connecting | UpState::ProbingRunning | UpState::ProbingStopped
            | UpState::Pulling => volumes_untouched_from(up_trace(volumes, outcomes), 0),
            _ => true,
        },
    decreases outcomes.len(),
{
    if outcomes.len() > 0 {
        let before = outcomes.drop_last();
        lemma_volumes_in_order(volumes, before);
        let earlier = up_trace(volumes, before);
        let trace = up_trace(volumes, outcomes);
        assert forall|k: int| 0 <= k < earlier.len() implies trace[k] == earlier[k] by {}
        match up_state_after(volumes, before) {
            UpState::CheckingVolume(i) => {
                assert(trace == earlier.push(Action::ListVolume(i)));
                assert(trace[earlier.len() as int] == Action::ListVolume(i));
                assert forall|j: int| 0 <= j < i + 1 implies #[trigger] volume_queried(trace, j) by {
                    if j < i {
                        assert(volume_queried(earlier, j));
                        let k = choose|k: int|
                            0 <= k < earlier.len() && earlier[k] == Action::ListVolume(j as usize);
                        assert(trace[k] == Action::ListVolume(j as usize));
                    }
                }
            },
            UpState::CreatingVolume(i) => {
                assert(trace == earlier.push(Action::CreateVolume(i)));
                assert forall|j: int| 0 <= j < i + 1 implies #[trigger] volume_queried(trace, j) by {
                    assert(volume_queried(earlier, j));
                    let k = choose|k: int|
                        0 <= k < earlier.len() && earlier[k] == Action::ListVolume(j as usize);
                    assert(trace[k] == Action::ListVolume(j as usize));
                }
            },
            _ => {},
        }
    }
}

/// Every action has a request.
pub open spec fn all_have_requests(service: ServiceView, trace: Seq<Action>) -> bool {
    forall|k: int| 0 <= k < trace.len() ==> request_for(service, #[trigger] trace[k]) is Some
}

/// A bring-up never asks for a volume outside the catalog: each action that
/// it issues has a request.
pub proof fn lemma_issued_actions_have_requests(
    service: ServiceView,
    volumes: Seq<NepheliosVolume>,
    outcomes: Seq<bool>,
)
    requires
        volumes.len() <= usize::MAX,
        service.volumes == volume_views(volumes),
    ensures
        all_have_requests(service, up_trace(volumes, outcomes)),
    decreases outcomes.len(),
{
    if outcomes.len() > 0 {
        let before = outcomes.drop_last();
        lemma_issued_actions_have_requests(service, volumes, before);
        lemma_volumes_in_order(volumes, before);
        let earlier = up_trace(volumes, before);
        let trace = up_trace(volumes, outcomes);
        assert forall|k: int| 0 <= k < trace.len() implies request_for(
            service,
            #[trigger] trace[k],
        ) is Some by {
            if k < earlier.len() {
                assert(trace[k] == earlier[k]);
            }
        }
    }
}

/// Provisioning stops at the first volume that cannot be created. Where the
/// bring-up stands at creating the volume at position `i` and the creation
/// fails, it ends with that volume's name, issues nothing after the failed
/// request, has looked for every volume up to `i` and has touched none after it.
pub proof fn lemma_volume_failure_stops(
    volumes: Seq<NepheliosVolume>,
    outcomes: Seq<bool>,
    i: usize,
    more: Seq<bool>,
)
    requires
        volumes.len() <= usize::MAX,
        up_state_after(volumes, outcomes) == UpState::CreatingVolume(i),
    ensures
        i < volumes.len(),
        up_state_after(volumes, outcomes.push(false) + more) == UpState::Finished(
            Err(ErrorKind::VolumeCreationFailed { volume_name: volumes[i as int].name }),
        ),
        up_trace(volumes, outcomes.push(false) + more) == up_trace(volumes, outcomes).push(
            Action::CreateVolume(i),
        ),
        volumes_queried_until(up_trace(volumes, outcomes.push(false) + more), i + 1),
        volumes_untouched_from(up_trace(volumes, outcomes.push(false) + more), i + 1),
{
    lemma_volumes_in_order(volumes, outcomes);
    let failed = outcomes.push(false);
    assert(failed.drop_last() =~= outcomes);
    let earlier = up_trace(volumes, outcomes);
    let trace = up_trace(volumes, failed);
    assert(trace == earlier.push(Action::CreateVolume(i)));
    lemma_finished_stays(volumes, failed, more);
    assert forall|j: int| 0 <= j < i + 1 implies #[trigger] volume_queried(trace, j) by {
        assert(volume_queried(earlier, j));
        let k = choose|k: int|
            0 <= k < earlier.len() && earlier[k] == Action::ListVolume(j as usize);
        assert(trace[k] == Action::ListVolume(j as usize));
    }
}

/// A shutdown connects and then asks the engine exactly once to stop the
/// container, without looking at the container first. It succeeds where the
/// stop succeeds and fails with `ContainerStopFailed` where it does not.
pub proof fn lemma_down_stops_once(stopped: bool)
    ensures
        down_pending(DownState::Connecting) == Some(Action::Connect),
        down_next(DownState::Connecting, true) == DownState::Stopping,
        down_pending(DownState::Stopping) == Some(Action::StopContainer),
        down_next(DownState::Stopping, stopped) == DownState::Finished(
            if stopped {
                Ok(())
            } else {
                Err(ErrorKind::ContainerStopFailed)
            },
        ),
        forall|result: Result<(), ErrorKind>, ok: bool|
            down_pending(#[trigger] down_next(DownState::Finished(result), ok)) is None,
{
}

/// The container that a service asks the engine to create carries the
/// identity label: the fixed key with the service's name as its value, which
/// together, joined by an equals sign, are the label that the queries filter on.
pub proof fn lemma_created_container_is_labelled(service: ServiceView, version: Seq<char>)
    ensures
        service.container_spec(version).labels.contains(("com.nephelios.name"@, service.name)),
        label_text(service.name) == "com.nephelios.name"@ + "="@ + service.name,
        service.name == "nephelios"@ ==> label_text(service.name)
            == "com.nephelios.name=nephelios"@,
{
    reveal_strlit("com.nephelios.name");
    reveal_strlit("=");
    reveal_strlit("com.nephelios.name=");
    reveal_strlit("nephelios");
    reveal_strlit("com.nephelios.name=nephelios");
    assert(service.container_spec(version).labels[0] == ("com.nephelios.name"@, service.name));
    assert(label_text(service.name) =~= "com.nephelios.name"@ + "="@ + service.name);
    if service.name == "nephelios"@ {
        assert(label_text(service.name) =~= "com.nephelios.name=nephelios"@);
    }
}

/// How often a bring-up has asked for the container to be created, by the
/// state it has reached: never before the container is created, once after a
/// creation, and never where an existing container was only started.
pub proof fn lemma_creations_by_state(volumes: Seq<NepheliosVolume>, outcomes: Seq<bool>)
    ensures
        match up_state_after(volumes, outcomes) {
            UpState::Connecting => outcomes.len() == 0 && creations(up_trace(volumes, outcomes))
                == 0,
            UpState::ProbingRunning => outcomes.len() == 1 && creations(
                up_trace(volumes, outcomes),
            ) == 0,
            UpState::ProbingStopped => outcomes.len() == 2 && creations(
                up_trace(volumes, outcomes),
            ) == 0,
            UpState::Pulling | UpState::CheckingVolume(_) | UpState::CreatingVolume(_)
            | UpState::Creating => outcomes.len() >= 3 && !outcomes[2] && creations(
                up_trace(volumes, outcomes),
            ) == 0,
            UpState::Starting | UpState::Finished(Ok(UpOutcome::Started)) => outcomes.len() >= 3
                && creations(up_trace(volumes, outcomes)) == (if outcomes[2] {
                0nat
            } else {
                1nat
            }),
            UpState::Finished(Ok(UpOutcome::AlreadyRunning)) => creations(
                up_trace(volumes, outcomes),
            ) == 0,
            UpState::Finished(Err(_)) => creations(up_trace(volumes, outcomes)) <= 1,
        },
    decreases outcomes.len(),
{
    if outcomes.len() > 0 {
        let before = outcomes.drop_last();
        lemma_creations_by_state(volumes, before);
        let earlier = up_trace(volumes, before);
        match up_pending(up_state_after(volumes, before)) {
            Some(action) => {
                assert(earlier.push(action).drop_last() =~= earlier);
                assert(earlier.push(action).last() == action);
            },
            None => {},
        }
        if before.len() > 2 {
            assert(before[2] == outcomes[2]);
        }
    }
}

/// Bringing the container up twice creates it once. Where the first bring-up
/// found no container and succeeded, it asked exactly once for the container
/// to be created; a second bring-up that finds the engine as the first left
/// it, reachable and with the container running, connects, asks once, creates
/// nothing and reports the container as already running.
pub proof fn lemma_up_twice_creates_once(
    volumes: Seq<NepheliosVolume>,
    first: Seq<bool>,
    second: Seq<bool>,
)
    requires
        first.len() >= 3,
        !first[2],
        up_state_after(volumes, first) == UpState::Finished(Ok(UpOutcome::Started)),
        second.len() >= 2,
        second[0],
        second[1],
    ensures
        creations(up_trace(volumes, first)) == 1,
        up_trace(volumes, second) == seq![
            Action::Connect,
            Action::ListContainers(ContainerStatus::Running),
        ],
        creations(up_trace(volumes, second)) == 0,
        up_state_after(volumes, second) == UpState::Finished(Ok(UpOutcome::AlreadyRunning)),
{
    lemma_creations_by_state(volumes, first);
    lemma_creations_by_state(volumes, second);
    let more = second.subrange(2, second.len() as int);
    assert(seq![true, true] + more =~= second);
    lemma_running_is_left_alone(volumes, more);
}

/// A container as the engine knows it: its labels and its status.
pub struct EngineContainer {
    pub labels: Map<Seq<char>, Seq<char>>,
    pub status: Seq<char>,
}

/// Whether a query with the given label and status filters selects the
/// container: it has that status and carries a label whose key and value,
/// joined by an equals sign, are the label filter.
pub open spec fn selects(label: Seq<char>, status: Seq<char>, container: EngineContainer) -> bool {
    container.status == status && exists|key: Seq<char>|
        #[trigger] container.labels.contains_key(key) && key + "="@ + container.labels[key]
            == label
}

/// How many of the containers a query with the given filters selects.
pub open spec fn selected(
    containers: Seq<EngineContainer>,
    label: Seq<char>,
    status: Seq<char>,
) -> nat
    decreases containers.len(),
{
    if containers.len() == 0 {
        0
    } else {
        selected(containers.drop_last(), label, status) + if selects(
            label,
            status,
            containers.last(),
        ) {
            1nat
        } else {
            0nat
        }
    }
}

/// A query for the service's container never finds an unrelated one. Where
/// the engine answers with the number of containers that its filters select,
/// and no container has the asked status together with the identity label of
/// the service, the query finds nothing.
pub proof fn lemma_unrelated_container_is_not_found(
    containers: Seq<EngineContainer>,
    name: Seq<char>,
    status: ContainerStatus,
    listing: ContainerListing,
)
    requires
        forall|i: int|
            0 <= i < containers.len() ==> !selects(
                label_text(name),
                status_text(status),
                #[trigger] containers[i],
            ),
        listing matches ContainerListing::Containers(n) ==> n == selected(
            containers,
            label_text(name),
            status_text(status),
        ),
    ensures
        !listing.found(),
{
    lemma_none_selected(containers, label_text(name), status_text(status));
}

/// Where the filters select none of the containers, the count is zero.
proof fn lemma_none_selected(containers: Seq<EngineContainer>, label: Seq<char>, status: Seq<char>)
    requires
        forall|i: int|
            0 <= i < containers.len() ==> !selects(label, status, #[trigger] containers[i]),
    ensures
        selected(containers, label, status) == 0,
    decreases containers.len(),
{
    if containers.len() > 0 {
        let rest = containers.drop_last();
        assert forall|i: int| 0 <= i < rest.len() implies !selects(
            label,
            status,
            #[trigger] rest[i],
        ) by {
            assert(rest[i] == containers[i]);
        }
        lemma_none_selected(rest, label, status);
        assert(!selects(label, status, containers.last()));
    }
}

/// The outcomes that a bring-up meets on an engine that has neither the
/// container nor any volume and does all it is asked, up to the creation of
/// the first `count` volumes.
pub open spec fn fresh_outcomes(count: nat) -> Seq<bool>
    decreases count,
{
    if count == 0 {
        seq![true, false, false, true]
    } else {
        fresh_outcomes((count - 1) as nat).push(false).push(true)
    }
}

/// The actions expected against such an engine, up to the creation of the
/// first `count` volumes: the connection, the two queries, the pull, then each
/// volume looked for and created in catalog order.
pub open spec fn fresh_actions(count: nat) -> Seq<Action>
    decreases count,
{
    if count == 0 {
        seq![
            Action::Connect,
            Action::ListContainers(ContainerStatus::Running),
            Action::ListContainers(ContainerStatus::Exited),
            Action::PullImage,
        ]
    } else {
        fresh_actions((count - 1) as nat).push(Action::ListVolume((count - 1) as usize)).push(
            Action::CreateVolume((count - 1) as usize),
        )
    }
}

proof fn lemma_fresh_volumes(volumes: Seq<NepheliosVolume>, count: nat)
    requires
        volumes.len() <= usize::MAX,
        count <= volumes.len(),
    ensures
        up_trace(volumes, fresh_outcomes(count)) == fresh_actions(count),
        up_state_after(volumes, fresh_outcomes(count)) == (if count < volumes.len() {
            UpState::CheckingVolume(count as usize)
        } else {
            UpState::Creating
        }),
    decreases count,
{
    if count == 0 {
        lemma_first_outcomes(volumes, false, false);
        let three = seq![true, false, false];
        let four = seq![true, false, false, true];
        assert(four.drop_last() =~= three);
        assert(up_trace(volumes, four) =~= fresh_actions(0));
    } else {
        let fewer = (count - 1) as nat;
        lemma_fresh_volumes(volumes, fewer);
        let a = fresh_outcomes(fewer);
        let b = a.push(false);
        let c = b.push(true);
        assert(b.drop_last() =~= a);
        assert(c.drop_last() =~= b);
        assert(up_state_after(volumes, a) == UpState::CheckingVolume(fewer as usize));
        assert(up_state_after(volumes, b) == UpState::CreatingVolume(fewer as usize));
        assert(up_trace(volumes, b) == fresh_actions(fewer).push(
            Action::ListVolume(fewer as usize),
        ));
    }
}

/// On an engine that has neither the container nor any volume and does all
/// it is asked, a bring-up connects, asks for a running and for a stopped
/// container, pulls the image, looks for and creates each volume in catalog
/// order, creates the container and starts it, in this order, and succeeds.
pub proof fn lemma_fresh_engine_run(volumes: Seq<NepheliosVolume>, more: Seq<bool>)
    requires
        volumes.len() <= usize::MAX,
    ensures
        up_trace(volumes, fresh_outcomes(volumes.len()).push(true).push(true) + more)
            == fresh_actions(volumes.len()).push(Action::CreateContainer).push(
            Action::StartContainer,
        ),
        up_state_after(volumes, fresh_outcomes(volumes.len()).push(true).push(true) + more)
            == UpState::Finished(Ok(UpOutcome::Started)),
{
    lemma_fresh_volumes(volumes, volumes.len());
    let a = fresh_outcomes(volumes.len());
    let b = a.push(true);
    let c = b.push(true);
    assert(b.drop_last() =~= a);
    assert(c.drop_last() =~= b);
    assert(up_state_after(volumes, b) == UpState::Starting);
    assert(up_trace(volumes, b) == fresh_actions(volumes.len()).push(Action::CreateContainer));
    lemma_finished_stays(volumes, c, more);
}

/// Whether the text begins with the prefix.
pub open spec fn starts_with(text: Seq<char>, prefix: Seq<char>) -> bool {
    prefix.len() <= text.len() && text.subrange(0, prefix.len() as int) == prefix
}

/// The names of the five settings of the container's environment, each with
/// its equals sign, in the order of the environment.
pub open spec fn setting_keys() -> Seq<Seq<char>> {
    seq![
        "NEPHELIOS_PORT="@,
        "NEPHELIOS_URL="@,
        "NEPHELIOS_APPS_PORT="@,
        "LEAVE_SWARM="@,
        "ADVERTISE_ADDR="@,
    ]
}

proof fn lemma_other_prefix(text: Seq<char>, prefix: Seq<char>, at: int)
    requires
        0 <= at < text.len(),
        at < prefix.len(),
        text[at] != prefix[at],
    ensures
        !starts_with(text, prefix),
{
    if starts_with(text, prefix) {
        assert(text.subrange(0, prefix.len() as int)[at] == text[at]);
    }
}

/// Every setting is injected exactly once: whatever is supplied, the
/// environment has five entries, and each of the five names begins the entry
/// at its own position and no other.
pub proof fn lemma_each_setting_is_injected_once(port: Seq<char>, env: Option<EnvOverrides>)
    ensures
        env_texts(port, env).len() == 5,
        forall|i: int, j: int|
            0 <= i < 5 && 0 <= j < 5 ==> (starts_with(
                #[trigger] env_texts(port, env)[i],
                #[trigger] setting_keys()[j],
            ) <==> i == j),
{
    reveal_strlit("NEPHELIOS_PORT=");
    reveal_strlit("NEPHELIOS_URL=");
    reveal_strlit("NEPHELIOS_APPS_PORT=");
    reveal_strlit("LEAVE_SWARM=");
    reveal_strlit("ADVERTISE_ADDR=");
    let settings = env_texts(port, env);
    let keys = setting_keys();
    assert(starts_with(settings[0], keys[0])) by {
        assert(settings[0].subrange(0, keys[0].len() as int) =~= keys[0]);
    }
    lemma_other_prefix(settings[0], keys[1], 10);
    lemma_other_prefix(settings[0], keys[2], 10);
    lemma_other_prefix(settings[0], keys[3], 0);
    lemma_other_prefix(settings[0], keys[4], 0);
    assert(starts_with(settings[1], keys[1])) by {
        assert(settings[1].subrange(0, keys[1].len() as int) =~= keys[1]);
    }
    lemma_other_prefix(settings[1], keys[0], 10);
    lemma_other_prefix(settings[1], keys[2], 10);
    lemma_other_prefix(settings[1], keys[3], 0);
    lemma_other_prefix(settings[1], keys[4], 0);
    assert(starts_with(settings[2], keys[2])) by {
        assert(settings[2].subrange(0, keys[2].len() as int) =~= keys[2]);
    }
    lemma_other_prefix(settings[2], keys[0], 10);
    lemma_other_prefix(settings[2], keys[1], 10);
    lemma_other_prefix(settings[2], keys[3], 0);
    lemma_other_prefix(settings[2], keys[4], 0);
    assert(starts_with(settings[3], keys[3])) by {
        assert(settings[3].subrange(0, keys[3].len() as int) =~= keys[3]);
    }
    lemma_other_prefix(settings[3], keys[0], 0);
    lemma_other_prefix(settings[3], keys[1], 0);
    lemma_other_prefix(settings[3], keys[2], 0);
    lemma_other_prefix(settings[3], keys[4], 0);
    assert(starts_with(settings[4], keys[4])) by {
        assert(settings[4].subrange(0, keys[4].len() as int) =~= keys[4]);
    }
    lemma_other_prefix(settings[4], keys[0], 0);
    lemma_other_prefix(settings[4], keys[1], 0);
    lemma_other_prefix(settings[4], keys[2], 0);
    lemma_other_prefix(settings[4], keys[3], 0);
}

} // verus!
