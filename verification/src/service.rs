//! The description of the control-plane deployment, the requests it sends to
//! the engine and the reading of the engine's answers.

use crate::engine::{
    outcome_view, reply_outcome, ContainerListing, ContainerStatus, EngineReply, ErrorKind,
    ServiceError,
};
use crate::volume::{NepheliosVolume, VolumeView};
use vstd::prelude::*;

verus! {

/// Values from the environment that replace the defaults of the container's
/// own environment.
pub struct EnvOverrides {
    pub url: Option<String>,
    pub apps_port: Option<String>,
    pub leave_swarm: Option<String>,
    pub advertise_addr: Option<String>,
}

/// The control-plane deployment: one container, its image and its volumes.
pub struct NepheliosService {
    pub name: String,
    pub image: String,
    pub socket: String,
    pub volumes: Vec<NepheliosVolume>,
    pub exposed_port: String,
    pub env: Vec<String>,
}

/// A service as sequences of characters.
pub struct ServiceView {
    pub name: Seq<char>,
    pub image: Seq<char>,
    pub socket: Seq<char>,
    pub volumes: Seq<VolumeView>,
    pub exposed_port: Seq<char>,
    pub env: Seq<Seq<char>>,
}

/// The filters of a container query.
pub struct ContainerFilters {
    pub status: String,
    pub label: String,
}

/// The request that starts the container.
pub struct StartRequest {
    pub container: String,
    pub detach_keys: String,
}

/// What the engine is asked to create.
pub struct ContainerSpec {
    pub name: String,
    pub image: String,
    pub binds: Vec<String>,
    pub labels: Vec<(String, String)>,
    pub env: Vec<String>,
    pub exposed_ports: Vec<String>,
}

/// A container specification as sequences of characters.
pub struct ContainerSpecView {
    pub name: Seq<char>,
    pub image: Seq<char>,
    pub binds: Seq<Seq<char>>,
    pub labels: Seq<(Seq<char>, Seq<char>)>,
    pub env: Seq<Seq<char>>,
    pub exposed_ports: Seq<Seq<char>>,
}

/// The texts of a sequence of strings.
pub open spec fn texts(strings: Seq<String>) -> Seq<Seq<char>> {
    strings.map_values(|s: String| s@)
}

/// The views of a sequence of volumes.
pub open spec fn volume_views(volumes: Seq<NepheliosVolume>) -> Seq<VolumeView> {
    volumes.map_values(|v: NepheliosVolume| v@)
}

/// The texts of a sequence of pairs of strings.
pub open spec fn pair_texts(pairs: Seq<(String, String)>) -> Seq<(Seq<char>, Seq<char>)> {
    pairs.map_values(|p: (String, String)| (p.0@, p.1@))
}

/// The six volumes of the control plane, in the order in which they are provisioned.
pub open spec fn catalog() -> Seq<VolumeView> {
    seq![
        VolumeView { name: "grafana_data"@, mount_path: "/var/lib/nephelios/grafana"@ },
        VolumeView { name: "grafana_provisioning"@, mount_path: "/app/config/grafana"@ },
        VolumeView { name: "grafana_dashboard"@, mount_path: "/app/config/dashboards"@ },
        VolumeView { name: "prometheus_data"@, mount_path: "/app/prometheus"@ },
        VolumeView { name: "registry_data"@, mount_path: "/var/lib/nephelios/registry"@ },
        VolumeView { name: "nephelios_data"@, mount_path: "/app/config/prometheus"@ },
    ]
}

/// The text of an optional string, or the default where there is none.
pub open spec fn text_or(value: Option<String>, default: Seq<char>) -> Seq<char> {
    match value {
        Some(s) => s@,
        None => default,
    }
}

/// The environment of the container: the five settings in their fixed
/// order, each with the value supplied for it or, where none is, its default.
pub open spec fn env_texts(port: Seq<char>, env: Option<EnvOverrides>) -> Seq<Seq<char>> {
    seq![
        "NEPHELIOS_PORT="@ + port,
        "NEPHELIOS_URL="@ + match env {
            Some(e) => text_or(e.url, "http://localhost"@),
            None => "http://localhost"@,
        },
        "NEPHELIOS_APPS_PORT="@ + match env {
            Some(e) => text_or(e.apps_port, "5173"@),
            None => "5173"@,
        },
        "LEAVE_SWARM="@ + match env {
            Some(e) => text_or(e.leave_swarm, "false"@),
            None => "false"@,
        },
        "ADVERTISE_ADDR="@ + match env {
            Some(e) => text_or(e.advertise_addr, "127.0.0.1"@),
            None => "127.0.0.1"@,
        },
    ]
}

/// The identity label of a service of the given name.
pub open spec fn label_text(name: Seq<char>) -> Seq<char> {
    "com.nephelios.name="@ + name
}

/// The text of the status that a container query filters on.
pub open spec fn status_text(status: ContainerStatus) -> Seq<char> {
    match status {
        ContainerStatus::Running => "running"@,
        ContainerStatus::Exited => "exited"@,
    }
}

/// The bind mounts of the container: the engine's socket first, then each
/// volume in catalog order.
pub open spec fn bind_texts(socket: Seq<char>, volumes: Seq<VolumeView>) -> Seq<Seq<char>> {
    seq![socket + ":/var/run/docker.sock"@] + volumes.map_values(|v: VolumeView| v.bind())
}

impl View for NepheliosService {
    type V = ServiceView;

    open spec fn view(&self) -> ServiceView {
        ServiceView {
            name: self.name@,
            image: self.image@,
            socket: self.socket@,
            volumes: volume_views(self.volumes@),
            exposed_port: self.exposed_port@,
            env: texts(self.env@),
        }
    }
}

impl View for ContainerSpec {
    type V = ContainerSpecView;

    open spec fn view(&self) -> ContainerSpecView {
        ContainerSpecView {
            name: self.name@,
            image: self.image@,
            binds: texts(self.binds@),
            labels: pair_texts(self.labels@),
            env: texts(self.env@),
            exposed_ports: texts(self.exposed_ports@),
        }
    }
}

impl ServiceView {
    /// The image with its tag.
    pub open spec fn image_reference(self, version: Seq<char>) -> Seq<char> {
        self.image + ":"@ + version
    }

    /// What the engine is asked to create for this service at the given version.
    pub open spec fn container_spec(self, version: Seq<char>) -> ContainerSpecView {
        ContainerSpecView {
            name: self.name,
            image: self.image_reference(version),
            binds: bind_texts(self.socket, self.volumes),
            labels: seq![
                ("com.nephelios.name"@, self.name),
                (label_text(self.name), label_text(self.name)),
            ],
            env: self.env,
            exposed_ports: seq![self.exposed_port],
        }
    }
}

fn unwrap_or_text(value: Option<String>, default: &str) -> (r: String)
    ensures
        r@ == text_or(value, default@),
{
    match value {
        Some(s) => s,
        None => String::from_str(default),
    }
}

fn copy_texts(strings: &Vec<String>) -> (r: Vec<String>)
    ensures
        texts(r@) == texts(strings@),
{
    let mut out: Vec<String> = Vec::new();
    let mut i: usize = 0;
    while i < strings.len()
        invariant
            i <= strings.len(),
            out.len() == i,
            forall|k: int| 0 <= k < i ==> out@[k]@ == strings@[k]@,
        decreases strings.len() - i,
    {
        out.push(strings[i].clone());
        i += 1;
    }
    assert(texts(out@) =~= texts(strings@));
    out
}

impl NepheliosService {
    /// The service under its fixed name, image, socket and volume catalog. The
    /// exposed port is `3030/tcp` where none is given.
    pub fn new(exposed_port: Option<String>, env: Option<EnvOverrides>) -> (s: Self)
        ensures
            s@.name == "nephelios"@,
            s@.image == "zuhowks/nephelios"@,
            s@.socket == "/var/run/docker.sock"@,
            s@.volumes == catalog(),
            s@.exposed_port == text_or(exposed_port, "3030/tcp"@),
            s@.env == env_texts(text_or(exposed_port, "3030/tcp"@), env),
    {
        let port = unwrap_or_text(exposed_port, "3030/tcp");
        let mut volumes: Vec<NepheliosVolume> = Vec::new();
        volumes.push(NepheliosVolume::new("grafana_data", "/var/lib/nephelios/grafana"));
        volumes.push(NepheliosVolume::new("grafana_provisioning", "/app/config/grafana"));
        volumes.push(NepheliosVolume::new("grafana_dashboard", "/app/config/dashboards"));
        volumes.push(NepheliosVolume::new("prometheus_data", "/app/prometheus"));
        volumes.push(NepheliosVolume::new("registry_data", "/var/lib/nephelios/registry"));
        volumes.push(NepheliosVolume::new("nephelios_data", "/app/config/prometheus"));
        let given = match env {
            Some(e) => e,
            None => EnvOverrides {
                url: None,
                apps_port: None,
                leave_swarm: None,
                advertise_addr: None,
            },
        };
        let mut neph_env: Vec<String> = Vec::new();
        neph_env.push(String::from_str("NEPHELIOS_PORT=").concat(port.as_str()));
        let url = unwrap_or_text(given.url, "http://localhost");
        neph_env.push(String::from_str("NEPHELIOS_URL=").concat(url.as_str()));
        let apps_port = unwrap_or_text(given.apps_port, "5173");
        neph_env.push(String::from_str("NEPHELIOS_APPS_PORT=").concat(apps_port.as_str()));
        let leave_swarm = unwrap_or_text(given.leave_swarm, "false");
        neph_env.push(String::from_str("LEAVE_SWARM=").concat(leave_swarm.as_str()));
        let advertise = unwrap_or_text(given.advertise_addr, "127.0.0.1");
        neph_env.push(String::from_str("ADVERTISE_ADDR=").concat(advertise.as_str()));
        let s = Self {
            name: String::from_str("nephelios"),
            image: String::from_str("zuhowks/nephelios"),
            socket: String::from_str("/var/run/docker.sock"),
            volumes,
            exposed_port: port,
            env: neph_env,
        };
        assert(s@.volumes =~= catalog());
        assert(s@.env =~= env_texts(text_or(exposed_port, "3030/tcp"@), env));
        s
    }

    /// The identity label: the fixed key, an equals sign and the service's name.
    pub fn get_label(&self) -> (r: String)
        ensures
            r@ == label_text(self@.name),
    {
        String::from_str("com.nephelios.name=").concat(self.name.as_str())
    }

    /// The filters of the query for this service's container in the given status.
    pub fn container_request(&self, status: ContainerStatus) -> (r: ContainerFilters)
        ensures
            r.status@ == status_text(status),
            r.label@ == label_text(self@.name),
    {
        let status = match status {
            ContainerStatus::Running => String::from_str("running"),
            ContainerStatus::Exited => String::from_str("exited"),
        };
        ContainerFilters { status, label: self.get_label() }
    }

    /// Whether a container query found anything. A failed query counts as
    /// having found nothing.
    pub fn check_nephelios(&self, listing: ContainerListing) -> (r: bool)
        ensures
            r == listing.found(),
    {
        match listing {
            ContainerListing::Containers(n) => n > 0,
            ContainerListing::Failed => false,
        }
    }

    /// Whether the answer to the query for running containers says that the
    /// container runs.
    pub fn is_nephelios_running(&self, listing: ContainerListing) -> (r: bool)
        ensures
            r == listing.found(),
    {
        self.check_nephelios(listing)
    }

    /// Whether the answer to the query for exited containers says that the
    /// container exists and is stopped.
    pub fn is_nephelios_stopped(&self, listing: ContainerListing) -> (r: bool)
        ensures
            r == listing.found(),
    {
        self.check_nephelios(listing)
    }

    /// The image to pull: the repository, a colon and the version.
    pub fn pull_request(&self, version: &str) -> (r: String)
        ensures
            r@ == self@.image_reference(version@),
    {
        self.image.clone().concat(":").concat(version)
    }

    /// The request that starts the container, by its name.
    pub fn start_request(&self) -> (r: StartRequest)
        ensures
            r.container@ == self@.name,
            r.detach_keys@ == "ctrl-d"@,
    {
        StartRequest { container: self.name.clone(), detach_keys: String::from_str("ctrl-d") }
    }

    /// The outcome of connecting to the engine: a failure makes the engine
    /// unreachable and carries what the connection said.
    pub fn connect(&self, reply: EngineReply) -> (r: Result<(), ServiceError>)
        ensures
            outcome_view(r) == reply_outcome(reply, ErrorKind::EngineUnreachable),
    {
        reply.outcome(ErrorKind::EngineUnreachable)
    }

    /// The outcome of starting the container: a failure carries what the
    /// engine said.
    pub fn start(&self, reply: EngineReply) -> (r: Result<(), ServiceError>)
        ensures
            outcome_view(r) == reply_outcome(reply, ErrorKind::ContainerStartFailed),
    {
        reply.outcome(ErrorKind::ContainerStartFailed)
    }

    /// The name of the container to stop.
    pub fn stop_request(&self) -> (r: String)
        ensures
            r@ == self@.name,
    {
        self.name.clone()
    }

    /// The outcome of stopping the container: a failure carries what the
    /// engine said.
    pub fn stop(&self, reply: EngineReply) -> (r: Result<(), ServiceError>)
        ensures
            outcome_view(r) == reply_outcome(reply, ErrorKind::ContainerStopFailed),
    {
        reply.outcome(ErrorKind::ContainerStopFailed)
    }

    /// What the engine is asked to create: the container under the service's
    /// name, with the socket and the volumes bound, both labels, the
    /// environment and the exposed port.
    pub fn create_request(&self, version: &str) -> (r: ContainerSpec)
        ensures
            r@ == self@.container_spec(version@),
    {
        let label = self.get_label();
        let mut binds: Vec<String> = Vec::new();
        binds.push(self.socket.clone().concat(":/var/run/docker.sock"));
        let mut i: usize = 0;
        while i < self.volumes.len()
            invariant
                i <= self.volumes.len(),
                binds.len() == i + 1,
                binds@[0]@ == self@.socket + ":/var/run/docker.sock"@,
                forall|k: int| 0 <= k < i ==> binds@[k + 1]@ == self.volumes@[k]@.bind(),
            decreases self.volumes.len() - i,
        {
            binds.push(self.volumes[i].bind());
            i += 1;
        }
        let mut labels: Vec<(String, String)> = Vec::new();
        labels.push((String::from_str("com.nephelios.name"), self.name.clone()));
        labels.push((label.clone(), label));
        let mut exposed_ports: Vec<String> = Vec::new();
        exposed_ports.push(self.exposed_port.clone());
        let r = ContainerSpec {
            name: self.name.clone(),
            image: self.pull_request(version),
            binds,
            labels,
            env: copy_texts(&self.env),
            exposed_ports,
        };
        assert(r@.binds =~= bind_texts(self@.socket, self@.volumes));
        assert(r@.labels =~= self@.container_spec(version@).labels);
        assert(r@.exposed_ports =~= seq![self@.exposed_port]);
        r
    }

    /// The outcome of creating the container: a failure carries what the
    /// engine said.
    pub fn create(&self, reply: EngineReply) -> (r: Result<(), ServiceError>)
        ensures
            outcome_view(r) == reply_outcome(reply, ErrorKind::ContainerCreationFailed),
    {
        reply.outcome(ErrorKind::ContainerCreationFailed)
    }
}

} // verus!
