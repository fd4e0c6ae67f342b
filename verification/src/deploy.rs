//! Decisions of the deployment of a relay to Scaleway Serverless
//! Containers: the names it gives, the namespace it uses, the container it
//! asks for, and when it stops waiting.

use vstd::prelude::*;
use crate::ids::{is_lower_hex, is_simple_v4, random_uuid_simple};
use crate::text::{concat, str_eq};

verus! {

/// The regions offered for a deployment: identifier and label.
pub fn scaleway_regions() -> (v: Vec<(&'static str, &'static str)>)
    ensures
        v@.len() == 3,
        v@[0].0@ == "fr-par"@ && v@[0].1@ == "Paris (fr-par)"@,
        v@[1].0@ == "nl-ams"@ && v@[1].1@ == "Amsterdam (nl-ams)"@,
        v@[2].0@ == "pl-waw"@ && v@[2].1@ == "Warsaw (pl-waw)"@,
{
    vec![
        ("fr-par", "Paris (fr-par)"),
        ("nl-ams", "Amsterdam (nl-ams)"),
        ("pl-waw", "Warsaw (pl-waw)"),
    ]
}

/// The selection that stands for creating a new namespace.
pub open spec fn spec_create_new_selection() -> Seq<char> {
    "create_new"@
}

/// The namespace a deployment goes to.
#[derive(Debug)]
pub enum NamespaceChoice {
    /// Create a new namespace.
    CreateNew,
    /// Use the existing namespace with this identifier.
    Existing(String),
}

impl NamespaceChoice {
    /// Reads the selection made among the namespaces: `create_new` asks
    /// for a new one, anything else is the identifier of an existing one.
    pub fn from_selection(selection: &str) -> (c: NamespaceChoice)
        ensures
            selection@ == spec_create_new_selection() ==> c is CreateNew,
            selection@ != spec_create_new_selection() ==> (c matches NamespaceChoice::Existing(id)
                && id@ == selection@),
    {
        if str_eq(selection, "create_new") {
            NamespaceChoice::CreateNew
        } else {
            NamespaceChoice::Existing(String::from_str(selection))
        }
    }
}

/// The prefix of the names of namespaces and containers.
pub open spec fn spec_name_prefix() -> Seq<char> {
    "filen-relay-"@
}

/// `name` is the prefix followed by eight lowercase hexadecimal digits.
pub open spec fn is_generated_name(name: Seq<char>) -> bool {
    &&& name.len() == spec_name_prefix().len() + 8
    &&& name.take(spec_name_prefix().len() as int) == spec_name_prefix()
    &&& forall|i: int|
        spec_name_prefix().len() <= i < name.len() ==> is_lower_hex(#[trigger] name[i])
}

/// The name made from an identifier: `filen-relay-` followed by the
/// identifier's first eight characters.
pub fn resource_name_for(id: &str) -> (name: String)
    requires
        id@.len() >= 8,
    ensures
        name@ == "filen-relay-"@ + id@.take(8),
{
    let suffix = id.substring_char(0, 8);
    assert(suffix@ =~= id@.take(8));
    concat("filen-relay-", suffix)
}

/// Names made from identifiers are equal exactly when the identifiers'
/// first eight characters are, and those characters can be read back from
/// the name, after the prefix.
pub proof fn lemma_names_follow_ids(a: Seq<char>, b: Seq<char>)
    requires
        a.len() >= 8,
        b.len() >= 8,
    ensures
        ("filen-relay-"@ + a.take(8) == "filen-relay-"@ + b.take(8)) <==> (a.take(8) == b.take(8)),
        ("filen-relay-"@ + a.take(8)).subrange(
            "filen-relay-"@.len() as int,
            "filen-relay-"@.len() as int + 8,
        ) == a.take(8),
{
    let p = "filen-relay-"@;
    let na = p + a.take(8);
    let nb = p + b.take(8);
    assert(na.subrange(p.len() as int, p.len() as int + 8) =~= a.take(8));
    assert(nb.subrange(p.len() as int, p.len() as int + 8) =~= b.take(8));
}

/// A fresh name for a namespace or a container: `filen-relay-` followed by
/// the first eight digits of a random identifier.
pub fn generate_resource_name() -> (name: String)
    ensures
        is_generated_name(name@),
{
    let id = random_uuid_simple();
    let name = resource_name_for(id.as_str());
    proof {
        reveal_strlit("filen-relay-");
        assert(is_simple_v4(id@));
        assert(name@.take(12) =~= spec_name_prefix());
        assert forall|i: int| 12 <= i < name@.len() implies is_lower_hex(#[trigger] name@[i]) by {
            assert(name@[i] == id@[i - 12]);
        }
    }
    name
}

/// The image a relay of this version runs.
pub fn registry_image(version: &str) -> (image: String)
    ensures
        image@ == "ghcr.io/FilenCloudDienste/filen-relay:"@ + version@,
{
    concat("ghcr.io/FilenCloudDienste/filen-relay:", version)
}

/// The settings of the container a relay runs in.
#[derive(Debug)]
pub struct ContainerSettings {
    pub namespace_id: String,
    pub name: String,
    pub registry_image: String,
    pub min_scale: u32,
    pub max_scale: u32,
    pub port: u16,
    /// In thousandths of a CPU.
    pub cpu_limit: u32,
    /// In megabytes.
    pub memory_limit: u32,
    /// The name of the secret variable that carries the auth config.
    pub auth_config_variable: String,
    pub auth_config: String,
    /// The path the health check asks.
    pub health_check_path: String,
    pub health_check_failure_threshold: u32,
    pub health_check_interval: String,
}

/// `s` is the container of a relay of this version, named by
/// `generate_resource_name`, in this namespace, with this auth config.
pub open spec fn is_relay_container(
    s: ContainerSettings,
    namespace_id: Seq<char>,
    version: Seq<char>,
    auth_config: Seq<char>,
) -> bool {
    &&& s.namespace_id@ == namespace_id
    &&& is_generated_name(s.name@)
    &&& s.registry_image@ == "ghcr.io/FilenCloudDienste/filen-relay:"@ + version
    &&& s.min_scale == 0
    &&& s.max_scale == 1
    &&& s.port == 80
    &&& s.cpu_limit == 250
    &&& s.memory_limit == 256
    &&& s.auth_config_variable@ == "FILEN_RELAY_ADMIN_AUTH_CONFIG"@
    &&& s.auth_config@ == auth_config
    &&& s.health_check_path@ == "/api/ready"@
    &&& s.health_check_failure_threshold == 24
    &&& s.health_check_interval@ == "5s"@
}

impl ContainerSettings {
    /// The container of a relay: scaled to zero when idle and to one
    /// instance at most, listening on port 80, with a quarter CPU and
    /// 256 MB, the administrator's auth config as a secret, and a health
    /// check on `/api/ready` every five seconds that gives up after 24
    /// failures.
    pub fn for_relay(namespace_id: String, name: String, version: &str, auth_config: String) -> (s: ContainerSettings)
        ensures
            s.namespace_id == namespace_id,
            s.name == name,
            s.registry_image@ == "ghcr.io/FilenCloudDienste/filen-relay:"@ + version@,
            s.min_scale == 0,
            s.max_scale == 1,
            s.port == 80,
            s.cpu_limit == 250,
            s.memory_limit == 256,
            s.auth_config_variable@ == "FILEN_RELAY_ADMIN_AUTH_CONFIG"@,
            s.auth_config == auth_config,
            s.health_check_path@ == "/api/ready"@,
            s.health_check_failure_threshold == 24,
            s.health_check_interval@ == "5s"@,
    {
        ContainerSettings {
            namespace_id,
            name,
            registry_image: registry_image(version),
            min_scale: 0,
            max_scale: 1,
            port: 80,
            cpu_limit: 250,
            memory_limit: 256,
            auth_config_variable: String::from_str("FILEN_RELAY_ADMIN_AUTH_CONFIG"),
            auth_config,
            health_check_path: String::from_str("/api/ready"),
            health_check_failure_threshold: 24,
            health_check_interval: String::from_str("5s"),
        }
    }
}

/// What to do after reading a namespace's status while waiting for it.
#[derive(PartialEq, Eq, Structural, Clone, Copy, Debug)]
pub enum WaitStep {
    /// The namespace is ready: stop waiting.
    Ready,
    /// Show that the deployment is waiting, then wait and read again.
    ShowSpinnerAndWait,
    /// Wait and read again.
    Wait,
}

/// Decides the next step of waiting for a namespace, given its status and
/// how many times it has been read before. The spinner is shown once, on
/// the second read that finds the namespace not ready.
pub fn namespace_wait_step(status: &str, earlier_reads: u64) -> (w: WaitStep)
    ensures
        status@ == "ready"@ ==> w == WaitStep::Ready,
        status@ != "ready"@ && earlier_reads == 1 ==> w == WaitStep::ShowSpinnerAndWait,
        status@ != "ready"@ && earlier_reads != 1 ==> w == WaitStep::Wait,
{
    if str_eq(status, "ready") {
        WaitStep::Ready
    } else if earlier_reads == 1 {
        WaitStep::ShowSpinnerAndWait
    } else {
        WaitStep::Wait
    }
}

/// Where a deployed container is shown in the Scaleway console.
pub open spec fn spec_console_url(region: Seq<char>, namespace_id: Seq<char>, container_id: Seq<char>) -> Seq<char> {
    "https://console.scaleway.com/containers/namespaces/"@ + region + "/"@ + namespace_id
        + "/containers/"@ + container_id
}

/// The console URL names the deployment's region, namespace and container,
/// in that order, after the fixed prefix: each can be read back from it.
pub proof fn lemma_console_url_names_deployment(
    region: Seq<char>,
    namespace_id: Seq<char>,
    container_id: Seq<char>,
)
    ensures
        spec_console_url(region, namespace_id, container_id)
            == "https://console.scaleway.com/containers/namespaces/"@ + region + "/"@ + namespace_id
            + "/containers/"@ + container_id,
        ({
            let url = spec_console_url(region, namespace_id, container_id);
            let start = "https://console.scaleway.com/containers/namespaces/"@.len() as int;
            let r = region.len() as int;
            let n = namespace_id.len() as int;
            &&& url.subrange(start, start + r) == region
            &&& url[start + r] == '/'
            &&& url.subrange(start + r + 1, start + r + 1 + n) == namespace_id
            &&& url.subrange(url.len() - container_id.len(), url.len() as int) == container_id
        }),
{
    reveal_strlit("/");
    let p = "https://console.scaleway.com/containers/namespaces/"@;
    let url = spec_console_url(region, namespace_id, container_id);
    let start = p.len() as int;
    let r = region.len() as int;
    let n = namespace_id.len() as int;
    let a = p + region;
    let b = a + "/"@;
    let c = b + namespace_id;
    let d = c + "/containers/"@;
    assert(url == d + container_id);
    assert(url.subrange(start, start + r) =~= region);
    assert(url[start + r] == b[start + r]);
    assert(url.subrange(start + r + 1, start + r + 1 + n) =~= namespace_id);
    assert(url.subrange(url.len() - container_id.len(), url.len() as int) =~= container_id);
}

/// The message shown once a deployment is done.
pub open spec fn spec_deployed_message(console_url: Seq<char>, domain_name: Seq<char>) -> Seq<char> {
    "Deployed Filen Relay to Scaleway!\nView it in the Scaleway Console: "@ + console_url
        + "\nFilen Relay soon available at: https://"@ + domain_name
}

/// Where the deployed container is shown in the Scaleway console.
pub fn console_url(region: &str, namespace_id: &str, container_id: &str) -> (url: String)
    ensures
        url@ == "https://console.scaleway.com/containers/namespaces/"@ + region@ + "/"@
            + namespace_id@ + "/containers/"@ + container_id@,
        url@ == spec_console_url(region@, namespace_id@, container_id@),
{
    let a = concat("https://console.scaleway.com/containers/namespaces/", region);
    let b = concat(a.as_str(), "/");
    let c = concat(b.as_str(), namespace_id);
    let d = concat(c.as_str(), "/containers/");
    concat(d.as_str(), container_id)
}

/// The message shown once the deployment is done.
pub fn deployed_message(console_url: &str, domain_name: &str) -> (m: String)
    ensures
        m@ == spec_deployed_message(console_url@, domain_name@),
{
    let a = concat("Deployed Filen Relay to Scaleway!\nView it in the Scaleway Console: ", console_url);
    let b = concat(a.as_str(), "\nFilen Relay soon available at: https://");
    concat(b.as_str(), domain_name)
}

/// `selection` names a namespace a deployment can go to: a new one, or
/// one of those listed.
pub open spec fn spec_selection_known(namespace_ids: Seq<String>, selection: Seq<char>) -> bool {
    selection == spec_create_new_selection() || exists|i: int|
        0 <= i < namespace_ids.len() && (#[trigger] namespace_ids[i])@ == selection
}

/// Whether `selection` names a namespace a deployment can go to: a new one,
/// or one of `namespace_ids`.
pub fn selection_is_known(namespace_ids: &Vec<String>, selection: &str) -> (b: bool)
    ensures
        b == spec_selection_known(namespace_ids@, selection@),
{
    if str_eq(selection, "create_new") {
        return true;
    }
    let mut i: usize = 0;
    while i < namespace_ids.len()
        invariant
            i <= namespace_ids@.len(),
            selection@ != spec_create_new_selection(),
            forall|j: int| 0 <= j < i ==> (#[trigger] namespace_ids@[j])@ != selection@,
        decreases namespace_ids@.len() - i,
    {
        if str_eq(namespace_ids[i].as_str(), selection) {
            return true;
        }
        i = i + 1;
    }
    false
}

/// Where a deployment stands.
#[derive(PartialEq, Eq, Structural, Clone, Copy, Debug)]
pub enum DeployPhase {
    /// Waiting for a new namespace to be created.
    AwaitNamespaceCreated,
    /// Waiting for the namespace's status.
    AwaitNamespaceRead,
    /// Waiting for the container to be created.
    AwaitContainerCreated,
    /// Waiting for the container to be deployed.
    AwaitContainerDeployed,
    /// The deployment is done.
    Done,
}

/// What the deployment asks for next.
#[derive(Debug)]
pub enum DeployAction {
    /// Create a namespace with this name in this project.
    CreateNamespace { name: String, project_id: String },
    /// Read the status of this namespace.
    ReadNamespace(String),
    /// Wait a second, showing the spinner if asked to, then read the status
    /// of this namespace again.
    WaitThenReadNamespace { namespace_id: String, show_spinner: bool },
    /// The namespace is ready (stop the spinner): create this container.
    CreateContainer(ContainerSettings),
    /// Deploy the container with this identifier.
    DeployContainer(String),
    /// The deployment is done: show this message.
    Finish(String),
}

/// The answer to what the deployment asked for.
#[derive(Debug)]
pub enum DeployEvent {
    /// The namespace was created, with this identifier.
    NamespaceCreated(String),
    /// The namespace's status is this.
    NamespaceRead(String),
    /// The container was created, with this identifier and domain name.
    ContainerCreated { id: String, domain_name: String },
    /// The container was deployed.
    ContainerDeployed,
}

/// Whether `e` answers what a deployment in `phase` waits for.
pub open spec fn spec_deploy_accepts(phase: DeployPhase, e: DeployEvent) -> bool {
    match phase {
        DeployPhase::AwaitNamespaceCreated => e is NamespaceCreated,
        DeployPhase::AwaitNamespaceRead => e is NamespaceRead,
        DeployPhase::AwaitContainerCreated => e is ContainerCreated,
        DeployPhase::AwaitContainerDeployed => e is ContainerDeployed,
        DeployPhase::Done => false,
    }
}

/// A deployment of a relay into a namespace, step by step.
pub struct Deployment {
    phase: DeployPhase,
    namespace_id: String,
    earlier_reads: u64,
    container_id: String,
    domain_name: String,
    region: String,
    version: String,
    auth_config: String,
}

impl Deployment {
    pub closed spec fn phase(&self) -> DeployPhase {
        self.phase
    }

    /// The namespace the container goes to, once it is known.
    pub closed spec fn namespace_id(&self) -> Seq<char> {
        self.namespace_id@
    }

    /// How many times the namespace's status has been read.
    pub closed spec fn earlier_reads(&self) -> u64 {
        self.earlier_reads
    }

    pub closed spec fn container_id(&self) -> Seq<char> {
        self.container_id@
    }

    pub closed spec fn domain_name(&self) -> Seq<char> {
        self.domain_name@
    }

    pub closed spec fn region(&self) -> Seq<char> {
        self.region@
    }

    pub closed spec fn version(&self) -> Seq<char> {
        self.version@
    }

    pub closed spec fn auth_config(&self) -> Seq<char> {
        self.auth_config@
    }

    /// Where the deployment stands.
    pub fn current_phase(&self) -> (p: DeployPhase)
        ensures
            p == self.phase(),
    {
        self.phase
    }

    /// Starts a deployment to the namespace chosen by `selection`. Choosing
    /// `create_new` asks for a namespace to be created, with a generated
    /// name, in the project; choosing a listed namespace asks for its
    /// status. Only here is a namespace ever asked to be created.
    pub fn start(
        namespace_ids: &Vec<String>,
        selection: &str,
        project_id: &str,
        region: String,
        version: String,
        auth_config: String,
    ) -> (r: (Deployment, DeployAction))
        requires
            spec_selection_known(namespace_ids@, selection@),
        ensures
            r.0.region() == region@,
            r.0.version() == version@,
            r.0.auth_config() == auth_config@,
            selection@ == spec_create_new_selection() ==> {
                &&& r.0.phase() == DeployPhase::AwaitNamespaceCreated
                &&& r.1 matches DeployAction::CreateNamespace { name, project_id: p } && is_generated_name(name@)
                    && p@ == project_id@
            },
            selection@ != spec_create_new_selection() ==> {
                &&& r.0.phase() == DeployPhase::AwaitNamespaceRead
                &&& r.0.namespace_id() == selection@
                &&& r.0.earlier_reads() == 0
                &&& r.1 matches DeployAction::ReadNamespace(n) && n@ == selection@
            },
    {
        match NamespaceChoice::from_selection(selection) {
            NamespaceChoice::CreateNew => {
                let d = Deployment {
                    phase: DeployPhase::AwaitNamespaceCreated,
                    namespace_id: String::new(),
                    earlier_reads: 0,
                    container_id: String::new(),
                    domain_name: String::new(),
                    region,
                    version,
                    auth_config,
                };
                let action = DeployAction::CreateNamespace {
                    name: generate_resource_name(),
                    project_id: String::from_str(project_id),
                };
                (d, action)
            },
            NamespaceChoice::Existing(id) => {
                let action = DeployAction::ReadNamespace(id.clone());
                let d = Deployment {
                    phase: DeployPhase::AwaitNamespaceRead,
                    namespace_id: id,
                    earlier_reads: 0,
                    container_id: String::new(),
                    domain_name: String::new(),
                    region,
                    version,
                    auth_config,
                };
                (d, action)
            },
        }
    }

    /// Takes the answer to what the deployment asked for. A new namespace
    /// is read until a read finds it `ready`; only then is the container
    /// asked for, in that namespace; it is then deployed, and the deployment
    /// finishes with the console URL and domain name. No namespace is ever
    /// asked to be created here.
    pub fn advance(&mut self, event: DeployEvent) -> (a: DeployAction)
        requires
            spec_deploy_accepts(old(self).phase(), event),
        ensures
            final(self).region() == old(self).region(),
            final(self).version() == old(self).version(),
            final(self).auth_config() == old(self).auth_config(),
            !(a is CreateNamespace),
            a is CreateContainer ==> old(self).phase() == DeployPhase::AwaitNamespaceRead,
            a is CreateContainer ==> (event matches DeployEvent::NamespaceRead(st) && st@ == "ready"@),
            old(self).phase() != DeployPhase::AwaitNamespaceCreated ==> final(self).namespace_id()
                == old(self).namespace_id(),
            match event {
                DeployEvent::NamespaceCreated(id) => {
                    &&& final(self).phase() == DeployPhase::AwaitNamespaceRead
                    &&& final(self).namespace_id() == id@
                    &&& final(self).earlier_reads() == 0
                    &&& a matches DeployAction::ReadNamespace(n) && n@ == id@
                },
                DeployEvent::NamespaceRead(st) => if st@ == "ready"@ {
                    &&& final(self).phase() == DeployPhase::AwaitContainerCreated
                    &&& a matches DeployAction::CreateContainer(c) && is_relay_container(
                        c,
                        old(self).namespace_id(),
                        old(self).version(),
                        old(self).auth_config(),
                    )
                } else {
                    &&& final(self).phase() == DeployPhase::AwaitNamespaceRead
                    &&& final(self).earlier_reads() == if old(self).earlier_reads() < u64::MAX {
                        (old(self).earlier_reads() + 1) as u64
                    } else {
                        old(self).earlier_reads()
                    }
                    &&& a matches DeployAction::WaitThenReadNamespace { namespace_id, show_spinner }
                        && namespace_id@ == old(self).namespace_id() && show_spinner == (
                    old(self).earlier_reads() == 1)
                },
                DeployEvent::ContainerCreated { id, domain_name } => {
                    &&& final(self).phase() == DeployPhase::AwaitContainerDeployed
                    &&& final(self).container_id() == id@
                    &&& final(self).domain_name() == domain_name@
                    &&& a matches DeployAction::DeployContainer(c) && c@ == id@
                },
                DeployEvent::ContainerDeployed => {
                    &&& final(self).phase() == DeployPhase::Done
                    &&& a matches DeployAction::Finish(m) && m@ == spec_deployed_message(
                        spec_console_url(
                            old(self).region(),
                            old(self).namespace_id(),
                            old(self).container_id(),
                        ),
                        old(self).domain_name(),
                    )
                },
            },
    {
        match event {
            DeployEvent::NamespaceCreated(id) => {
                self.namespace_id = id;
                self.earlier_reads = 0;
                self.phase = DeployPhase::AwaitNamespaceRead;
                DeployAction::ReadNamespace(self.namespace_id.clone())
            },
            DeployEvent::NamespaceRead(status) => {
                match namespace_wait_step(status.as_str(), self.earlier_reads) {
                    WaitStep::Ready => {
                        self.phase = DeployPhase::AwaitContainerCreated;
                        let settings = ContainerSettings::for_relay(
                            self.namespace_id.clone(),
                            generate_resource_name(),
                            self.version.as_str(),
                            self.auth_config.clone(),
                        );
                        DeployAction::CreateContainer(settings)
                    },
                    step => {
                        let show_spinner = step == WaitStep::ShowSpinnerAndWait;
                        if self.earlier_reads < u64::MAX {
                            self.earlier_reads = self.earlier_reads + 1;
                        }
                        DeployAction::WaitThenReadNamespace {
                            namespace_id: self.namespace_id.clone(),
                            show_spinner,
                        }
                    },
                }
            },
            DeployEvent::ContainerCreated { id, domain_name } => {
                self.container_id = id;
                self.domain_name = domain_name;
                self.phase = DeployPhase::AwaitContainerDeployed;
                DeployAction::DeployContainer(self.container_id.clone())
            },
            DeployEvent::ContainerDeployed => {
                let url = console_url(
                    self.region.as_str(),
                    self.namespace_id.as_str(),
                    self.container_id.as_str(),
                );
                self.phase = DeployPhase::Done;
                DeployAction::Finish(deployed_message(url.as_str(), self.domain_name.as_str()))
            },
        }
    }
}

} // verus!
