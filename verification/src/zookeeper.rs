//! The coordination ensemble: one per cluster. Its configuration is resolved
//! from the declared overrides and rendered as four manifests: the properties
//! as a config map, a headless service for the members, a service for the
//! clients, and the stateful set itself.
//!
//! The config map is named after a checksum of the properties, so that any
//! change of a property gives the stateful set another volume to mount.

use vstd::prelude::*;
use vstd::string::*;
use crate::canon::{canonical, canonical_order};
use crate::digest::{calculate_hash, checksum};
use crate::json::{flag, items_view, no_docs, number, owned_text, push_doc, text, Doc, Json};
use crate::manifest::{
    claim_templates, claim_templates_doc, client_service, client_service_doc, container_port,
    container_port_doc, exec_action, exec_action_doc, image_string, image_text, is_manifest,
    labels, labels_doc, lemma_manifest_identity, manifest, manifest_doc, memory_string,
    memory_text, probe, probe_doc, resources, resources_doc, selector, selector_doc,
    service_port, service_port_doc, storage_string, storage_text, strategy, strategy_doc,
    template_metadata, template_metadata_doc, volume_mount, volume_mount_doc,
    CONFLUENT_ZOOKEEPER_IMAGE, ZOOKEEPER_CLIENT_SERVICE_NAME,
};
use crate::model::{opt_view, ZookeeperConfig, ZookeeperConfigView};
use crate::text::{decimal, decimal_string, join2, join3, pairs_view, push_pair};

verus! {

pub const DEFAULT_ZOOKEEPER_MAX_HEAP: u64 = 512;

pub const DEFAULT_ZOOKEEPER_STORAGE_SIZE: u64 = 1024;

pub const DEFAULT_ZOOKEEPER_REPLICAS: usize = 3;

/// The version of the ensemble's image where none is asked for.
pub const DEFAULT_ZOOKEEPER_VERSION: &'static str = "5.3.3";

/// The name of the ensemble, and of its stateful set.
pub const ZOOKEEPER_NAME: &'static str = "zookeeper-noria";

/// The headless service under which each member is addressed.
pub open spec fn nodes_service_name(name: Seq<char>) -> Seq<char> {
    name + "-nodes"@
}

/// The service that clients connect to.
pub open spec fn client_service_name(name: Seq<char>) -> Seq<char> {
    name + "-client"@
}

/// The config map that holds the properties with the given checksum.
pub open spec fn properties_name(name: Seq<char>, chksum: Seq<char>) -> Seq<char> {
    name + "-properties-"@ + chksum
}

/// A resolved ensemble configuration.
#[derive(Debug, Clone, PartialEq, Eq)]
pub struct Config {
    pub name: String,
    pub version: String,
    pub max_heap: u64,
    pub storage_size: u64,
    pub replicas: usize,
    pub properties: Vec<(String, String)>,
}

pub struct ConfigView {
    pub name: Seq<char>,
    pub version: Seq<char>,
    pub max_heap: u64,
    pub storage_size: u64,
    pub replicas: usize,
    pub properties: Seq<(Seq<char>, Seq<char>)>,
}

impl View for Config {
    type V = ConfigView;

    open spec fn view(&self) -> ConfigView {
        ConfigView {
            name: self.name@,
            version: self.version@,
            max_heap: self.max_heap,
            storage_size: self.storage_size,
            replicas: self.replicas,
            properties: pairs_view(self.properties@),
        }
    }
}

/// The properties that every ensemble starts from.
pub open spec fn base_properties() -> Seq<(Seq<char>, Seq<char>)> {
    Seq::empty().push(("autopurge.purgeInterval"@, "1"@)).push(("tickTime"@, "2000"@)).push(
        ("initLimit"@, "5"@),
    ).push(("syncLimit"@, "2"@)).push(("dataDir"@, "/var/lib/zookeeper"@)).push(
        ("clientPort"@, "2181"@),
    ).push(("4lw.commands.whitelist"@, "stat, ruok, conf, isro"@))
}

/// The property that tells the ensemble of its member `index`: under
/// `server.` and the member's number counted from one, the member's address
/// with the peer port and the election port.
pub open spec fn peer_property(name: Seq<char>, index: int) -> (Seq<char>, Seq<char>) {
    (
        "server."@ + decimal((index + 1) as nat),
        name + "-"@ + decimal(index as nat) + "."@ + nodes_service_name(name) + ":2888:3888"@,
    )
}

/// One peer property for each of `replicas` members, in their order.
pub open spec fn peer_properties(name: Seq<char>, replicas: nat) -> Seq<(Seq<char>, Seq<char>)> {
    Seq::new(replicas, |i: int| peer_property(name, i))
}

/// The declared additional properties in their canonical order.
pub open spec fn additional_properties(z: Option<ZookeeperConfigView>) -> Seq<
    (Seq<char>, Seq<char>),
> {
    match z {
        Some(c) => match c.additional_properties {
            Some(props) => canonical(props),
            None => Seq::empty(),
        },
        None => Seq::empty(),
    }
}

/// The full property list: the base, then the peers, then what was declared.
pub open spec fn resolved_properties(
    name: Seq<char>,
    replicas: nat,
    additional: Seq<(Seq<char>, Seq<char>)>,
) -> Seq<(Seq<char>, Seq<char>)> {
    base_properties() + peer_properties(name, replicas) + additional
}

pub open spec fn resolved_max_heap(z: Option<ZookeeperConfigView>) -> u64 {
    match z {
        Some(c) => match c.max_heap {
            Some(m) => m,
            None => DEFAULT_ZOOKEEPER_MAX_HEAP,
        },
        None => DEFAULT_ZOOKEEPER_MAX_HEAP,
    }
}

pub open spec fn resolved_storage_size(z: Option<ZookeeperConfigView>) -> u64 {
    match z {
        Some(c) => match c.storage_size {
            Some(m) => m,
            None => DEFAULT_ZOOKEEPER_STORAGE_SIZE,
        },
        None => DEFAULT_ZOOKEEPER_STORAGE_SIZE,
    }
}

pub open spec fn resolved_replicas(z: Option<ZookeeperConfigView>) -> usize {
    match z {
        Some(c) => match c.replicas {
            Some(n) => n,
            None => DEFAULT_ZOOKEEPER_REPLICAS,
        },
        None => DEFAULT_ZOOKEEPER_REPLICAS,
    }
}

pub open spec fn resolved_version(z: Option<ZookeeperConfigView>) -> Seq<char> {
    match z {
        Some(c) => match c.version {
            Some(v) => v,
            None => DEFAULT_ZOOKEEPER_VERSION@,
        },
        None => DEFAULT_ZOOKEEPER_VERSION@,
    }
}

/// The configuration that the declared overrides resolve to: each figure is
/// the override where there is one and the default where there is none.
pub open spec fn resolve(z: Option<ZookeeperConfigView>) -> ConfigView {
    ConfigView {
        name: ZOOKEEPER_NAME@,
        version: resolved_version(z),
        max_heap: resolved_max_heap(z),
        storage_size: resolved_storage_size(z),
        replicas: resolved_replicas(z),
        properties: resolved_properties(
            ZOOKEEPER_NAME@,
            resolved_replicas(z) as nat,
            additional_properties(z),
        ),
    }
}

/// The properties as the ensemble reads them: a line `key=value` for each.
pub open spec fn render_properties(props: Seq<(Seq<char>, Seq<char>)>) -> Seq<char>
    decreases props.len(),
{
    if props.len() == 0 {
        Seq::empty()
    } else {
        render_properties(props.drop_last()) + props.last().0 + "="@ + props.last().1 + "\n"@
    }
}

pub open spec fn ensemble_labels_doc() -> Doc {
    labels_doc("zookeeper"@, "noria"@)
}

pub open spec fn config_map_doc(name: Seq<char>, namespace: Seq<char>, rendered: Seq<char>) -> Doc {
    manifest_doc(
        "v1"@,
        "ConfigMap"@,
        name,
        namespace,
        "data"@,
        Doc::object().with("zookeeper.properties"@, Doc::Text(rendered)),
    )
}

/// The headless service: it gives each member a name of its own, also before
/// the member is ready, and publishes all three ports.
pub open spec fn nodes_service_doc(name: Seq<char>, namespace: Seq<char>) -> Doc {
    manifest_doc(
        "v1"@,
        "Service"@,
        nodes_service_name(name),
        namespace,
        "spec"@,
        Doc::object().with(
            "ports"@,
            Doc::list().item(service_port_doc(2181, "clients"@, 2181)).item(
                service_port_doc(2888, "clustering"@, 2888),
            ).item(service_port_doc(3888, "leader-election"@, 3888)),
        ).with("publishNotReadyAddresses"@, Doc::Bool(true)).with(
            "clusterIP"@,
            Doc::Text("None"@),
        ).with("sessionAffinity"@, Doc::Text("None"@)).with("selector"@, ensemble_labels_doc()),
    )
}

/// The script that gives a member its identity: its ordinal, taken from the
/// end of its host name, plus one.
pub open spec fn init_script() -> Seq<char> {
    "set -ex\n                        [[ `hostname` =~ -([0-9]+)$ ]] || exit 1\n                        echo $((BASH_REMATCH[1] + 1)) > /var/lib/zookeeper/myid"@
}

/// The check that asks a member whether it is well, in the ensemble's own
/// four-letter words.
pub open spec fn liveness_line() -> Seq<char> {
    "[[ \"$(echo ruok | nc 127.0.0.1 2181)\" = \"imok\" ]]"@
}

pub open spec fn init_container_doc(version: Seq<char>) -> Doc {
    Doc::object().with("name"@, Doc::Text("init-zookeeper"@)).with(
        "image"@,
        Doc::Text(image_text(CONFLUENT_ZOOKEEPER_IMAGE@, version)),
    ).with(
        "command"@,
        Doc::list().item(Doc::Text("bash"@)).item(Doc::Text("-c"@)).item(Doc::Text(init_script())),
    ).with("volumeMounts"@, Doc::list().item(volume_mount_doc("/var/lib/zookeeper"@, "data"@)))
}

pub open spec fn heap_option(max_heap: u64) -> Seq<char> {
    "-Xmx"@ + decimal(max_heap as nat) + "m"@
}

pub open spec fn container_doc(max_heap: u64) -> Doc {
    Doc::object().with(
        "command"@,
        Doc::list().item(Doc::Text("/usr/bin/zookeeper-server-start"@)),
    ).with("args"@, Doc::list().item(Doc::Text("/etc/kafka/zookeeper.properties"@))).with(
        "env"@,
        Doc::list().item(
            Doc::object().with("name"@, Doc::Text("KAFKA_HEAP_OPTS"@)).with(
                "value"@,
                Doc::Text(heap_option(max_heap)),
            ),
        ),
    ).with("image"@, Doc::Text(CONFLUENT_ZOOKEEPER_IMAGE@)).with(
        "imagePullPolicy"@,
        Doc::Text("IfNotPresent"@),
    ).with("name"@, Doc::Text("zookeeper"@)).with(
        "ports"@,
        Doc::list().item(container_port_doc(2181, "clients"@)).item(
            container_port_doc(2888, "clustering"@),
        ).item(container_port_doc(3888, "leader-election"@)),
    ).with("resources"@, resources_doc(memory_text(max_heap))).with(
        "livenessProbe"@,
        probe_doc("exec"@, exec_action_doc(liveness_line()), 60),
    ).with(
        "volumeMounts"@,
        Doc::list().item(volume_mount_doc("/var/lib/zookeeper"@, "data"@)).item(
            Doc::object().with("mountPath"@, Doc::Text("/etc/kafka/zookeeper.properties"@)).with(
                "subPath"@,
                Doc::Text("zookeeper.properties"@),
            ).with("name"@, Doc::Text("properties"@)),
        ),
    )
}

pub open spec fn pod_doc(c: ConfigView, config_map: Seq<char>) -> Doc {
    Doc::object().with("initContainers"@, Doc::list().item(init_container_doc(c.version))).with(
        "containers"@,
        Doc::list().item(container_doc(c.max_heap)),
    ).with(
        "volumes"@,
        Doc::list().item(
            Doc::object().with("name"@, Doc::Text("properties"@)).with(
                "configMap"@,
                Doc::object().with("name"@, Doc::Text(config_map)),
            ),
        ),
    )
}

/// The stateful set: members start side by side, and a changed set is rolled
/// only when an operator deletes the pods.
pub open spec fn stateful_set_doc(
    c: ConfigView,
    namespace: Seq<char>,
    config_map: Seq<char>,
) -> Doc {
    manifest_doc(
        "apps/v1"@,
        "StatefulSet"@,
        c.name,
        namespace,
        "spec"@,
        Doc::object().with("podManagementPolicy"@, Doc::Text("Parallel"@)).with(
            "replicas"@,
            Doc::Num(c.replicas as int),
        ).with("serviceName"@, Doc::Text(nodes_service_name(c.name))).with(
            "selector"@,
            selector_doc(ensemble_labels_doc()),
        ).with(
            "template"@,
            Doc::object().with(
                "metadata"@,
                template_metadata_doc(c.name, ensemble_labels_doc()),
            ).with("spec"@, pod_doc(c, config_map)),
        ).with("updateStrategy"@, strategy_doc("OnDelete"@)).with(
            "volumeClaimTemplates"@,
            claim_templates_doc(storage_text(c.storage_size)),
        ),
    )
}

/// The four manifests of the ensemble, where `chksum` is the checksum that
/// names the config map.
pub open spec fn children_docs(c: ConfigView, namespace: Seq<char>, chksum: Seq<char>) -> Seq<Doc> {
    Seq::empty().push(
        config_map_doc(
            properties_name(c.name, chksum),
            namespace,
            render_properties(c.properties),
        ),
    ).push(nodes_service_doc(c.name, namespace)).push(
        client_service_doc(
            client_service_name(c.name),
            namespace,
            service_port_doc(2181, "clients"@, 2181),
            ensemble_labels_doc(),
        ),
    ).push(stateful_set_doc(c, namespace, properties_name(c.name, chksum)))
}

/// The ensemble's manifests by kind and name: the config map under the name
/// with the checksum, the two services, and the stateful set under the
/// ensemble's own name, all in `namespace`.
pub proof fn lemma_children_identity(c: ConfigView, namespace: Seq<char>, chksum: Seq<char>)
    ensures
        children_docs(c, namespace, chksum).len() == 4,
        is_manifest(
            children_docs(c, namespace, chksum)[0],
            "v1"@,
            "ConfigMap"@,
            properties_name(c.name, chksum),
            namespace,
        ),
        is_manifest(
            children_docs(c, namespace, chksum)[1],
            "v1"@,
            "Service"@,
            nodes_service_name(c.name),
            namespace,
        ),
        is_manifest(
            children_docs(c, namespace, chksum)[2],
            "v1"@,
            "Service"@,
            client_service_name(c.name),
            namespace,
        ),
        is_manifest(
            children_docs(c, namespace, chksum)[3],
            "apps/v1"@,
            "StatefulSet"@,
            c.name,
            namespace,
        ),
{
    let docs = children_docs(c, namespace, chksum);
    lemma_manifest_identity(
        "v1"@,
        "ConfigMap"@,
        properties_name(c.name, chksum),
        namespace,
        "data"@,
        docs[0]->Object_0.last().1,
    );
    lemma_manifest_identity(
        "v1"@,
        "Service"@,
        nodes_service_name(c.name),
        namespace,
        "spec"@,
        docs[1]->Object_0.last().1,
    );
    lemma_manifest_identity(
        "v1"@,
        "Service"@,
        client_service_name(c.name),
        namespace,
        "spec"@,
        docs[2]->Object_0.last().1,
    );
    lemma_manifest_identity(
        "apps/v1"@,
        "StatefulSet"@,
        c.name,
        namespace,
        "spec"@,
        docs[3]->Object_0.last().1,
    );
}

/// The service that the workloads are told to coordinate through is the
/// ensemble's client service.
pub proof fn lemma_coordinator_is_the_client_service()
    ensures
        ZOOKEEPER_CLIENT_SERVICE_NAME@ == client_service_name(ZOOKEEPER_NAME@),
{
    reveal_strlit("zookeeper-noria-client");
    reveal_strlit("zookeeper-noria");
    reveal_strlit("-client");
    assert(ZOOKEEPER_CLIENT_SERVICE_NAME@ =~= ZOOKEEPER_NAME@ + "-client"@);
}

fn base_property_list() -> (props: Vec<(String, String)>)
    ensures
        pairs_view(props@) == base_properties(),
{
    let mut props: Vec<(String, String)> = Vec::new();
    assert(pairs_view(props@) =~= Seq::empty());
    push_pair(&mut props, "autopurge.purgeInterval".to_owned(), "1".to_owned());
    push_pair(&mut props, "tickTime".to_owned(), "2000".to_owned());
    push_pair(&mut props, "initLimit".to_owned(), "5".to_owned());
    push_pair(&mut props, "syncLimit".to_owned(), "2".to_owned());
    push_pair(&mut props, "dataDir".to_owned(), "/var/lib/zookeeper".to_owned());
    push_pair(&mut props, "clientPort".to_owned(), "2181".to_owned());
    push_pair(&mut props, "4lw.commands.whitelist".to_owned(), "stat, ruok, conf, isro".to_owned());
    props
}

fn peer_pair(name: &str, index: usize) -> (pair: (String, String))
    requires
        index < usize::MAX,
    ensures
        (pair.0@, pair.1@) == peer_property(name@, index as int),
{
    let key = join2("server.", decimal_string((index + 1) as u128).as_str());
    let mut value = join2(name, "-");
    value.append(decimal_string(index as u128).as_str());
    value.append(".");
    value.append(join2(name, "-nodes").as_str());
    value.append(":2888:3888");
    (key, value)
}

/// Resolves the ensemble's configuration from what was declared.
pub fn create_config(zookeeper: &Option<ZookeeperConfig>) -> (config: Config)
    ensures
        config@ == resolve(opt_view(*zookeeper)),
{
    let name = ZOOKEEPER_NAME;
    let max_heap = match zookeeper {
        Some(ZookeeperConfig { max_heap: Some(m), .. }) => *m,
        _ => DEFAULT_ZOOKEEPER_MAX_HEAP,
    };
    let storage_size = match zookeeper {
        Some(ZookeeperConfig { storage_size: Some(m), .. }) => *m,
        _ => DEFAULT_ZOOKEEPER_STORAGE_SIZE,
    };
    let replicas = match zookeeper {
        Some(ZookeeperConfig { replicas: Some(n), .. }) => *n,
        _ => DEFAULT_ZOOKEEPER_REPLICAS,
    };
    let version = match zookeeper {
        Some(ZookeeperConfig { version: Some(v), .. }) => v.clone(),
        _ => DEFAULT_ZOOKEEPER_VERSION.to_owned(),
    };
    let mut properties = base_property_list();
    let mut n: usize = 0;
    assert(pairs_view(properties@) =~= base_properties() + peer_properties(name@, 0));
    while n < replicas
        invariant
            n <= replicas,
            pairs_view(properties@) == base_properties() + peer_properties(name@, n as nat),
        decreases replicas - n,
    {
        let pair = peer_pair(name, n);
        push_pair(&mut properties, pair.0, pair.1);
        assert(pairs_view(properties@) =~= base_properties() + peer_properties(
            name@,
            (n + 1) as nat,
        ));
        n = n + 1;
    }
    match zookeeper {
        Some(ZookeeperConfig { additional_properties: Some(props), .. }) => {
            let mut sorted = canonical_order(props);
            let ghost head = pairs_view(properties@);
            let ghost tail = pairs_view(sorted@);
            properties.append(&mut sorted);
            assert(pairs_view(properties@) =~= head + tail);
        },
        _ => {
            assert(pairs_view(properties@) =~= pairs_view(properties@) + Seq::empty());
        },
    }
    Config { name: name.to_owned(), version, max_heap, storage_size, replicas, properties }
}

fn render_property_lines(props: &Vec<(String, String)>) -> (s: String)
    ensures
        s@ == render_properties(pairs_view(props@)),
{
    let mut s = String::new();
    let n = props.len();
    let mut i: usize = 0;
    assert(pairs_view(props@).subrange(0, 0) =~= Seq::empty());
    while i < n
        invariant
            n == props@.len(),
            i <= n,
            s@ == render_properties(pairs_view(props@).subrange(0, i as int)),
        decreases n - i,
    {
        proof {
            let upto = pairs_view(props@).subrange(0, i + 1);
            assert(upto.drop_last() =~= pairs_view(props@).subrange(0, i as int));
            assert(upto.last() == pairs_view(props@)[i as int]);
        }
        s.append(props[i].0.as_str());
        s.append("=");
        s.append(props[i].1.as_str());
        s.append("\n");
        i = i + 1;
    }
    assert(pairs_view(props@).subrange(0, n as int) =~= pairs_view(props@));
    s
}

fn ensemble_labels() -> (j: Json)
    ensures
        j@ == ensemble_labels_doc(),
{
    labels("zookeeper", "noria")
}

fn config_map(name: &str, namespace: &str, rendered: String) -> (j: Json)
    ensures
        j@ == config_map_doc(name@, namespace@, rendered@),
{
    manifest(
        "v1",
        "ConfigMap",
        name,
        namespace,
        "data",
        Json::object().with("zookeeper.properties", owned_text(rendered)),
    )
}

fn nodes_service(name: &str, namespace: &str) -> (j: Json)
    ensures
        j@ == nodes_service_doc(name@, namespace@),
{
    manifest(
        "v1",
        "Service",
        join2(name, "-nodes").as_str(),
        namespace,
        "spec",
        Json::object().with(
            "ports",
            Json::list().item(service_port(2181, "clients", 2181)).item(
                service_port(2888, "clustering", 2888),
            ).item(service_port(3888, "leader-election", 3888)),
        ).with("publishNotReadyAddresses", flag(true)).with("clusterIP", text("None")).with(
            "sessionAffinity",
            text("None"),
        ).with("selector", ensemble_labels()),
    )
}

fn init_container(version: &str) -> (j: Json)
    ensures
        j@ == init_container_doc(version@),
{
    Json::object().with("name", text("init-zookeeper")).with(
        "image",
        owned_text(image_string(CONFLUENT_ZOOKEEPER_IMAGE, version)),
    ).with(
        "command",
        Json::list().item(text("bash")).item(text("-c")).item(
            text(
                "set -ex\n                        [[ `hostname` =~ -([0-9]+)$ ]] || exit 1\n                        echo $((BASH_REMATCH[1] + 1)) > /var/lib/zookeeper/myid",
            ),
        ),
    ).with("volumeMounts", Json::list().item(volume_mount("/var/lib/zookeeper", "data")))
}

fn heap_option_string(max_heap: u64) -> (s: String)
    ensures
        s@ == heap_option(max_heap),
{
    let mut s = join2("-Xmx", decimal_string(max_heap as u128).as_str());
    s.append("m");
    s
}

fn container(max_heap: u64) -> (j: Json)
    ensures
        j@ == container_doc(max_heap),
{
    Json::object().with("command", Json::list().item(text("/usr/bin/zookeeper-server-start"))).with(
        "args",
        Json::list().item(text("/etc/kafka/zookeeper.properties")),
    ).with(
        "env",
        Json::list().item(
            Json::object().with("name", text("KAFKA_HEAP_OPTS")).with(
                "value",
                owned_text(heap_option_string(max_heap)),
            ),
        ),
    ).with("image", text(CONFLUENT_ZOOKEEPER_IMAGE)).with(
        "imagePullPolicy",
        text("IfNotPresent"),
    ).with("name", text("zookeeper")).with(
        "ports",
        Json::list().item(container_port(2181, "clients")).item(
            container_port(2888, "clustering"),
        ).item(container_port(3888, "leader-election")),
    ).with("resources", resources(memory_string(max_heap).as_str())).with(
        "livenessProbe",
        probe("exec", exec_action("[[ \"$(echo ruok | nc 127.0.0.1 2181)\" = \"imok\" ]]"), 60),
    ).with(
        "volumeMounts",
        Json::list().item(volume_mount("/var/lib/zookeeper", "data")).item(
            Json::object().with("mountPath", text("/etc/kafka/zookeeper.properties")).with(
                "subPath",
                text("zookeeper.properties"),
            ).with("name", text("properties")),
        ),
    )
}

impl Config {
    fn pod(&self, config_map: &str) -> (j: Json)
        ensures
            j@ == pod_doc(self@, config_map@),
    {
        Json::object().with(
            "initContainers",
            Json::list().item(init_container(self.version.as_str())),
        ).with("containers", Json::list().item(container(self.max_heap))).with(
            "volumes",
            Json::list().item(
                Json::object().with("name", text("properties")).with(
                    "configMap",
                    Json::object().with("name", text(config_map)),
                ),
            ),
        )
    }

    fn stateful_set(&self, namespace: &str, config_map: &str) -> (j: Json)
        ensures
            j@ == stateful_set_doc(self@, namespace@, config_map@),
    {
        let name = self.name.as_str();
        manifest(
            "apps/v1",
            "StatefulSet",
            name,
            namespace,
            "spec",
            Json::object().with("podManagementPolicy", text("Parallel")).with(
                "replicas",
                number(self.replicas as u64),
            ).with("serviceName", owned_text(join2(name, "-nodes"))).with(
                "selector",
                selector(ensemble_labels()),
            ).with(
                "template",
                Json::object().with("metadata", template_metadata(name, ensemble_labels())).with(
                    "spec",
                    self.pod(config_map),
                ),
            ).with("updateStrategy", strategy("OnDelete")).with(
                "volumeClaimTemplates",
                claim_templates(storage_string(self.storage_size).as_str()),
            ),
        )
    }

    /// Renders the ensemble's manifests, the config map named after `chksum`.
    pub fn children_named(&self, namespace: &str, chksum: &str) -> (children: Vec<Json>)
        ensures
            items_view(children@) == children_docs(self@, namespace@, chksum@),
    {
        let name = self.name.as_str();
        let config_map_name = join3(name, "-properties-", chksum);
        let mut children = no_docs();
        push_doc(
            &mut children,
            config_map(
                config_map_name.as_str(),
                namespace,
                render_property_lines(&self.properties),
            ),
        );
        push_doc(&mut children, nodes_service(name, namespace));
        push_doc(
            &mut children,
            client_service(
                join2(name, "-client").as_str(),
                namespace,
                service_port(2181, "clients", 2181),
                ensemble_labels(),
            ),
        );
        push_doc(&mut children, self.stateful_set(namespace, config_map_name.as_str()));
        children
    }

    /// Renders the ensemble's manifests. The config map is named after the
    /// checksum of the properties.
    pub fn children(&self, namespace: &str) -> (children: Vec<Json>)
        ensures
            items_view(children@) == children_docs(
                self@,
                namespace@,
                checksum(self@.properties),
            ),
    {
        let chksum = calculate_hash(&self.properties);
        self.children_named(namespace, chksum.as_str())
    }
}

} // verus!
