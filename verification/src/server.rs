//! The data-plane servers of one tenant: a service, and a stateful set whose
//! pods keep their data on a claimed volume.

use vstd::prelude::*;
use vstd::string::*;
use crate::json::{items_view, no_docs, number, owned_text, push_doc, text, Doc, Json};
use crate::manifest::{
    claim_templates, claim_templates_doc, client_service, client_service_doc, container_port,
    container_port_doc, image_string, image_text, is_manifest, labels, labels_doc,
    lemma_manifest_identity, manifest, manifest_doc, memory_string, memory_text, noria_env,
    noria_env_doc, probe, probe_doc, resources, resources_doc, selector, selector_doc,
    service_port, service_port_doc, shell_command, shell_command_doc, storage_string,
    storage_text, strategy, strategy_doc, template_metadata, template_metadata_doc,
    volume_mount, volume_mount_doc, DEFAULT_NORIA_VERSION, NORIA_IMAGE,
    ZOOKEEPER_CLIENT_SERVICE_NAME,
};
use crate::model::{opt_view, NoriaServerConfig, NoriaServerConfigView};
use crate::text::{decimal, decimal_string, join2};

verus! {

pub const DEFAULT_NORIA_SERVER_MAX_HEAP: u64 = 96;

pub const DEFAULT_NORIA_SERVER_STORAGE_SIZE: u64 = 1024;

pub const DEFAULT_NORIA_SERVER_REPLICAS: usize = 3;

/// The name of a tenant's servers.
pub open spec fn server_name(id: Seq<char>) -> Seq<char> {
    "compute-"@ + id
}

/// A resolved server configuration.
#[derive(Debug, Clone, PartialEq, Eq)]
pub struct Config {
    pub id: String,
    pub name: String,
    pub version: String,
    pub max_heap: u64,
    pub storage_size: u64,
    pub replicas: usize,
}

pub struct ConfigView {
    pub id: Seq<char>,
    pub name: Seq<char>,
    pub version: Seq<char>,
    pub max_heap: u64,
    pub storage_size: u64,
    pub replicas: usize,
}

impl View for Config {
    type V = ConfigView;

    open spec fn view(&self) -> ConfigView {
        ConfigView {
            id: self.id@,
            name: self.name@,
            version: self.version@,
            max_heap: self.max_heap,
            storage_size: self.storage_size,
            replicas: self.replicas,
        }
    }
}

/// The configuration that the declared overrides resolve to for the tenant
/// `id`: each figure is the override where there is one and the default where
/// there is none.
pub open spec fn resolve(s: Option<NoriaServerConfigView>, id: Seq<char>) -> ConfigView {
    ConfigView {
        id,
        name: server_name(id),
        version: match s {
            Some(c) => match c.version {
                Some(v) => v,
                None => DEFAULT_NORIA_VERSION@,
            },
            None => DEFAULT_NORIA_VERSION@,
        },
        max_heap: match s {
            Some(c) => match c.max_heap {
                Some(m) => m,
                None => DEFAULT_NORIA_SERVER_MAX_HEAP,
            },
            None => DEFAULT_NORIA_SERVER_MAX_HEAP,
        },
        storage_size: match s {
            Some(c) => match c.storage_size {
                Some(m) => m,
                None => DEFAULT_NORIA_SERVER_STORAGE_SIZE,
            },
            None => DEFAULT_NORIA_SERVER_STORAGE_SIZE,
        },
        replicas: match s {
            Some(c) => match c.replicas {
                Some(n) => n,
                None => DEFAULT_NORIA_SERVER_REPLICAS,
            },
            None => DEFAULT_NORIA_SERVER_REPLICAS,
        },
    }
}

/// The heap ceiling in bytes.
pub open spec fn heap_bytes(max_heap: u64) -> nat {
    (max_heap * 1024 * 1024) as nat
}

/// The line that starts a server: for the tenant, with the heap ceiling in
/// bytes, a quorum of all replicas, no sharding, and the ensemble's client
/// service as coordinator.
pub open spec fn server_command(c: ConfigView) -> Seq<char> {
    "/usr/local/bin/noria-server --address $NODE_IP \\\n              --deployment "@ + c.id
        + " --log-dir /var/lib/noria --memory "@ + decimal(heap_bytes(c.max_heap))
        + " \\\n              --quorum "@ + decimal(c.replicas as nat)
        + " --shards 0 --zookeeper "@ + ZOOKEEPER_CLIENT_SERVICE_NAME@ + ":2181"@
}

pub open spec fn server_labels_doc(id: Seq<char>) -> Doc {
    labels_doc("noria-server"@, id)
}

pub open spec fn service_doc(c: ConfigView, namespace: Seq<char>) -> Doc {
    client_service_doc(
        c.name,
        namespace,
        service_port_doc(6033, "noria"@, 6033),
        server_labels_doc(c.id),
    )
}

pub open spec fn container_doc(c: ConfigView) -> Doc {
    Doc::object().with("command"@, shell_command_doc()).with(
        "args"@,
        Doc::list().item(Doc::Text(server_command(c))),
    ).with("env"@, noria_env_doc()).with(
        "image"@,
        Doc::Text(image_text(NORIA_IMAGE@, c.version)),
    ).with("imagePullPolicy"@, Doc::Text("Always"@)).with("name"@, Doc::Text("noria-server"@)).with(
        "ports"@,
        Doc::list().item(container_port_doc(6033, "api"@)),
    ).with("resources"@, resources_doc(memory_text(c.max_heap))).with(
        "livenessProbe"@,
        probe_doc("tcpSocket"@, Doc::object().with("port"@, Doc::Num(6033)), 60),
    ).with("volumeMounts"@, Doc::list().item(volume_mount_doc("/var/lib/noria"@, "data"@)))
}

/// The stateful set: a changed set is rolled only when an operator deletes
/// the pods.
pub open spec fn stateful_set_doc(c: ConfigView, namespace: Seq<char>) -> Doc {
    manifest_doc(
        "apps/v1"@,
        "StatefulSet"@,
        c.name,
        namespace,
        "spec"@,
        Doc::object().with("replicas"@, Doc::Num(c.replicas as int)).with(
            "serviceName"@,
            Doc::Text(c.name),
        ).with("selector"@, selector_doc(server_labels_doc(c.id))).with(
            "template"@,
            Doc::object().with(
                "metadata"@,
                template_metadata_doc(c.name, server_labels_doc(c.id)),
            ).with("spec"@, Doc::object().with("containers"@, Doc::list().item(container_doc(c)))),
        ).with("updateStrategy"@, strategy_doc("OnDelete"@)).with(
            "volumeClaimTemplates"@,
            claim_templates_doc(storage_text(c.storage_size)),
        ),
    )
}

/// The two manifests of a tenant's servers: the service, then the workload.
pub open spec fn children_docs(c: ConfigView, namespace: Seq<char>) -> Seq<Doc> {
    Seq::empty().push(service_doc(c, namespace)).push(stateful_set_doc(c, namespace))
}

/// The servers' manifests by kind and name: a service and a stateful set,
/// both under the servers' name and in `namespace`.
pub proof fn lemma_children_identity(c: ConfigView, namespace: Seq<char>)
    ensures
        children_docs(c, namespace).len() == 2,
        is_manifest(children_docs(c, namespace)[0], "v1"@, "Service"@, c.name, namespace),
        is_manifest(children_docs(c, namespace)[1], "apps/v1"@, "StatefulSet"@, c.name, namespace),
{
    let docs = children_docs(c, namespace);
    lemma_manifest_identity(
        "v1"@,
        "Service"@,
        c.name,
        namespace,
        "spec"@,
        docs[0]->Object_0.last().1,
    );
    lemma_manifest_identity(
        "apps/v1"@,
        "StatefulSet"@,
        c.name,
        namespace,
        "spec"@,
        docs[1]->Object_0.last().1,
    );
}

/// Resolves the server configuration of the tenant `deployment_id`.
pub fn create_config(noria_server: &Option<NoriaServerConfig>, deployment_id: &str) -> (config:
    Config)
    ensures
        config@ == resolve(opt_view(*noria_server), deployment_id@),
{
    let name = join2("compute-", deployment_id);
    let max_heap = match noria_server {
        Some(NoriaServerConfig { max_heap: Some(m), .. }) => *m,
        _ => DEFAULT_NORIA_SERVER_MAX_HEAP,
    };
    let storage_size = match noria_server {
        Some(NoriaServerConfig { storage_size: Some(m), .. }) => *m,
        _ => DEFAULT_NORIA_SERVER_STORAGE_SIZE,
    };
    let replicas = match noria_server {
        Some(NoriaServerConfig { replicas: Some(n), .. }) => *n,
        _ => DEFAULT_NORIA_SERVER_REPLICAS,
    };
    let version = match noria_server {
        Some(NoriaServerConfig { version: Some(v), .. }) => v.clone(),
        _ => DEFAULT_NORIA_VERSION.to_owned(),
    };
    Config { id: deployment_id.to_owned(), name, version, max_heap, storage_size, replicas }
}

impl Config {
    fn command(&self) -> (s: String)
        ensures
            s@ == server_command(self@),
    {
        let bytes: u128 = (self.max_heap as u128) * 1024 * 1024;
        let mut s = join2(
            "/usr/local/bin/noria-server --address $NODE_IP \\\n              --deployment ",
            self.id.as_str(),
        );
        s.append(" --log-dir /var/lib/noria --memory ");
        s.append(decimal_string(bytes).as_str());
        s.append(" \\\n              --quorum ");
        s.append(decimal_string(self.replicas as u128).as_str());
        s.append(" --shards 0 --zookeeper ");
        s.append(ZOOKEEPER_CLIENT_SERVICE_NAME);
        s.append(":2181");
        s
    }

    fn labels(&self) -> (j: Json)
        ensures
            j@ == server_labels_doc(self@.id),
    {
        labels("noria-server", self.id.as_str())
    }

    fn service(&self, namespace: &str) -> (j: Json)
        ensures
            j@ == service_doc(self@, namespace@),
    {
        client_service(
            self.name.as_str(),
            namespace,
            service_port(6033, "noria", 6033),
            self.labels(),
        )
    }

    fn container(&self) -> (j: Json)
        ensures
            j@ == container_doc(self@),
    {
        Json::object().with("command", shell_command()).with(
            "args",
            Json::list().item(owned_text(self.command())),
        ).with("env", noria_env()).with(
            "image",
            owned_text(image_string(NORIA_IMAGE, self.version.as_str())),
        ).with("imagePullPolicy", text("Always")).with("name", text("noria-server")).with(
            "ports",
            Json::list().item(container_port(6033, "api")),
        ).with("resources", resources(memory_string(self.max_heap).as_str())).with(
            "livenessProbe",
            probe("tcpSocket", Json::object().with("port", number(6033)), 60),
        ).with("volumeMounts", Json::list().item(volume_mount("/var/lib/noria", "data")))
    }

    fn stateful_set(&self, namespace: &str) -> (j: Json)
        ensures
            j@ == stateful_set_doc(self@, namespace@),
    {
        let name = self.name.as_str();
        manifest(
            "apps/v1",
            "StatefulSet",
            name,
            namespace,
            "spec",
            Json::object().with("replicas", number(self.replicas as u64)).with(
                "serviceName",
                text(name),
            ).with("selector", selector(self.labels())).with(
                "template",
                Json::object().with("metadata", template_metadata(name, self.labels())).with(
                    "spec",
                    Json::object().with("containers", Json::list().item(self.container())),
                ),
            ).with("updateStrategy", strategy("OnDelete")).with(
                "volumeClaimTemplates",
                claim_templates(storage_string(self.storage_size).as_str()),
            ),
        )
    }

    /// Renders the manifests of a tenant's servers.
    pub fn children(&self, namespace: &str) -> (children: Vec<Json>)
        ensures
            items_view(children@) == children_docs(self@, namespace@),
    {
        let mut children = no_docs();
        push_doc(&mut children, self.service(namespace));
        push_doc(&mut children, self.stateful_set(namespace));
        children
    }
}

} // verus!
