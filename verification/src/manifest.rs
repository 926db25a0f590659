//! Pieces that the manifests of every subsystem share: metadata, selectors,
//! ports, probes, resource figures and storage claims. Each piece is given
//! twice: as the document it is, and as the code that builds it.

use vstd::prelude::*;
use vstd::string::*;
use crate::json::{lemma_field_of_with, number, text, Doc, Json};
use crate::text::{decimal, decimal_string, join3};

verus! {

/// The image that the Noria workloads run.
pub const NORIA_IMAGE: &'static str = "fussybeaver/noria";

/// The image that the coordination ensemble runs.
pub const CONFLUENT_ZOOKEEPER_IMAGE: &'static str = "confluentinc/cp-zookeeper";

/// The service through which workloads reach the coordination ensemble.
pub const ZOOKEEPER_CLIENT_SERVICE_NAME: &'static str = "zookeeper-noria-client";

/// The version of Noria that is run where none is asked for.
pub const DEFAULT_NORIA_VERSION: &'static str = "0.4.1";

/// Memory granted to a container, in MiB: thirteen tenths of the heap
/// ceiling, rounded down.
pub open spec fn container_memory(max_heap: u64) -> nat {
    ((13 * max_heap) / 10) as nat
}

/// The memory figure of a container, as the orchestrator reads it.
pub open spec fn memory_text(max_heap: u64) -> Seq<char> {
    decimal(container_memory(max_heap)) + "Mi"@
}

/// The size of a storage claim: whole GiB of the storage size given in MiB.
pub open spec fn storage_text(storage_size: u64) -> Seq<char> {
    decimal((storage_size / 1024) as nat) + "Gi"@
}

/// An image with its version tag.
pub open spec fn image_text(image: Seq<char>, version: Seq<char>) -> Seq<char> {
    image + ":"@ + version
}

pub open spec fn metadata_doc(name: Seq<char>, namespace: Seq<char>) -> Doc {
    Doc::object().with("name"@, Doc::Text(name)).with("namespace"@, Doc::Text(namespace))
}

/// The two labels by which a workload and its service find each other.
pub open spec fn labels_doc(kind: Seq<char>, name: Seq<char>) -> Doc {
    Doc::object().with("noria-operator.io/kind"@, Doc::Text(kind)).with(
        "noria-operator.io/name"@,
        Doc::Text(name),
    )
}

pub open spec fn service_port_doc(port: int, name: Seq<char>, target: int) -> Doc {
    Doc::object().with("port"@, Doc::Num(port)).with("name"@, Doc::Text(name)).with(
        "targetPort"@,
        Doc::Num(target),
    )
}

pub open spec fn container_port_doc(port: int, name: Seq<char>) -> Doc {
    Doc::object().with("containerPort"@, Doc::Num(port)).with("name"@, Doc::Text(name)).with(
        "protocol"@,
        Doc::Text("TCP"@),
    )
}

/// A manifest: its API version and kind, its name and namespace, and its
/// body under `body_key`.
pub open spec fn manifest_doc(
    api_version: Seq<char>,
    kind: Seq<char>,
    name: Seq<char>,
    namespace: Seq<char>,
    body_key: Seq<char>,
    body: Doc,
) -> Doc {
    Doc::object().with("apiVersion"@, Doc::Text(api_version)).with("kind"@, Doc::Text(kind)).with(
        "metadata"@,
        metadata_doc(name, namespace),
    ).with(body_key, body)
}

/// The text under `key` in `doc`.
pub open spec fn text_field(doc: Doc, key: Seq<char>) -> Option<Seq<char>> {
    match doc.field(key) {
        Some(Doc::Text(t)) => Some(t),
        _ => None,
    }
}

/// The API version that a manifest states.
pub open spec fn api_version_of(doc: Doc) -> Option<Seq<char>> {
    text_field(doc, "apiVersion"@)
}

/// The kind that a manifest states.
pub open spec fn kind_of(doc: Doc) -> Option<Seq<char>> {
    text_field(doc, "kind"@)
}

/// The name in a manifest's metadata.
pub open spec fn name_of(doc: Doc) -> Option<Seq<char>> {
    match doc.field("metadata"@) {
        Some(metadata) => text_field(metadata, "name"@),
        None => None,
    }
}

/// The namespace in a manifest's metadata.
pub open spec fn namespace_of(doc: Doc) -> Option<Seq<char>> {
    match doc.field("metadata"@) {
        Some(metadata) => text_field(metadata, "namespace"@),
        None => None,
    }
}

/// True when `doc` states exactly this identity.
pub open spec fn is_manifest(
    doc: Doc,
    api_version: Seq<char>,
    kind: Seq<char>,
    name: Seq<char>,
    namespace: Seq<char>,
) -> bool {
    &&& api_version_of(doc) == Some(api_version)
    &&& kind_of(doc) == Some(kind)
    &&& name_of(doc) == Some(name)
    &&& namespace_of(doc) == Some(namespace)
}

/// A manifest states the identity it was built with, whatever its body.
pub proof fn lemma_manifest_identity(
    api_version: Seq<char>,
    kind: Seq<char>,
    name: Seq<char>,
    namespace: Seq<char>,
    body_key: Seq<char>,
    body: Doc,
)
    requires
        body_key == "spec"@ || body_key == "data"@,
    ensures
        is_manifest(
            manifest_doc(api_version, kind, name, namespace, body_key, body),
            api_version,
            kind,
            name,
            namespace,
        ),
{
    reveal_strlit("apiVersion");
    reveal_strlit("kind");
    reveal_strlit("metadata");
    reveal_strlit("spec");
    reveal_strlit("data");
    reveal_strlit("name");
    reveal_strlit("namespace");
    let d0 = Doc::object();
    let d1 = d0.with("apiVersion"@, Doc::Text(api_version));
    let d2 = d1.with("kind"@, Doc::Text(kind));
    let meta = metadata_doc(name, namespace);
    let d3 = d2.with("metadata"@, meta);
    let d4 = d3.with(body_key, body);
    assert("apiVersion"@.len() == 10 && "metadata"@.len() == 8 && "kind"@.len() == 4);
    assert("name"@.len() == 4 && "namespace"@.len() == 9);
    assert("kind"@[0] != "data"@[0] && "kind"@[0] != "spec"@[0]);
    lemma_field_of_with(d0, "apiVersion"@, Doc::Text(api_version), "apiVersion"@);
    lemma_field_of_with(d1, "kind"@, Doc::Text(kind), "apiVersion"@);
    lemma_field_of_with(d1, "kind"@, Doc::Text(kind), "kind"@);
    lemma_field_of_with(d2, "metadata"@, meta, "apiVersion"@);
    lemma_field_of_with(d2, "metadata"@, meta, "kind"@);
    lemma_field_of_with(d2, "metadata"@, meta, "metadata"@);
    lemma_field_of_with(d3, body_key, body, "apiVersion"@);
    lemma_field_of_with(d3, body_key, body, "kind"@);
    lemma_field_of_with(d3, body_key, body, "metadata"@);
    let m0 = Doc::object();
    let m1 = m0.with("name"@, Doc::Text(name));
    lemma_field_of_with(m0, "name"@, Doc::Text(name), "name"@);
    lemma_field_of_with(m1, "namespace"@, Doc::Text(namespace), "name"@);
    lemma_field_of_with(m1, "namespace"@, Doc::Text(namespace), "namespace"@);
}

/// A service that exposes one port to clients.
pub open spec fn client_service_doc(
    name: Seq<char>,
    namespace: Seq<char>,
    port: Doc,
    labels: Doc,
) -> Doc {
    manifest_doc(
        "v1"@,
        "Service"@,
        name,
        namespace,
        "spec"@,
        Doc::object().with("ports"@, Doc::list().item(port)).with("selector"@, labels),
    )
}

/// Equal memory limit and request: the container gets what it asks for.
pub open spec fn resources_doc(memory: Seq<char>) -> Doc {
    Doc::object().with("limits"@, Doc::object().with("memory"@, Doc::Text(memory))).with(
        "requests"@,
        Doc::object().with("memory"@, Doc::Text(memory)),
    )
}

/// A liveness probe: the check itself under `action_key`, then its timing.
pub open spec fn probe_doc(action_key: Seq<char>, action: Doc, initial_delay: int) -> Doc {
    Doc::object().with(action_key, action).with("failureThreshold"@, Doc::Num(3)).with(
        "initialDelaySeconds"@,
        Doc::Num(initial_delay),
    ).with("periodSeconds"@, Doc::Num(10)).with("successThreshold"@, Doc::Num(1)).with(
        "timeoutSeconds"@,
        Doc::Num(5),
    )
}

/// A probe action that runs a shell line.
pub open spec fn exec_action_doc(line: Seq<char>) -> Doc {
    Doc::object().with(
        "command"@,
        Doc::list().item(Doc::Text("bash"@)).item(Doc::Text("-exc"@)).item(Doc::Text(line)),
    )
}

pub open spec fn volume_mount_doc(path: Seq<char>, name: Seq<char>) -> Doc {
    Doc::object().with("mountPath"@, Doc::Text(path)).with("name"@, Doc::Text(name))
}

/// The one persistent volume claim of a stateful workload, named `data`.
pub open spec fn claim_templates_doc(storage: Seq<char>) -> Doc {
    Doc::list().item(
        Doc::object().with("metadata"@, Doc::object().with("name"@, Doc::Text("data"@))).with(
            "spec"@,
            Doc::object().with(
                "accessModes"@,
                Doc::list().item(Doc::Text("ReadWriteOnce"@)),
            ).with(
                "resources"@,
                Doc::object().with(
                    "requests"@,
                    Doc::object().with("storage"@, Doc::Text(storage)),
                ),
            ),
        ),
    )
}

/// How a workload is rolled: `OnDelete` waits for an operator, `RollingUpdate`
/// replaces pods by itself.
pub open spec fn strategy_doc(kind: Seq<char>) -> Doc {
    Doc::object().with("type"@, Doc::Text(kind))
}

pub open spec fn selector_doc(labels: Doc) -> Doc {
    Doc::object().with("matchLabels"@, labels)
}

pub open spec fn template_metadata_doc(name: Seq<char>, labels: Doc) -> Doc {
    Doc::object().with("name"@, Doc::Text(name)).with("labels"@, labels)
}

/// The environment of a Noria container: verbose logging, and the pod's own
/// address under `NODE_IP`.
pub open spec fn noria_env_doc() -> Doc {
    Doc::list().item(
        Doc::object().with("name"@, Doc::Text("RUST_LOG"@)).with("value"@, Doc::Text("debug"@)),
    ).item(
        Doc::object().with("name"@, Doc::Text("NODE_IP"@)).with(
            "valueFrom"@,
            Doc::object().with(
                "fieldRef"@,
                Doc::object().with("apiVersion"@, Doc::Text("v1"@)).with(
                    "fieldPath"@,
                    Doc::Text("status.podIP"@),
                ),
            ),
        ),
    )
}

/// The command of a container that runs one shell line, given as its argument.
pub open spec fn shell_command_doc() -> Doc {
    Doc::list().item(Doc::Text("bash"@)).item(Doc::Text("-exc"@))
}

/// A stateless workload: its pods are replaced one after another when it
/// changes.
pub open spec fn deployment_doc(
    name: Seq<char>,
    namespace: Seq<char>,
    replicas: int,
    labels: Doc,
    container: Doc,
) -> Doc {
    manifest_doc(
        "extensions/v1beta1"@,
        "Deployment"@,
        name,
        namespace,
        "spec"@,
        Doc::object().with("replicas"@, Doc::Num(replicas)).with(
            "selector"@,
            selector_doc(labels),
        ).with("strategy"@, strategy_doc("RollingUpdate"@)).with(
            "template"@,
            Doc::object().with("metadata"@, template_metadata_doc(name, labels)).with(
                "spec"@,
                Doc::object().with("containers"@, Doc::list().item(container)),
            ),
        ),
    )
}

pub fn shell_command() -> (j: Json)
    ensures
        j@ == shell_command_doc(),
{
    Json::list().item(text("bash")).item(text("-exc"))
}

/// Builds a stateless workload whose pods carry the labels `kind` and
/// `tenant`.
pub fn deployment(
    name: &str,
    namespace: &str,
    replicas: u64,
    kind: &str,
    tenant: &str,
    container: Json,
) -> (j: Json)
    ensures
        j@ == deployment_doc(
            name@,
            namespace@,
            replicas as int,
            labels_doc(kind@, tenant@),
            container@,
        ),
{
    manifest(
        "extensions/v1beta1",
        "Deployment",
        name,
        namespace,
        "spec",
        Json::object().with("replicas", number(replicas)).with(
            "selector",
            selector(labels(kind, tenant)),
        ).with("strategy", strategy("RollingUpdate")).with(
            "template",
            Json::object().with("metadata", template_metadata(name, labels(kind, tenant))).with(
                "spec",
                Json::object().with("containers", Json::list().item(container)),
            ),
        ),
    )
}

pub fn memory_string(max_heap: u64) -> (s: String)
    ensures
        s@ == memory_text(max_heap),
{
    let mib: u128 = (max_heap as u128) * 13 / 10;
    let mut s = decimal_string(mib);
    s.append("Mi");
    s
}

pub fn storage_string(storage_size: u64) -> (s: String)
    ensures
        s@ == storage_text(storage_size),
{
    let mut s = decimal_string((storage_size / 1024) as u128);
    s.append("Gi");
    s
}

pub fn image_string(image: &str, version: &str) -> (s: String)
    ensures
        s@ == image_text(image@, version@),
{
    join3(image, ":", version)
}

pub fn metadata(name: &str, namespace: &str) -> (j: Json)
    ensures
        j@ == metadata_doc(name@, namespace@),
{
    Json::object().with("name", text(name)).with("namespace", text(namespace))
}

pub fn labels(kind: &str, name: &str) -> (j: Json)
    ensures
        j@ == labels_doc(kind@, name@),
{
    Json::object().with("noria-operator.io/kind", text(kind)).with(
        "noria-operator.io/name",
        text(name),
    )
}

pub fn service_port(port: u64, name: &str, target: u64) -> (j: Json)
    ensures
        j@ == service_port_doc(port as int, name@, target as int),
{
    Json::object().with("port", number(port)).with("name", text(name)).with(
        "targetPort",
        number(target),
    )
}

pub fn container_port(port: u64, name: &str) -> (j: Json)
    ensures
        j@ == container_port_doc(port as int, name@),
{
    Json::object().with("containerPort", number(port)).with("name", text(name)).with(
        "protocol",
        text("TCP"),
    )
}

pub fn manifest(
    api_version: &str,
    kind: &str,
    name: &str,
    namespace: &str,
    body_key: &str,
    body: Json,
) -> (j: Json)
    ensures
        j@ == manifest_doc(api_version@, kind@, name@, namespace@, body_key@, body@),
{
    Json::object().with("apiVersion", text(api_version)).with("kind", text(kind)).with(
        "metadata",
        metadata(name, namespace),
    ).with(body_key, body)
}

pub fn client_service(name: &str, namespace: &str, port: Json, labels: Json) -> (j: Json)
    ensures
        j@ == client_service_doc(name@, namespace@, port@, labels@),
{
    manifest(
        "v1",
        "Service",
        name,
        namespace,
        "spec",
        Json::object().with("ports", Json::list().item(port)).with("selector", labels),
    )
}

pub fn resources(memory: &str) -> (j: Json)
    ensures
        j@ == resources_doc(memory@),
{
    Json::object().with("limits", Json::object().with("memory", text(memory))).with(
        "requests",
        Json::object().with("memory", text(memory)),
    )
}

pub fn probe(action_key: &str, action: Json, initial_delay: u64) -> (j: Json)
    ensures
        j@ == probe_doc(action_key@, action@, initial_delay as int),
{
    Json::object().with(action_key, action).with("failureThreshold", number(3)).with(
        "initialDelaySeconds",
        number(initial_delay),
    ).with("periodSeconds", number(10)).with("successThreshold", number(1)).with(
        "timeoutSeconds",
        number(5),
    )
}

pub fn exec_action(line: &str) -> (j: Json)
    ensures
        j@ == exec_action_doc(line@),
{
    Json::object().with(
        "command",
        Json::list().item(text("bash")).item(text("-exc")).item(text(line)),
    )
}

pub fn volume_mount(path: &str, name: &str) -> (j: Json)
    ensures
        j@ == volume_mount_doc(path@, name@),
{
    Json::object().with("mountPath", text(path)).with("name", text(name))
}

pub fn claim_templates(storage: &str) -> (j: Json)
    ensures
        j@ == claim_templates_doc(storage@),
{
    Json::list().item(
        Json::object().with("metadata", Json::object().with("name", text("data"))).with(
            "spec",
            Json::object().with("accessModes", Json::list().item(text("ReadWriteOnce"))).with(
                "resources",
                Json::object().with("requests", Json::object().with("storage", text(storage))),
            ),
        ),
    )
}

pub fn strategy(kind: &str) -> (j: Json)
    ensures
        j@ == strategy_doc(kind@),
{
    Json::object().with("type", text(kind))
}

pub fn selector(labels: Json) -> (j: Json)
    ensures
        j@ == selector_doc(labels@),
{
    Json::object().with("matchLabels", labels)
}

pub fn template_metadata(name: &str, labels: Json) -> (j: Json)
    ensures
        j@ == template_metadata_doc(name@, labels@),
{
    Json::object().with("name", text(name)).with("labels", labels)
}

pub fn noria_env() -> (j: Json)
    ensures
        j@ == noria_env_doc(),
{
    Json::list().item(
        Json::object().with("name", text("RUST_LOG")).with("value", text("debug")),
    ).item(
        Json::object().with("name", text("NODE_IP")).with(
            "valueFrom",
            Json::object().with(
                "fieldRef",
                Json::object().with("apiVersion", text("v1")).with(
                    "fieldPath",
                    text("status.podIP"),
                ),
            ),
        ),
    )
}

} // verus!
