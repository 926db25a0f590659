//! The dashboard: one for the whole cluster, whatever the number of tenants.

use vstd::prelude::*;
use vstd::string::*;
use crate::json::{items_view, no_docs, number, owned_text, push_doc, text, Doc, Json};
use crate::manifest::{
    client_service, client_service_doc, container_port, container_port_doc, deployment,
    deployment_doc, image_string, image_text, is_manifest, labels, labels_doc,
    lemma_manifest_identity, probe, probe_doc, service_port, service_port_doc,
    DEFAULT_NORIA_VERSION, NORIA_IMAGE,
};
use crate::model::{opt_view, NoriaUiConfig, NoriaUiConfigView};

verus! {

/// The dashboard runs as a single pod.
pub const NORIA_UI_REPLICAS: usize = 1;

/// The name of the dashboard.
pub const NORIA_UI_NAME: &'static str = "noria-ui";

/// A resolved dashboard configuration.
#[derive(Debug, Clone, PartialEq, Eq)]
pub struct Config {
    pub name: String,
    pub version: String,
    pub replicas: usize,
}

pub struct ConfigView {
    pub name: Seq<char>,
    pub version: Seq<char>,
    pub replicas: usize,
}

impl View for Config {
    type V = ConfigView;

    open spec fn view(&self) -> ConfigView {
        ConfigView { name: self.name@, version: self.version@, replicas: self.replicas }
    }
}

/// The configuration that the declared overrides resolve to: only the version
/// can be set.
pub open spec fn resolve(u: Option<NoriaUiConfigView>) -> ConfigView {
    ConfigView {
        name: NORIA_UI_NAME@,
        version: match u {
            Some(c) => match c.version {
                Some(v) => v,
                None => DEFAULT_NORIA_VERSION@,
            },
            None => DEFAULT_NORIA_VERSION@,
        },
        replicas: NORIA_UI_REPLICAS,
    }
}

pub open spec fn ui_labels_doc() -> Doc {
    labels_doc("noria-ui"@, "noria"@)
}

pub open spec fn service_doc(c: ConfigView, namespace: Seq<char>) -> Doc {
    client_service_doc(c.name, namespace, service_port_doc(80, "ui"@, 8000), ui_labels_doc())
}

pub open spec fn container_doc(c: ConfigView) -> Doc {
    Doc::object().with(
        "command"@,
        Doc::list().item(Doc::Text("python3"@)).item(Doc::Text("-m"@)).item(
            Doc::Text("http.server"@),
        ),
    ).with("image"@, Doc::Text(image_text(NORIA_IMAGE@, c.version))).with(
        "imagePullPolicy"@,
        Doc::Text("Always"@),
    ).with("workingDir"@, Doc::Text("/srv/noria-ui"@)).with("name"@, Doc::Text("noria-ui"@)).with(
        "ports"@,
        Doc::list().item(container_port_doc(8000, "web"@)),
    ).with(
        "livenessProbe"@,
        probe_doc(
            "httpGet"@,
            Doc::object().with("path"@, Doc::Text("/"@)).with("port"@, Doc::Num(8000)),
            30,
        ),
    )
}

/// The two manifests of the dashboard: the service, then the workload.
pub open spec fn children_docs(c: ConfigView, namespace: Seq<char>) -> Seq<Doc> {
    Seq::empty().push(service_doc(c, namespace)).push(
        deployment_doc(c.name, namespace, c.replicas as int, ui_labels_doc(), container_doc(c)),
    )
}

/// The dashboard's manifests by kind and name: a service and a deployment, both
/// under the same name and in `namespace`.
pub proof fn lemma_children_identity(c: ConfigView, namespace: Seq<char>)
    ensures
        children_docs(c, namespace).len() == 2,
        is_manifest(children_docs(c, namespace)[0], "v1"@, "Service"@, c.name, namespace),
        is_manifest(
            children_docs(c, namespace)[1],
            "extensions/v1beta1"@,
            "Deployment"@,
            c.name,
            namespace,
        ),
{
    let docs = children_docs(c, namespace);
    lemma_manifest_identity(
        "v1"@,
        "Service"@,
        c.name,
        namespace,
        "spec"@,
        docs[0]->Object_0.last().1,
    );
    lemma_manifest_identity(
        "extensions/v1beta1"@,
        "Deployment"@,
        c.name,
        namespace,
        "spec"@,
        docs[1]->Object_0.last().1,
    );
}

/// Resolves the dashboard's configuration.
pub fn create_config(noria_ui: &Option<NoriaUiConfig>) -> (config: Config)
    ensures
        config@ == resolve(opt_view(*noria_ui)),
{
    let version = match noria_ui {
        Some(NoriaUiConfig { version: Some(v), .. }) => v.clone(),
        _ => DEFAULT_NORIA_VERSION.to_owned(),
    };
    Config { name: NORIA_UI_NAME.to_owned(), version, replicas: NORIA_UI_REPLICAS }
}

impl Config {
    fn labels(&self) -> (j: Json)
        ensures
            j@ == ui_labels_doc(),
    {
        labels("noria-ui", "noria")
    }

    fn container(&self) -> (j: Json)
        ensures
            j@ == container_doc(self@),
    {
        Json::object().with(
            "command",
            Json::list().item(text("python3")).item(text("-m")).item(text("http.server")),
        ).with(
            "image",
            owned_text(image_string(NORIA_IMAGE, self.version.as_str())),
        ).with("imagePullPolicy", text("Always")).with("workingDir", text("/srv/noria-ui")).with(
            "name",
            text("noria-ui"),
        ).with("ports", Json::list().item(container_port(8000, "web"))).with(
            "livenessProbe",
            probe(
                "httpGet",
                Json::object().with("path", text("/")).with("port", number(8000)),
                30,
            ),
        )
    }

    /// Renders the manifests of the dashboard.
    pub fn children(&self, namespace: &str) -> (children: Vec<Json>)
        ensures
            items_view(children@) == children_docs(self@, namespace@),
    {
        let mut children = no_docs();
        push_doc(
            &mut children,
            client_service(
                self.name.as_str(),
                namespace,
                service_port(80, "ui", 8000),
                self.labels(),
            ),
        );
        push_doc(
            &mut children,
            deployment(
                self.name.as_str(),
                namespace,
                self.replicas as u64,
                "noria-ui",
                "noria",
                self.container(),
            ),
        );
        children
    }
}

} // verus!
