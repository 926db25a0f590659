//! The MySQL adapter of one tenant: a service, and a stateless workload that
//! speaks the MySQL protocol on behalf of the tenant's servers.

use vstd::prelude::*;
use vstd::string::*;
use crate::json::{items_view, no_docs, owned_text, push_doc, text, Doc, Json};
use crate::manifest::{
    client_service, client_service_doc, container_port, container_port_doc, deployment,
    deployment_doc, exec_action, exec_action_doc, image_string, image_text, is_manifest, labels,
    labels_doc, lemma_manifest_identity, noria_env, noria_env_doc, probe, probe_doc,
    service_port, service_port_doc, shell_command, shell_command_doc, DEFAULT_NORIA_VERSION,
    NORIA_IMAGE, ZOOKEEPER_CLIENT_SERVICE_NAME,
};
use crate::model::{opt_view, NoriaMysqlConfig, NoriaMysqlConfigView};
use crate::text::join2;

verus! {

pub const DEFAULT_NORIA_MYSQL_REPLICAS: usize = 3;

/// The name of a tenant's adapter.
pub open spec fn mysql_name(id: Seq<char>) -> Seq<char> {
    "gateway-"@ + id
}

/// A resolved adapter configuration.
#[derive(Debug, Clone, PartialEq, Eq)]
pub struct Config {
    pub id: String,
    pub name: String,
    pub version: String,
    pub replicas: usize,
}

pub struct ConfigView {
    pub id: Seq<char>,
    pub name: Seq<char>,
    pub version: Seq<char>,
    pub replicas: usize,
}

impl View for Config {
    type V = ConfigView;

    open spec fn view(&self) -> ConfigView {
        ConfigView {
            id: self.id@,
            name: self.name@,
            version: self.version@,
            replicas: self.replicas,
        }
    }
}

/// The configuration that the declared overrides resolve to for the tenant
/// `id`. The adapter keeps no data and has no heap to tune: only its version
/// and its number of replicas can be set.
pub open spec fn resolve(m: Option<NoriaMysqlConfigView>, id: Seq<char>) -> ConfigView {
    ConfigView {
        id,
        name: mysql_name(id),
        version: match m {
            Some(c) => match c.version {
                Some(v) => v,
                None => DEFAULT_NORIA_VERSION@,
            },
            None => DEFAULT_NORIA_VERSION@,
        },
        replicas: match m {
            Some(c) => match c.replicas {
                Some(n) => n,
                None => DEFAULT_NORIA_MYSQL_REPLICAS,
            },
            None => DEFAULT_NORIA_MYSQL_REPLICAS,
        },
    }
}

/// The line that starts an adapter: for the tenant, with the ensemble's
/// client service as coordinator.
pub open spec fn mysql_command(id: Seq<char>) -> Seq<char> {
    "/usr/local/bin/noria-mysql --address ${NODE_IP}:3306 \\\n              --deployment "@ + id
        + " --zookeeper-address "@ + ZOOKEEPER_CLIENT_SERVICE_NAME@ + ":2181"@
}

/// The check that pings the adapter with MySQL's own client.
pub open spec fn ping_line() -> Seq<char> {
    "mysqladmin ping -h \"$NODE_IP\""@
}

pub open spec fn mysql_labels_doc(id: Seq<char>) -> Doc {
    labels_doc("noria-mysql"@, id)
}

pub open spec fn service_doc(c: ConfigView, namespace: Seq<char>) -> Doc {
    client_service_doc(
        c.name,
        namespace,
        service_port_doc(3306, "mysql"@, 3306),
        mysql_labels_doc(c.id),
    )
}

pub open spec fn container_doc(c: ConfigView) -> Doc {
    Doc::object().with("command"@, shell_command_doc()).with(
        "args"@,
        Doc::list().item(Doc::Text(mysql_command(c.id))),
    ).with("env"@, noria_env_doc()).with(
        "image"@,
        Doc::Text(image_text(NORIA_IMAGE@, c.version)),
    ).with("imagePullPolicy"@, Doc::Text("Always"@)).with("name"@, Doc::Text("noria-mysql"@)).with(
        "ports"@,
        Doc::list().item(container_port_doc(3306, "clients"@)),
    ).with("livenessProbe"@, probe_doc("exec"@, exec_action_doc(ping_line()), 60))
}

/// The two manifests of a tenant's adapter: the service, then the workload.
pub open spec fn children_docs(c: ConfigView, namespace: Seq<char>) -> Seq<Doc> {
    Seq::empty().push(service_doc(c, namespace)).push(
        deployment_doc(
            c.name,
            namespace,
            c.replicas as int,
            mysql_labels_doc(c.id),
            container_doc(c),
        ),
    )
}

/// The adapter's manifests by kind and name: a service and a deployment, both
/// under the same name and in `namespace`.
pub proof fn lemma_children_identity(c: ConfigView, namespace: Seq<char>)
    ensures
        children_docs(c, namespace).len() == 2,
        is_manifest(children_docs(c, namespace)[0], "v1"@, "Service"@, c.name, namespace),
        is_manifest(
            children_docs(c, namespace)[1],
            "extensions/v1beta1"@,
            "Deployment"@,
            c.name,
            namespace,
        ),
{
    let docs = children_docs(c, namespace);
    lemma_manifest_identity(
        "v1"@,
        "Service"@,
        c.name,
        namespace,
        "spec"@,
        docs[0]->Object_0.last().1,
    );
    lemma_manifest_identity(
        "extensions/v1beta1"@,
        "Deployment"@,
        c.name,
        namespace,
        "spec"@,
        docs[1]->Object_0.last().1,
    );
}

/// Resolves the adapter configuration of the tenant `deployment_id`.
pub fn create_config(noria_mysql: &Option<NoriaMysqlConfig>, deployment_id: &str) -> (config:
    Config)
    ensures
        config@ == resolve(opt_view(*noria_mysql), deployment_id@),
{
    let replicas = match noria_mysql {
        Some(NoriaMysqlConfig { replicas: Some(n), .. }) => *n,
        _ => DEFAULT_NORIA_MYSQL_REPLICAS,
    };
    let version = match noria_mysql {
        Some(NoriaMysqlConfig { version: Some(v), .. }) => v.clone(),
        _ => DEFAULT_NORIA_VERSION.to_owned(),
    };
    let name = join2("gateway-", deployment_id);
    Config { name, id: deployment_id.to_owned(), version, replicas }
}

impl Config {
    fn command(&self) -> (s: String)
        ensures
            s@ == mysql_command(self@.id),
    {
        let mut s = join2(
            "/usr/local/bin/noria-mysql --address ${NODE_IP}:3306 \\\n              --deployment ",
            self.id.as_str(),
        );
        s.append(" --zookeeper-address ");
        s.append(ZOOKEEPER_CLIENT_SERVICE_NAME);
        s.append(":2181");
        s
    }

    fn labels(&self) -> (j: Json)
        ensures
            j@ == mysql_labels_doc(self@.id),
    {
        labels("noria-mysql", self.id.as_str())
    }

    fn container(&self) -> (j: Json)
        ensures
            j@ == container_doc(self@),
    {
        Json::object().with("command", shell_command()).with(
            "args",
            Json::list().item(owned_text(self.command())),
        ).with("env", noria_env()).with(
            "image",
            owned_text(image_string(NORIA_IMAGE, self.version.as_str())),
        ).with("imagePullPolicy", text("Always")).with("name", text("noria-mysql")).with(
            "ports",
            Json::list().item(container_port(3306, "clients")),
        ).with("livenessProbe", probe("exec", exec_action("mysqladmin ping -h \"$NODE_IP\""), 60))
    }

    /// Renders the manifests of a tenant's adapter.
    pub fn children(&self, namespace: &str) -> (children: Vec<Json>)
        ensures
            items_view(children@) == children_docs(self@, namespace@),
    {
        let mut children = no_docs();
        push_doc(
            &mut children,
            client_service(
                self.name.as_str(),
                namespace,
                service_port(3306, "mysql", 3306),
                self.labels(),
            ),
        );
        push_doc(
            &mut children,
            deployment(
                self.name.as_str(),
                namespace,
                self.replicas as u64,
                "noria-mysql",
                self.id.as_str(),
                self.container(),
            ),
        );
        children
    }
}

} // verus!
