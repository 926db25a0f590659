use noria_operator::json::Json;
use noria_operator::builder::Builder;
use noria_operator::manifest::{
    image_string, memory_string, storage_string, ZOOKEEPER_CLIENT_SERVICE_NAME,
};
use noria_operator::model::{NoriaMysqlConfig, NoriaServerConfig, NoriaUiConfig};
use noria_operator::{mysql, server, ui, zookeeper};

fn at<'a>(doc: &'a Json, path: &[&str]) -> &'a Json {
    let mut here = doc;
    for key in path {
        here = match here.get(key) {
            Some(inner) => inner,
            None => panic!("no field {} in {:?}", key, here),
        };
    }
    here
}

fn item(doc: &Json, index: usize) -> &Json {
    match doc {
        Json::List(items) => &items[index],
        other => panic!("not a list: {:?}", other),
    }
}

fn len(doc: &Json) -> usize {
    match doc {
        Json::List(items) => items.len(),
        other => panic!("not a list: {:?}", other),
    }
}

fn text_at<'a>(doc: &'a Json, path: &[&str]) -> &'a str {
    match at(doc, path) {
        Json::Text(s) => s.as_str(),
        other => panic!("not a text: {:?}", other),
    }
}

fn number_at(doc: &Json, path: &[&str]) -> u64 {
    match at(doc, path) {
        Json::Num(n) => *n,
        other => panic!("not a number: {:?}", other),
    }
}

#[test]
fn server_defaults() {
    let config = server::create_config(&None, "east");
    assert_eq!(config.id, "east");
    assert_eq!(config.name, "compute-east");
    assert_eq!(config.version, "0.4.1");
    assert_eq!(config.max_heap, 96);
    assert_eq!(config.storage_size, 1024);
    assert_eq!(config.replicas, 3);
}

#[test]
fn server_defaults_where_every_override_is_left_out() {
    let empty = NoriaServerConfig { version: None, max_heap: None, storage_size: None, replicas: None };
    assert_eq!(server::create_config(&Some(empty), "east"), server::create_config(&None, "east"));
}

#[test]
fn server_overrides_are_taken_one_by_one() {
    let config = server::create_config(
        &Some(NoriaServerConfig {
            version: None,
            max_heap: Some(10),
            storage_size: None,
            replicas: Some(1),
        }),
        "east",
    );
    assert_eq!(config.version, "0.4.1");
    assert_eq!(config.max_heap, 10);
    assert_eq!(config.storage_size, 1024);
    assert_eq!(config.replicas, 1);
}

#[test]
fn mysql_defaults() {
    let config = mysql::create_config(&None, "east");
    assert_eq!(config.id, "east");
    assert_eq!(config.name, "gateway-east");
    assert_eq!(config.version, "0.4.1");
    assert_eq!(config.replicas, 3);
}

#[test]
fn mysql_overrides_are_taken() {
    let config = mysql::create_config(
        &Some(NoriaMysqlConfig { version: Some("1.0".to_string()), max_heap: Some(5), replicas: Some(9) }),
        "east",
    );
    assert_eq!(config.version, "1.0");
    assert_eq!(config.replicas, 9);
}

#[test]
fn ui_defaults() {
    let config = ui::create_config(&None);
    assert_eq!(config.name, "noria-ui");
    assert_eq!(config.version, "0.4.1");
    assert_eq!(config.replicas, 1);
}

#[test]
fn ui_keeps_one_replica_whatever_is_declared() {
    let config =
        ui::create_config(&Some(NoriaUiConfig { version: Some("2.0".to_string()), max_heap: Some(77) }));
    assert_eq!(config.version, "2.0");
    assert_eq!(config.replicas, 1);
}

#[test]
fn memory_is_thirteen_tenths_of_the_heap_rounded_down() {
    assert_eq!(memory_string(96), "124Mi");
    assert_eq!(memory_string(512), "665Mi");
    assert_eq!(memory_string(0), "0Mi");
    assert_eq!(memory_string(1), "1Mi");
    assert_eq!(memory_string(10), "13Mi");
    assert_eq!(memory_string(7), "9Mi");
    assert_eq!(memory_string(u64::MAX), "23980767295822417099Mi");
}

#[test]
fn storage_is_counted_in_whole_gib() {
    assert_eq!(storage_string(1024), "1Gi");
    assert_eq!(storage_string(1023), "0Gi");
    assert_eq!(storage_string(2047), "1Gi");
    assert_eq!(storage_string(10240), "10Gi");
    assert_eq!(storage_string(u64::MAX), "18014398509481983Gi");
}

#[test]
fn image_has_its_version_as_tag() {
    assert_eq!(image_string("fussybeaver/noria", "0.4.1"), "fussybeaver/noria:0.4.1");
}

#[test]
fn server_has_two_children() {
    let children = server::create_config(&None, "east").children("ns1");
    assert_eq!(children.len(), 2);
    assert_eq!(text_at(&children[0], &["kind"]), "Service");
    assert_eq!(text_at(&children[1], &["kind"]), "StatefulSet");
}

#[test]
fn server_service() {
    let children = server::create_config(&None, "east").children("ns1");
    let service = &children[0];
    assert_eq!(text_at(service, &["apiVersion"]), "v1");
    assert_eq!(text_at(service, &["metadata", "name"]), "compute-east");
    assert_eq!(text_at(service, &["metadata", "namespace"]), "ns1");
    let ports = at(service, &["spec", "ports"]);
    assert_eq!(len(ports), 1);
    assert_eq!(number_at(item(ports, 0), &["port"]), 6033);
    assert_eq!(text_at(item(ports, 0), &["name"]), "noria");
    assert_eq!(number_at(item(ports, 0), &["targetPort"]), 6033);
    assert_eq!(text_at(service, &["spec", "selector", "noria-operator.io/kind"]), "noria-server");
    assert_eq!(text_at(service, &["spec", "selector", "noria-operator.io/name"]), "east");
}

#[test]
fn server_stateful_set() {
    let children = server::create_config(&None, "east").children("ns1");
    let set = &children[1];
    assert_eq!(text_at(set, &["apiVersion"]), "apps/v1");
    assert_eq!(text_at(set, &["metadata", "name"]), "compute-east");
    assert_eq!(number_at(set, &["spec", "replicas"]), 3);
    assert_eq!(text_at(set, &["spec", "serviceName"]), "compute-east");
    assert_eq!(text_at(set, &["spec", "updateStrategy", "type"]), "OnDelete");
    assert_eq!(text_at(set, &["spec", "template", "metadata", "name"]), "compute-east");
    assert_eq!(
        text_at(set, &["spec", "selector", "matchLabels", "noria-operator.io/name"]),
        "east"
    );
    assert_eq!(
        text_at(set, &["spec", "template", "metadata", "labels", "noria-operator.io/kind"]),
        "noria-server"
    );
    let claim = item(at(set, &["spec", "volumeClaimTemplates"]), 0);
    assert_eq!(text_at(claim, &["spec", "resources", "requests", "storage"]), "1Gi");
}

#[test]
fn server_command_embeds_tenant_heap_quorum_and_coordinator() {
    let children = server::create_config(&None, "east").children("ns1");
    let container = item(at(&children[1], &["spec", "template", "spec", "containers"]), 0);
    let command = at(container, &["command"]);
    assert_eq!(len(command), 2);
    assert_eq!(text_at(item(command, 0), &[]), "bash");
    assert_eq!(text_at(item(command, 1), &[]), "-exc");
    assert_eq!(
        text_at(item(at(container, &["args"]), 0), &[]),
        "/usr/local/bin/noria-server --address $NODE_IP \\\n              --deployment east --log-dir /var/lib/noria --memory 100663296 \\\n              --quorum 3 --shards 0 --zookeeper zookeeper-noria-client:2181"
    );
}

#[test]
fn server_command_with_the_largest_heap() {
    let config = server::create_config(
        &Some(NoriaServerConfig {
            version: None,
            max_heap: Some(u64::MAX),
            storage_size: None,
            replicas: Some(0),
        }),
        "t",
    );
    let children = config.children("ns1");
    let container = item(at(&children[1], &["spec", "template", "spec", "containers"]), 0);
    let line = text_at(item(at(container, &["args"]), 0), &[]);
    assert!(line.contains("--memory 19342813113834066794250240 "));
    assert!(line.contains("--quorum 0 "));
}

#[test]
fn server_container() {
    let children = server::create_config(&None, "east").children("ns1");
    let container = item(at(&children[1], &["spec", "template", "spec", "containers"]), 0);
    assert_eq!(text_at(container, &["name"]), "noria-server");
    assert_eq!(text_at(container, &["image"]), "fussybeaver/noria:0.4.1");
    assert_eq!(text_at(container, &["imagePullPolicy"]), "Always");
    let env = at(container, &["env"]);
    assert_eq!(len(env), 2);
    assert_eq!(text_at(item(env, 0), &["name"]), "RUST_LOG");
    assert_eq!(text_at(item(env, 0), &["value"]), "debug");
    assert_eq!(text_at(item(env, 1), &["name"]), "NODE_IP");
    assert_eq!(text_at(item(env, 1), &["valueFrom", "fieldRef", "apiVersion"]), "v1");
    assert_eq!(text_at(item(env, 1), &["valueFrom", "fieldRef", "fieldPath"]), "status.podIP");
    let port = item(at(container, &["ports"]), 0);
    assert_eq!(number_at(port, &["containerPort"]), 6033);
    assert_eq!(text_at(port, &["name"]), "api");
    assert_eq!(text_at(port, &["protocol"]), "TCP");
    let probe = at(container, &["livenessProbe"]);
    assert_eq!(number_at(probe, &["tcpSocket", "port"]), 6033);
    assert_eq!(number_at(probe, &["initialDelaySeconds"]), 60);
    let mount = item(at(container, &["volumeMounts"]), 0);
    assert_eq!(text_at(mount, &["mountPath"]), "/var/lib/noria");
    assert_eq!(text_at(mount, &["name"]), "data");
}

#[test]
fn mysql_service() {
    let children = mysql::create_config(&None, "east").children("ns1");
    assert_eq!(children.len(), 2);
    let service = &children[0];
    assert_eq!(text_at(service, &["kind"]), "Service");
    assert_eq!(text_at(service, &["metadata", "name"]), "gateway-east");
    let port = item(at(service, &["spec", "ports"]), 0);
    assert_eq!(number_at(port, &["port"]), 3306);
    assert_eq!(text_at(port, &["name"]), "mysql");
    assert_eq!(number_at(port, &["targetPort"]), 3306);
    assert_eq!(text_at(service, &["spec", "selector", "noria-operator.io/kind"]), "noria-mysql");
    assert_eq!(text_at(service, &["spec", "selector", "noria-operator.io/name"]), "east");
}

#[test]
fn mysql_deployment_rolls_by_itself() {
    let children = mysql::create_config(&None, "east").children("ns1");
    let workload = &children[1];
    assert_eq!(text_at(workload, &["apiVersion"]), "extensions/v1beta1");
    assert_eq!(text_at(workload, &["kind"]), "Deployment");
    assert_eq!(text_at(workload, &["metadata", "name"]), "gateway-east");
    assert_eq!(number_at(workload, &["spec", "replicas"]), 3);
    assert_eq!(text_at(workload, &["spec", "strategy", "type"]), "RollingUpdate");
    assert_eq!(
        text_at(workload, &["spec", "selector", "matchLabels", "noria-operator.io/kind"]),
        "noria-mysql"
    );
    assert_eq!(
        text_at(workload, &["spec", "template", "metadata", "labels", "noria-operator.io/name"]),
        "east"
    );
    assert!(workload.get("spec").unwrap().get("volumeClaimTemplates").is_none());
}

#[test]
fn mysql_container() {
    let children = mysql::create_config(&None, "east").children("ns1");
    let container = item(at(&children[1], &["spec", "template", "spec", "containers"]), 0);
    assert_eq!(text_at(container, &["name"]), "noria-mysql");
    assert_eq!(text_at(container, &["image"]), "fussybeaver/noria:0.4.1");
    assert_eq!(
        text_at(item(at(container, &["args"]), 0), &[]),
        "/usr/local/bin/noria-mysql --address ${NODE_IP}:3306 \\\n              --deployment east --zookeeper-address zookeeper-noria-client:2181"
    );
    let port = item(at(container, &["ports"]), 0);
    assert_eq!(number_at(port, &["containerPort"]), 3306);
    assert_eq!(text_at(port, &["name"]), "clients");
    let probe = at(container, &["livenessProbe"]);
    assert_eq!(
        text_at(item(at(probe, &["exec", "command"]), 2), &[]),
        "mysqladmin ping -h \"$NODE_IP\""
    );
    assert_eq!(number_at(probe, &["initialDelaySeconds"]), 60);
    assert!(container.get("resources").is_none());
}

#[test]
fn ui_service() {
    let children = ui::create_config(&None).children("ns1");
    assert_eq!(children.len(), 2);
    let service = &children[0];
    assert_eq!(text_at(service, &["metadata", "name"]), "noria-ui");
    let port = item(at(service, &["spec", "ports"]), 0);
    assert_eq!(number_at(port, &["port"]), 80);
    assert_eq!(text_at(port, &["name"]), "ui");
    assert_eq!(number_at(port, &["targetPort"]), 8000);
    assert_eq!(text_at(service, &["spec", "selector", "noria-operator.io/kind"]), "noria-ui");
    assert_eq!(text_at(service, &["spec", "selector", "noria-operator.io/name"]), "noria");
}

#[test]
fn ui_deployment() {
    let children = ui::create_config(&None).children("ns1");
    let workload = &children[1];
    assert_eq!(text_at(workload, &["kind"]), "Deployment");
    assert_eq!(number_at(workload, &["spec", "replicas"]), 1);
    assert_eq!(text_at(workload, &["spec", "strategy", "type"]), "RollingUpdate");
    let container = item(at(workload, &["spec", "template", "spec", "containers"]), 0);
    let command = at(container, &["command"]);
    assert_eq!(len(command), 3);
    assert_eq!(text_at(item(command, 0), &[]), "python3");
    assert_eq!(text_at(item(command, 1), &[]), "-m");
    assert_eq!(text_at(item(command, 2), &[]), "http.server");
    assert_eq!(text_at(container, &["workingDir"]), "/srv/noria-ui");
    assert_eq!(text_at(container, &["name"]), "noria-ui");
    assert_eq!(text_at(container, &["image"]), "fussybeaver/noria:0.4.1");
    let port = item(at(container, &["ports"]), 0);
    assert_eq!(number_at(port, &["containerPort"]), 8000);
    assert_eq!(text_at(port, &["name"]), "web");
    let probe = at(container, &["livenessProbe"]);
    assert_eq!(text_at(probe, &["httpGet", "path"]), "/");
    assert_eq!(number_at(probe, &["httpGet", "port"]), 8000);
    assert_eq!(number_at(probe, &["initialDelaySeconds"]), 30);
    assert_eq!(number_at(probe, &["periodSeconds"]), 10);
}

#[test]
fn builder_renders_what_its_configuration_renders() {
    let servers = server::create_config(&None, "east");
    assert_eq!(Builder::Server(servers.clone()).children("ns1"), servers.children("ns1"));
    let adapter = mysql::create_config(&None, "east");
    assert_eq!(Builder::Mysql(adapter.clone()).children("ns1"), adapter.children("ns1"));
    let dashboard = ui::create_config(&None);
    assert_eq!(Builder::Ui(dashboard.clone()).children("ns1"), dashboard.children("ns1"));
    let ensemble = zookeeper::create_config(&None);
    assert_eq!(Builder::Zookeeper(ensemble.clone()).children("ns1"), ensemble.children("ns1"));
    assert_eq!(Builder::Zookeeper(ensemble).children("ns1").len(), 4);
    assert_eq!(Builder::Ui(dashboard).children("ns1").len(), 2);
}

#[test]
fn workloads_coordinate_through_the_client_service_of_the_ensemble() {
    let ensemble = zookeeper::create_config(&None).children("ns1");
    assert_eq!(text_at(&ensemble[2], &["metadata", "name"]), ZOOKEEPER_CLIENT_SERVICE_NAME);
}
