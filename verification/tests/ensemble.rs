use std::collections::hash_map::DefaultHasher;
use std::hash::{Hash, Hasher};

use noria_operator::digest::{calculate_hash, digest_of, hex_of_digest, to_be_bytes};
use noria_operator::json::Json;
use noria_operator::model::ZookeeperConfig;
use noria_operator::zookeeper::create_config;

fn at<'a>(doc: &'a Json, path: &[&str]) -> &'a Json {
    let mut here = doc;
    for key in path {
        here = match here.get(key) {
            Some(inner) => inner,
            None => panic!("no field {} in {:?}", key, here),
        };
    }
    here
}

fn item(doc: &Json, index: usize) -> &Json {
    match doc {
        Json::List(items) => &items[index],
        other => panic!("not a list: {:?}", other),
    }
}

fn len(doc: &Json) -> usize {
    match doc {
        Json::List(items) => items.len(),
        other => panic!("not a list: {:?}", other),
    }
}

fn text_at<'a>(doc: &'a Json, path: &[&str]) -> &'a str {
    match at(doc, path) {
        Json::Text(s) => s.as_str(),
        other => panic!("not a text: {:?}", other),
    }
}

fn number_at(doc: &Json, path: &[&str]) -> u64 {
    match at(doc, path) {
        Json::Num(n) => *n,
        other => panic!("not a number: {:?}", other),
    }
}

fn pairs(props: &[(&str, &str)]) -> Vec<(String, String)> {
    props.iter().map(|(k, v)| (k.to_string(), v.to_string())).collect()
}

fn overrides(replicas: Option<usize>, additional: Option<Vec<(String, String)>>) -> ZookeeperConfig {
    ZookeeperConfig {
        version: None,
        max_heap: None,
        storage_size: None,
        replicas,
        additional_properties: additional,
    }
}

fn reference_checksum(props: &[(String, String)]) -> String {
    let borrowed: Vec<(&str, &str)> = props.iter().map(|(k, v)| (k.as_str(), v.as_str())).collect();
    let mut hasher = DefaultHasher::new();
    borrowed.hash(&mut hasher);
    hex::encode(hasher.finish().to_be_bytes())
}

const DEFAULT_BLOB: &str = "autopurge.purgeInterval=1\n\
tickTime=2000\n\
initLimit=5\n\
syncLimit=2\n\
dataDir=/var/lib/zookeeper\n\
clientPort=2181\n\
4lw.commands.whitelist=stat, ruok, conf, isro\n\
server.1=zookeeper-noria-0.zookeeper-noria-nodes:2888:3888\n\
server.2=zookeeper-noria-1.zookeeper-noria-nodes:2888:3888\n\
server.3=zookeeper-noria-2.zookeeper-noria-nodes:2888:3888\n";

#[test]
fn ensemble_defaults() {
    let config = create_config(&None);
    assert_eq!(config.name, "zookeeper-noria");
    assert_eq!(config.version, "5.3.3");
    assert_eq!(config.max_heap, 512);
    assert_eq!(config.storage_size, 1024);
    assert_eq!(config.replicas, 3);
    assert_eq!(config.properties.len(), 10);
}

#[test]
fn ensemble_defaults_where_every_override_is_left_out() {
    let config = create_config(&Some(overrides(None, None)));
    assert_eq!(config, create_config(&None));
}

#[test]
fn ensemble_overrides_are_taken() {
    let config = create_config(&Some(ZookeeperConfig {
        version: Some("6.0.0".to_string()),
        max_heap: Some(2048),
        storage_size: Some(8192),
        replicas: Some(5),
        additional_properties: None,
    }));
    assert_eq!(config.version, "6.0.0");
    assert_eq!(config.max_heap, 2048);
    assert_eq!(config.storage_size, 8192);
    assert_eq!(config.replicas, 5);
    assert_eq!(config.properties.len(), 12);
}

#[test]
fn properties_start_from_the_base_list() {
    let config = create_config(&Some(overrides(Some(0), None)));
    assert_eq!(
        config.properties,
        pairs(&[
            ("autopurge.purgeInterval", "1"),
            ("tickTime", "2000"),
            ("initLimit", "5"),
            ("syncLimit", "2"),
            ("dataDir", "/var/lib/zookeeper"),
            ("clientPort", "2181"),
            ("4lw.commands.whitelist", "stat, ruok, conf, isro"),
        ])
    );
}

#[test]
fn peers_are_numbered_from_one_and_addressed_from_zero() {
    let config = create_config(&Some(overrides(Some(11), None)));
    assert_eq!(config.properties.len(), 18);
    assert_eq!(
        config.properties[7],
        (
            "server.1".to_string(),
            "zookeeper-noria-0.zookeeper-noria-nodes:2888:3888".to_string()
        )
    );
    assert_eq!(
        config.properties[17],
        (
            "server.11".to_string(),
            "zookeeper-noria-10.zookeeper-noria-nodes:2888:3888".to_string()
        )
    );
}

#[test]
fn additional_properties_follow_sorted_by_key() {
    let config = create_config(&Some(overrides(
        Some(1),
        Some(pairs(&[("zeta", "1"), ("alpha", "2"), ("maxClientCnxns", "60"), ("Beta", "3")])),
    )));
    assert_eq!(
        config.properties[8..].to_vec(),
        pairs(&[("Beta", "3"), ("alpha", "2"), ("maxClientCnxns", "60"), ("zeta", "1")])
    );
}

#[test]
fn ensemble_has_four_children() {
    let children = create_config(&None).children("ns1");
    assert_eq!(children.len(), 4);
}

#[test]
fn config_map_holds_the_rendered_properties() {
    let children = create_config(&None).children("ns1");
    let config_map = &children[0];
    assert_eq!(text_at(config_map, &["apiVersion"]), "v1");
    assert_eq!(text_at(config_map, &["kind"]), "ConfigMap");
    assert_eq!(text_at(config_map, &["metadata", "namespace"]), "ns1");
    assert_eq!(text_at(config_map, &["data", "zookeeper.properties"]), DEFAULT_BLOB);
}

#[test]
fn config_map_is_named_after_the_checksum() {
    let config = create_config(&None);
    let children = config.children("ns1");
    let want = format!("zookeeper-noria-properties-{}", reference_checksum(&config.properties));
    assert_eq!(text_at(&children[0], &["metadata", "name"]), want);
    assert_eq!(want.len(), "zookeeper-noria-properties-".len() + 16);
}

#[test]
fn stateful_set_mounts_the_config_map_by_its_name() {
    let children = create_config(&None).children("ns1");
    let name = text_at(&children[0], &["metadata", "name"]);
    let volume = item(at(&children[3], &["spec", "template", "spec", "volumes"]), 0);
    assert_eq!(text_at(volume, &["name"]), "properties");
    assert_eq!(text_at(volume, &["configMap", "name"]), name);
}

#[test]
fn children_named_takes_the_checksum_as_given() {
    let config = create_config(&None);
    let children = config.children_named("ns1", "00ff00ff00ff00ff");
    assert_eq!(
        text_at(&children[0], &["metadata", "name"]),
        "zookeeper-noria-properties-00ff00ff00ff00ff"
    );
    let volume = item(at(&children[3], &["spec", "template", "spec", "volumes"]), 0);
    assert_eq!(
        text_at(volume, &["configMap", "name"]),
        "zookeeper-noria-properties-00ff00ff00ff00ff"
    );
    let named = config.children("ns1");
    assert_eq!(named[1..3], children[1..3]);
}

#[test]
fn a_changed_property_changes_the_name() {
    let plain = create_config(&None).children("ns1");
    let tuned = create_config(&Some(overrides(None, Some(pairs(&[("maxClientCnxns", "60")])))))
        .children("ns1");
    let retuned = create_config(&Some(overrides(None, Some(pairs(&[("maxClientCnxns", "61")])))))
        .children("ns1");
    let plain_name = text_at(&plain[0], &["metadata", "name"]);
    let tuned_name = text_at(&tuned[0], &["metadata", "name"]);
    let retuned_name = text_at(&retuned[0], &["metadata", "name"]);
    assert_ne!(plain_name, tuned_name);
    assert_ne!(tuned_name, retuned_name);
    assert_ne!(plain_name, retuned_name);
}

#[test]
fn unchanged_properties_keep_the_name() {
    let one = create_config(&Some(ZookeeperConfig {
        version: Some("5.3.3".to_string()),
        max_heap: Some(512),
        storage_size: Some(1024),
        replicas: Some(3),
        additional_properties: Some(pairs(&[("a", "1"), ("b", "2")])),
    }))
    .children("ns1");
    let other = create_config(&Some(ZookeeperConfig {
        version: Some("9.9.9".to_string()),
        max_heap: Some(4096),
        storage_size: Some(2048),
        replicas: Some(3),
        additional_properties: Some(pairs(&[("b", "2"), ("a", "1")])),
    }))
    .children("ns2");
    assert_eq!(text_at(&one[0], &["metadata", "name"]), text_at(&other[0], &["metadata", "name"]));
}

#[test]
fn the_number_of_replicas_is_part_of_the_properties() {
    let three = create_config(&Some(overrides(Some(3), None))).children("ns1");
    let five = create_config(&Some(overrides(Some(5), None))).children("ns1");
    assert_ne!(text_at(&three[0], &["metadata", "name"]), text_at(&five[0], &["metadata", "name"]));
}

#[test]
fn calculate_hash_is_the_default_hasher_in_hex() {
    let props = pairs(&[("tickTime", "2000"), ("initLimit", "5")]);
    assert_eq!(calculate_hash(&props), reference_checksum(&props));
    let none: Vec<(String, String)> = Vec::new();
    assert_eq!(calculate_hash(&none), reference_checksum(&none));
}

#[test]
fn digest_is_the_default_hasher_of_the_pairs() {
    let props = pairs(&[("tickTime", "2000")]);
    let mut hasher = DefaultHasher::new();
    vec![("tickTime", "2000")].hash(&mut hasher);
    assert_eq!(digest_of(&props), hasher.finish());
}

#[test]
fn hex_of_digest_writes_sixteen_lower_case_digits() {
    assert_eq!(hex_of_digest(0), "0000000000000000");
    assert_eq!(hex_of_digest(0x0123_4567_89ab_cdef), "0123456789abcdef");
    assert_eq!(hex_of_digest(u64::MAX), "ffffffffffffffff");
    assert_eq!(hex_of_digest(255), "00000000000000ff");
    assert_eq!(hex_of_digest(0xA0B0_C0D0_E0F0_0102), "a0b0c0d0e0f00102");
}

#[test]
fn bytes_come_most_significant_first() {
    assert_eq!(to_be_bytes(0x0102_0304_0506_0708), vec![1, 2, 3, 4, 5, 6, 7, 8]);
    assert_eq!(to_be_bytes(1), vec![0, 0, 0, 0, 0, 0, 0, 1]);
    assert_eq!(to_be_bytes(u64::MAX), vec![255; 8]);
    assert_eq!(to_be_bytes(0xdead_beef_0000_0000).to_vec(), 0xdead_beef_0000_0000u64.to_be_bytes().to_vec());
}

#[test]
fn nodes_service_is_headless_and_publishes_all_ports() {
    let children = create_config(&None).children("ns1");
    let service = &children[1];
    assert_eq!(text_at(service, &["kind"]), "Service");
    assert_eq!(text_at(service, &["metadata", "name"]), "zookeeper-noria-nodes");
    assert_eq!(text_at(service, &["spec", "clusterIP"]), "None");
    assert_eq!(text_at(service, &["spec", "sessionAffinity"]), "None");
    assert_eq!(at(service, &["spec", "publishNotReadyAddresses"]), &Json::Bool(true));
    let ports = at(service, &["spec", "ports"]);
    assert_eq!(len(ports), 3);
    let want = [(2181, "clients"), (2888, "clustering"), (3888, "leader-election")];
    for (i, (port, name)) in want.iter().enumerate() {
        assert_eq!(number_at(item(ports, i), &["port"]), *port);
        assert_eq!(number_at(item(ports, i), &["targetPort"]), *port);
        assert_eq!(text_at(item(ports, i), &["name"]), *name);
    }
    assert_eq!(text_at(service, &["spec", "selector", "noria-operator.io/kind"]), "zookeeper");
    assert_eq!(text_at(service, &["spec", "selector", "noria-operator.io/name"]), "noria");
}

#[test]
fn client_service_exposes_the_client_port_only() {
    let children = create_config(&None).children("ns1");
    let service = &children[2];
    assert_eq!(text_at(service, &["kind"]), "Service");
    assert_eq!(text_at(service, &["metadata", "name"]), "zookeeper-noria-client");
    let ports = at(service, &["spec", "ports"]);
    assert_eq!(len(ports), 1);
    assert_eq!(number_at(item(ports, 0), &["port"]), 2181);
    assert_eq!(text_at(item(ports, 0), &["name"]), "clients");
    assert!(service.get("spec").unwrap().get("clusterIP").is_none());
}

#[test]
fn stateful_set_of_the_ensemble() {
    let children = create_config(&None).children("ns1");
    let set = &children[3];
    assert_eq!(text_at(set, &["apiVersion"]), "apps/v1");
    assert_eq!(text_at(set, &["kind"]), "StatefulSet");
    assert_eq!(text_at(set, &["metadata", "name"]), "zookeeper-noria");
    assert_eq!(text_at(set, &["spec", "podManagementPolicy"]), "Parallel");
    assert_eq!(number_at(set, &["spec", "replicas"]), 3);
    assert_eq!(text_at(set, &["spec", "serviceName"]), "zookeeper-noria-nodes");
    assert_eq!(text_at(set, &["spec", "updateStrategy", "type"]), "OnDelete");
    assert_eq!(
        text_at(set, &["spec", "selector", "matchLabels", "noria-operator.io/kind"]),
        "zookeeper"
    );
    assert_eq!(
        text_at(set, &["spec", "template", "metadata", "labels", "noria-operator.io/name"]),
        "noria"
    );
    let claim = item(at(set, &["spec", "volumeClaimTemplates"]), 0);
    assert_eq!(text_at(claim, &["metadata", "name"]), "data");
    assert_eq!(text_at(claim, &["spec", "resources", "requests", "storage"]), "1Gi");
    assert_eq!(text_at(item(at(claim, &["spec", "accessModes"]), 0), &[]), "ReadWriteOnce");
}

#[test]
fn init_container_derives_the_member_identity() {
    let children = create_config(&None).children("ns1");
    let init = item(at(&children[3], &["spec", "template", "spec", "initContainers"]), 0);
    assert_eq!(text_at(init, &["name"]), "init-zookeeper");
    assert_eq!(text_at(init, &["image"]), "confluentinc/cp-zookeeper:5.3.3");
    let command = at(init, &["command"]);
    assert_eq!(len(command), 3);
    assert_eq!(text_at(item(command, 0), &[]), "bash");
    assert_eq!(text_at(item(command, 1), &[]), "-c");
    assert_eq!(
        text_at(item(command, 2), &[]),
        "set -ex\n                        [[ `hostname` =~ -([0-9]+)$ ]] || exit 1\n                        echo $((BASH_REMATCH[1] + 1)) > /var/lib/zookeeper/myid"
    );
    let mount = item(at(init, &["volumeMounts"]), 0);
    assert_eq!(text_at(mount, &["mountPath"]), "/var/lib/zookeeper");
    assert_eq!(text_at(mount, &["name"]), "data");
}

#[test]
fn ensemble_container() {
    let children = create_config(&None).children("ns1");
    let container = item(at(&children[3], &["spec", "template", "spec", "containers"]), 0);
    assert_eq!(text_at(container, &["name"]), "zookeeper");
    assert_eq!(text_at(container, &["image"]), "confluentinc/cp-zookeeper");
    assert_eq!(text_at(container, &["imagePullPolicy"]), "IfNotPresent");
    assert_eq!(
        text_at(item(at(container, &["command"]), 0), &[]),
        "/usr/bin/zookeeper-server-start"
    );
    assert_eq!(
        text_at(item(at(container, &["args"]), 0), &[]),
        "/etc/kafka/zookeeper.properties"
    );
    let env = item(at(container, &["env"]), 0);
    assert_eq!(text_at(env, &["name"]), "KAFKA_HEAP_OPTS");
    assert_eq!(text_at(env, &["value"]), "-Xmx512m");
    assert_eq!(text_at(container, &["resources", "limits", "memory"]), "665Mi");
    assert_eq!(text_at(container, &["resources", "requests", "memory"]), "665Mi");
    let ports = at(container, &["ports"]);
    assert_eq!(len(ports), 3);
    assert_eq!(number_at(item(ports, 1), &["containerPort"]), 2888);
    assert_eq!(text_at(item(ports, 1), &["protocol"]), "TCP");
    let mounts = at(container, &["volumeMounts"]);
    assert_eq!(len(mounts), 2);
    assert_eq!(text_at(item(mounts, 1), &["mountPath"]), "/etc/kafka/zookeeper.properties");
    assert_eq!(text_at(item(mounts, 1), &["subPath"]), "zookeeper.properties");
    assert_eq!(text_at(item(mounts, 1), &["name"]), "properties");
}

#[test]
fn ensemble_liveness_probe_asks_ruok() {
    let children = create_config(&None).children("ns1");
    let container = item(at(&children[3], &["spec", "template", "spec", "containers"]), 0);
    let probe = at(container, &["livenessProbe"]);
    let command = at(probe, &["exec", "command"]);
    assert_eq!(text_at(item(command, 0), &[]), "bash");
    assert_eq!(text_at(item(command, 1), &[]), "-exc");
    assert_eq!(
        text_at(item(command, 2), &[]),
        "[[ \"$(echo ruok | nc 127.0.0.1 2181)\" = \"imok\" ]]"
    );
    assert_eq!(number_at(probe, &["failureThreshold"]), 3);
    assert_eq!(number_at(probe, &["initialDelaySeconds"]), 60);
    assert_eq!(number_at(probe, &["periodSeconds"]), 10);
    assert_eq!(number_at(probe, &["successThreshold"]), 1);
    assert_eq!(number_at(probe, &["timeoutSeconds"]), 5);
}
