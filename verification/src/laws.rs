//! What holds of synthesis as a whole, proved from the definitions that the
//! contracts of the library use.

use vstd::prelude::*;
use crate::canon::lemma_canonical_ignores_order;
use crate::digest::{checksum, lemma_hex_of_digest_injective, properties_digest};
use crate::manifest::{is_manifest, name_of, namespace_of};
use crate::model::{DeploymentView, NoriaSpecView, ZookeeperConfigView};
use crate::mysql::mysql_name;
use crate::server::server_name;
use crate::sync::{
    dashboard_docs, ensemble_docs, first_dashed, lemma_first_dashed, lemma_tenants_docs_len,
    synthesized, tenant_docs, tenants_docs,
};
use crate::text::has_dash;
use crate::ui::NORIA_UI_NAME;
use crate::zookeeper::{
    client_service_name, nodes_service_name, properties_name, resolve, ZOOKEEPER_NAME,
};

verus! {

/// Where no tenant identifier holds a dash, synthesis succeeds with four
/// manifests for the ensemble, four for each tenant and two for the dashboard.
pub proof fn lemma_dash_free_cluster_is_synthesised(spec: NoriaSpecView, namespace: Seq<char>)
    requires
        forall|i: int| 0 <= i < spec.deployments.len() ==> !has_dash(spec.deployments[i].id),
    ensures
        synthesized(spec, namespace) is Ok,
        synthesized(spec, namespace)->Ok_0.len() == 6 + 4 * spec.deployments.len(),
{
    lemma_first_dashed(spec.deployments);
    lemma_tenants_docs_len(spec.deployments, namespace);
    if let Some(id) = first_dashed(spec.deployments) {
        let i = choose|i: int|
            0 <= i < spec.deployments.len() && #[trigger] spec.deployments[i].id == id && has_dash(
                id,
            );
        assert(has_dash(spec.deployments[i].id));
    }
}

/// One tenant identifier with a dash fails the whole synthesis, however many
/// other tenants are in order: there is no manifest, and the identifier that
/// is reported holds a dash and is a tenant's.
pub proof fn lemma_dashed_tenant_fails_synthesis(
    spec: NoriaSpecView,
    namespace: Seq<char>,
    tenant: int,
)
    requires
        0 <= tenant < spec.deployments.len(),
        has_dash(spec.deployments[tenant].id),
    ensures
        synthesized(spec, namespace) is Err,
        has_dash(synthesized(spec, namespace)->Err_0),
        exists|i: int|
            0 <= i < spec.deployments.len() && #[trigger] spec.deployments[i].id == synthesized(
                spec,
                namespace,
            )->Err_0,
{
    lemma_first_dashed(spec.deployments);
    assert(spec.deployments[tenant].id == spec.deployments[tenant].id);
}

/// Two ensemble descriptions that differ at most in the order of their
/// additional properties.
pub open spec fn same_ensemble_up_to_order(
    a: Option<ZookeeperConfigView>,
    b: Option<ZookeeperConfigView>,
) -> bool {
    match (a, b) {
        (None, None) => true,
        (Some(x), Some(y)) => {
            &&& x.version == y.version
            &&& x.max_heap == y.max_heap
            &&& x.storage_size == y.storage_size
            &&& x.replicas == y.replicas
            &&& match (x.additional_properties, y.additional_properties) {
                (None, None) => true,
                (Some(p), Some(q)) => p.to_multiset() == q.to_multiset(),
                _ => false,
            }
        },
        _ => false,
    }
}

/// Synthesis is a function of what is declared, and the order in which the
/// additional properties are written down is no part of it: two descriptions
/// with the same tenants, the same dashboard and the same ensemble, the
/// additional properties being the same pairs in any order, have the same
/// outcome, manifest for manifest and name for name.
pub proof fn lemma_synthesis_ignores_property_order(
    a: NoriaSpecView,
    b: NoriaSpecView,
    namespace: Seq<char>,
)
    requires
        a.deployments == b.deployments,
        a.noria_ui == b.noria_ui,
        same_ensemble_up_to_order(a.zookeeper, b.zookeeper),
    ensures
        synthesized(a, namespace) == synthesized(b, namespace),
{
    if let (Some(x), Some(y)) = (a.zookeeper, b.zookeeper) {
        if let (Some(p), Some(q)) = (x.additional_properties, y.additional_properties) {
            lemma_canonical_ignores_order(p, q);
        }
    }
    assert(crate::zookeeper::resolve(a.zookeeper) == crate::zookeeper::resolve(b.zookeeper));
}

/// The name of the ensemble's config map tells the digest of the properties,
/// and nothing else of them: two property lists give one name exactly when
/// they have one digest.
pub proof fn lemma_config_map_name_follows_digest(
    name: Seq<char>,
    p: Seq<(Seq<char>, Seq<char>)>,
    q: Seq<(Seq<char>, Seq<char>)>,
)
    ensures
        properties_name(name, checksum(p)) == properties_name(name, checksum(q))
            <==> properties_digest(p) == properties_digest(q),
{
    let head = name + "-properties-"@;
    let left = properties_name(name, checksum(p));
    let right = properties_name(name, checksum(q));
    if left == right {
        assert(left.subrange(head.len() as int, left.len() as int) =~= checksum(p));
        assert(right.subrange(head.len() as int, right.len() as int) =~= checksum(q));
        lemma_hex_of_digest_injective(properties_digest(p), properties_digest(q));
    }
}

/// The name of the ensemble's config map changes if and only if the resolved
/// properties change, for property lists that the digest tells apart. A
/// digest has 64 bits, so some distinct lists share one; of those the name
/// says nothing.
pub proof fn lemma_config_map_name_follows_properties(
    name: Seq<char>,
    p: Seq<(Seq<char>, Seq<char>)>,
    q: Seq<(Seq<char>, Seq<char>)>,
)
    requires
        p != q ==> properties_digest(p) != properties_digest(q),
    ensures
        properties_name(name, checksum(p)) != properties_name(name, checksum(q)) <==> p != q,
{
    lemma_config_map_name_follows_digest(name, p, q);
}

/// Without overrides the ensemble has 3 replicas, a heap of 512 MiB and
/// 1024 MiB of storage; a tenant's servers have 3 replicas, a heap of 96 MiB
/// and 1024 MiB of storage; its adapter has 3 replicas; the dashboard has 1.
pub proof fn lemma_defaults(id: Seq<char>)
    ensures
        crate::zookeeper::resolve(None).replicas == 3,
        crate::zookeeper::resolve(None).max_heap == 512,
        crate::zookeeper::resolve(None).storage_size == 1024,
        crate::zookeeper::resolve(None).version == "5.3.3"@,
        crate::server::resolve(None, id).replicas == 3,
        crate::server::resolve(None, id).max_heap == 96,
        crate::server::resolve(None, id).storage_size == 1024,
        crate::server::resolve(None, id).version == "0.4.1"@,
        crate::mysql::resolve(None, id).replicas == 3,
        crate::mysql::resolve(None, id).version == "0.4.1"@,
        crate::ui::resolve(None).replicas == 1,
        crate::ui::resolve(None).version == "0.4.1"@,
{
}

/// The manifests of the tenants stand tenant by tenant: those of tenant
/// `tenant` are the four from position `4 * tenant` on.
pub proof fn lemma_tenant_position(
    deployments: Seq<DeploymentView>,
    namespace: Seq<char>,
    tenant: int,
)
    requires
        0 <= tenant < deployments.len(),
    ensures
        tenants_docs(deployments, namespace).len() == 4 * deployments.len(),
        tenants_docs(deployments, namespace).subrange(4 * tenant, 4 * tenant + 4) == tenant_docs(
            deployments[tenant],
            namespace,
        ),
    decreases deployments.len(),
{
    lemma_tenants_docs_len(deployments, namespace);
    let all = tenants_docs(deployments, namespace);
    let init = tenants_docs(deployments.drop_last(), namespace);
    lemma_tenants_docs_len(deployments.drop_last(), namespace);
    if tenant == deployments.len() - 1 {
        assert(all.subrange(4 * tenant, 4 * tenant + 4) =~= tenant_docs(
            deployments.last(),
            namespace,
        ));
    } else {
        lemma_tenant_position(deployments.drop_last(), namespace, tenant);
        assert(all.subrange(4 * tenant, 4 * tenant + 4) =~= init.subrange(
            4 * tenant,
            4 * tenant + 4,
        ));
    }
}

/// The order of emission: the ensemble's four manifests first, then each
/// tenant's four in the order of the tenants, the dashboard's two last.
pub proof fn lemma_emission_order(spec: NoriaSpecView, namespace: Seq<char>, tenant: int)
    requires
        synthesized(spec, namespace) is Ok,
        0 <= tenant < spec.deployments.len(),
    ensures
        ({
            let children = synthesized(spec, namespace)->Ok_0;
            let tenants = spec.deployments.len() as int;
            &&& children.len() == 6 + 4 * tenants
            &&& children.subrange(0, 4) == ensemble_docs(spec.zookeeper, namespace)
            &&& children.subrange(4 + 4 * tenant, 8 + 4 * tenant) == tenant_docs(
                spec.deployments[tenant],
                namespace,
            )
            &&& children.subrange(4 + 4 * tenants, 6 + 4 * tenants) == dashboard_docs(
                spec.noria_ui,
                namespace,
            )
        }),
{
    let children = synthesized(spec, namespace)->Ok_0;
    let ensemble = ensemble_docs(spec.zookeeper, namespace);
    let tenants = tenants_docs(spec.deployments, namespace);
    let dashboard = dashboard_docs(spec.noria_ui, namespace);
    let count = spec.deployments.len() as int;
    lemma_tenant_position(spec.deployments, namespace, tenant);
    assert(children == ensemble + tenants + dashboard);
    assert(children.subrange(0, 4) =~= ensemble);
    assert(children.subrange(4 + 4 * tenant, 8 + 4 * tenant) =~= tenants.subrange(
        4 * tenant,
        4 * tenant + 4,
    ));
    assert(children.subrange(4 + 4 * count, 6 + 4 * count) =~= dashboard);
}

/// One ensemble and one dashboard for each cluster: the first four children
/// are the ensemble's config map, named after the checksum of the resolved
/// properties, its two services and its stateful set; the last two are the
/// dashboard's service and deployment.
pub proof fn lemma_ensemble_and_dashboard_identity(spec: NoriaSpecView, namespace: Seq<char>)
    requires
        synthesized(spec, namespace) is Ok,
    ensures
        ({
            let children = synthesized(spec, namespace)->Ok_0;
            let last = 4 + 4 * (spec.deployments.len() as int);
            let properties = resolve(spec.zookeeper).properties;
            &&& children.len() == last + 2
            &&& is_manifest(
                children[0],
                "v1"@,
                "ConfigMap"@,
                properties_name(ZOOKEEPER_NAME@, checksum(properties)),
                namespace,
            )
            &&& is_manifest(
                children[1],
                "v1"@,
                "Service"@,
                nodes_service_name(ZOOKEEPER_NAME@),
                namespace,
            )
            &&& is_manifest(
                children[2],
                "v1"@,
                "Service"@,
                client_service_name(ZOOKEEPER_NAME@),
                namespace,
            )
            &&& is_manifest(children[3], "apps/v1"@, "StatefulSet"@, ZOOKEEPER_NAME@, namespace)
            &&& is_manifest(children[last], "v1"@, "Service"@, NORIA_UI_NAME@, namespace)
            &&& is_manifest(
                children[last + 1],
                "extensions/v1beta1"@,
                "Deployment"@,
                NORIA_UI_NAME@,
                namespace,
            )
        }),
{
    let config = resolve(spec.zookeeper);
    lemma_tenants_docs_len(spec.deployments, namespace);
    crate::zookeeper::lemma_children_identity(config, namespace, checksum(config.properties));
    crate::ui::lemma_children_identity(crate::ui::resolve(spec.noria_ui), namespace);
}

/// Each tenant has its own servers and adapter, named by its identifier: of
/// the four children of a tenant the first two are the service and the
/// stateful set of its servers, the last two the service and the deployment
/// of its adapter.
pub proof fn lemma_tenant_children_identity(spec: NoriaSpecView, namespace: Seq<char>, tenant: int)
    requires
        synthesized(spec, namespace) is Ok,
        0 <= tenant < spec.deployments.len(),
    ensures
        ({
            let children = synthesized(spec, namespace)->Ok_0;
            let id = spec.deployments[tenant].id;
            let first = 4 + 4 * tenant;
            &&& first + 3 < children.len()
            &&& is_manifest(children[first], "v1"@, "Service"@, server_name(id), namespace)
            &&& is_manifest(
                children[first + 1],
                "apps/v1"@,
                "StatefulSet"@,
                server_name(id),
                namespace,
            )
            &&& is_manifest(children[first + 2], "v1"@, "Service"@, mysql_name(id), namespace)
            &&& is_manifest(
                children[first + 3],
                "extensions/v1beta1"@,
                "Deployment"@,
                mysql_name(id),
                namespace,
            )
        }),
{
    let children = synthesized(spec, namespace)->Ok_0;
    let deployment = spec.deployments[tenant];
    let first = 4 + 4 * tenant;
    lemma_emission_order(spec, namespace, tenant);
    let own = children.subrange(first, first + 4);
    assert(own == tenant_docs(deployment, namespace));
    assert(children[first] == own[0] && children[first + 1] == own[1]);
    assert(children[first + 2] == own[2] && children[first + 3] == own[3]);
    crate::server::lemma_children_identity(
        crate::server::resolve(deployment.noria_server, deployment.id),
        namespace,
    );
    crate::mysql::lemma_children_identity(
        crate::mysql::resolve(deployment.noria_mysql, deployment.id),
        namespace,
    );
}

/// Every child lives in the namespace that the synthesis was made for.
pub proof fn lemma_children_live_in_namespace(spec: NoriaSpecView, namespace: Seq<char>, child: int)
    requires
        synthesized(spec, namespace) is Ok,
        0 <= child < synthesized(spec, namespace)->Ok_0.len(),
    ensures
        namespace_of(synthesized(spec, namespace)->Ok_0[child]) == Some(namespace),
{
    lemma_ensemble_and_dashboard_identity(spec, namespace);
    let tenants = spec.deployments.len() as int;
    if 4 <= child < 4 + 4 * tenants {
        let tenant = (child - 4) / 4;
        lemma_tenant_children_identity(spec, namespace, tenant);
    }
}

/// Between two syntheses, the ensemble's config map changes its name if and
/// only if the resolved properties change: the base list, the peers that the
/// number of replicas gives, and the additional properties in canonical
/// order. This is stated for property lists that the digest tells apart.
pub proof fn lemma_config_map_is_renamed_with_its_properties(
    a: NoriaSpecView,
    a_namespace: Seq<char>,
    b: NoriaSpecView,
    b_namespace: Seq<char>,
)
    requires
        synthesized(a, a_namespace) is Ok,
        synthesized(b, b_namespace) is Ok,
        resolve(a.zookeeper).properties != resolve(b.zookeeper).properties ==> properties_digest(
            resolve(a.zookeeper).properties,
        ) != properties_digest(resolve(b.zookeeper).properties),
    ensures
        name_of(synthesized(a, a_namespace)->Ok_0[0]) != name_of(
            synthesized(b, b_namespace)->Ok_0[0],
        ) <==> resolve(a.zookeeper).properties != resolve(b.zookeeper).properties,
{
    lemma_ensemble_and_dashboard_identity(a, a_namespace);
    lemma_ensemble_and_dashboard_identity(b, b_namespace);
    lemma_config_map_name_follows_properties(
        ZOOKEEPER_NAME@,
        resolve(a.zookeeper).properties,
        resolve(b.zookeeper).properties,
    );
}

} // verus!
