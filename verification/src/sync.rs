//! Synthesis: from a cluster description to its children. Every tenant
//! identifier is checked first; then the ensemble's manifests come out, then
//! each tenant's servers and adapter in the order of the tenants, and the
//! dashboard's last.

use vstd::prelude::*;
use vstd::string::*;
use crate::builder::Builder;
use crate::digest::checksum;
use crate::error::{dash_message, DeploymentIdDashError};
use crate::json::{append_docs, items_view, owned_text, text, Doc, Json};
use crate::model::{
    DeploymentView, Noria, NoriaSpec, NoriaSpecView, NoriaUiConfigView, ZookeeperConfigView,
};
use crate::text::{contains_dash, has_dash};

verus! {

/// The identifier of the first tenant whose identifier holds a dash.
pub open spec fn first_dashed(deployments: Seq<DeploymentView>) -> Option<Seq<char>>
    decreases deployments.len(),
{
    if deployments.len() == 0 {
        None
    } else if has_dash(deployments[0].id) {
        Some(deployments[0].id)
    } else {
        first_dashed(deployments.drop_first())
    }
}

/// The manifests of the ensemble that `zookeeper` resolves to.
pub open spec fn ensemble_docs(zookeeper: Option<ZookeeperConfigView>, namespace: Seq<char>) -> Seq<
    Doc,
> {
    let config = crate::zookeeper::resolve(zookeeper);
    crate::zookeeper::children_docs(config, namespace, checksum(config.properties))
}

/// The manifests of one tenant: its servers' two, then its adapter's two.
pub open spec fn tenant_docs(deployment: DeploymentView, namespace: Seq<char>) -> Seq<Doc> {
    crate::server::children_docs(
        crate::server::resolve(deployment.noria_server, deployment.id),
        namespace,
    ) + crate::mysql::children_docs(
        crate::mysql::resolve(deployment.noria_mysql, deployment.id),
        namespace,
    )
}

/// The manifests of all tenants, tenant after tenant.
pub open spec fn tenants_docs(deployments: Seq<DeploymentView>, namespace: Seq<char>) -> Seq<Doc>
    decreases deployments.len(),
{
    if deployments.len() == 0 {
        Seq::empty()
    } else {
        tenants_docs(deployments.drop_last(), namespace) + tenant_docs(
            deployments.last(),
            namespace,
        )
    }
}

/// The manifests of the dashboard that `noria_ui` resolves to.
pub open spec fn dashboard_docs(noria_ui: Option<NoriaUiConfigView>, namespace: Seq<char>) -> Seq<
    Doc,
> {
    crate::ui::children_docs(crate::ui::resolve(noria_ui), namespace)
}

/// What synthesis yields: the offending identifier where a tenant's
/// identifier holds a dash, and otherwise every child, in the order of
/// emission.
pub open spec fn synthesized(spec: NoriaSpecView, namespace: Seq<char>) -> Result<
    Seq<Doc>,
    Seq<char>,
> {
    match first_dashed(spec.deployments) {
        Some(id) => Err(id),
        None => Ok(
            ensemble_docs(spec.zookeeper, namespace) + tenants_docs(spec.deployments, namespace)
                + dashboard_docs(spec.noria_ui, namespace),
        ),
    }
}

/// The status of a cluster whose children were synthesised.
pub open spec fn complete_status_doc() -> Doc {
    Doc::object().with("message"@, Doc::Text("Sync complete"@))
}

/// The status of a cluster that could not be synthesised, with the reason.
pub open spec fn error_status_doc(message: Seq<char>) -> Doc {
    Doc::object().with("message"@, Doc::Text(message)).with("phase"@, Doc::Text("Error"@))
}

/// No tenant before the first dashed one holds a dash; without a dashed one,
/// none does.
pub proof fn lemma_first_dashed(deployments: Seq<DeploymentView>)
    ensures
        match first_dashed(deployments) {
            Some(id) => exists|i: int|
                0 <= i < deployments.len() && #[trigger] deployments[i].id == id && has_dash(id),
            None => forall|i: int|
                0 <= i < deployments.len() ==> !has_dash(#[trigger] deployments[i].id),
        },
    decreases deployments.len(),
{
    if deployments.len() > 0 && !has_dash(deployments[0].id) {
        let rest = deployments.drop_first();
        lemma_first_dashed(rest);
        match first_dashed(rest) {
            Some(id) => {
                let i = choose|i: int|
                    0 <= i < rest.len() && #[trigger] rest[i].id == id && has_dash(id);
                assert(deployments[i + 1].id == id);
            },
            None => {
                assert forall|i: int| 0 <= i < deployments.len() implies !has_dash(
                    #[trigger] deployments[i].id,
                ) by {
                    if i > 0 {
                        assert(rest[i - 1].id == deployments[i].id);
                    }
                }
            },
        }
    } else if deployments.len() > 0 {
        assert(deployments[0].id == deployments[0].id);
    }
}

/// Each tenant has four manifests.
pub proof fn lemma_tenants_docs_len(deployments: Seq<DeploymentView>, namespace: Seq<char>)
    ensures
        tenants_docs(deployments, namespace).len() == 4 * deployments.len(),
    decreases deployments.len(),
{
    if deployments.len() > 0 {
        lemma_tenants_docs_len(deployments.drop_last(), namespace);
    }
}

/// The outcome of a synthesis that went well.
#[derive(Debug, PartialEq, Eq)]
pub struct SyncResponse {
    pub status: Json,
    pub children: Vec<Json>,
}

/// Synthesises the children of a cluster in `namespace`.
///
/// A tenant identifier with a dash fails the whole call with the first such
/// identifier. Otherwise there are four manifests for the ensemble, four for
/// each tenant and two for the dashboard.
pub fn synthesize(spec: &NoriaSpec, namespace: &str) -> (outcome: Result<
    Vec<Json>,
    DeploymentIdDashError,
>)
    ensures
        match outcome {
            Ok(children) => synthesized(spec@, namespace@) == Ok::<Seq<Doc>, Seq<char>>(
                items_view(children@),
            ),
            Err(error) => synthesized(spec@, namespace@) == Err::<Seq<Doc>, Seq<char>>(error.id@),
        },
        outcome is Ok <==> forall|i: int|
            0 <= i < spec.deployments@.len() ==> !has_dash(#[trigger] spec.deployments@[i].id@),
        outcome matches Ok(children) ==> children@.len() == 6 + 4 * spec.deployments@.len(),
        outcome matches Err(error) ==> has_dash(error.id@),
{
    let ghost deployments = spec@.deployments;
    let n = spec.deployments.len();
    proof {
        lemma_first_dashed(deployments);
        lemma_tenants_docs_len(deployments, namespace@);
        assert(deployments.skip(0) =~= deployments);
        assert forall|i: int| 0 <= i < n implies deployments[i].id == (
        #[trigger] spec.deployments@[i]).id@ by {}
    }
    let mut i: usize = 0;
    while i < n
        invariant
            n == spec.deployments@.len(),
            deployments == spec@.deployments,
            i <= n,
            first_dashed(deployments) == first_dashed(deployments.skip(i as int)),
        decreases n - i,
    {
        proof {
            assert(deployments.skip(i as int)[0] == deployments[i as int]);
            assert(deployments.skip(i as int).drop_first() =~= deployments.skip(i + 1));
        }
        if contains_dash(spec.deployments[i].id.as_str()) {
            assert(exists|k: int|
                0 <= k < spec.deployments@.len() && has_dash(
                    #[trigger] spec.deployments@[k].id@,
                )) by {
                assert(has_dash(spec.deployments@[i as int].id@));
            }
            return Err(DeploymentIdDashError { id: spec.deployments[i].id.clone() });
        }
        i = i + 1;
    }
    assert(first_dashed(deployments) is None);
    let ensemble_config = crate::zookeeper::create_config(&spec.zookeeper);
    let mut children = Builder::Zookeeper(ensemble_config).children(namespace);
    let ghost ensemble = ensemble_docs(spec@.zookeeper, namespace@);
    let mut k: usize = 0;
    proof {
        assert(deployments.subrange(0, 0) =~= Seq::empty());
        assert(items_view(children@) =~= ensemble + tenants_docs(
            deployments.subrange(0, 0),
            namespace@,
        ));
    }
    while k < n
        invariant
            n == spec.deployments@.len(),
            deployments == spec@.deployments,
            k <= n,
            items_view(children@) == ensemble + tenants_docs(
                deployments.subrange(0, k as int),
                namespace@,
            ),
        decreases n - k,
    {
        let deployment = &spec.deployments[k];
        let ghost before = items_view(children@);
        let servers = Builder::Server(
            crate::server::create_config(&deployment.noria_server, deployment.id.as_str()),
        ).children(namespace);
        let adapters = Builder::Mysql(
            crate::mysql::create_config(&deployment.noria_mysql, deployment.id.as_str()),
        ).children(namespace);
        let ghost added = items_view(servers@) + items_view(adapters@);
        append_docs(&mut children, servers);
        append_docs(&mut children, adapters);
        proof {
            let upto = deployments.subrange(0, k + 1);
            assert(upto.drop_last() =~= deployments.subrange(0, k as int));
            assert(upto.last() == deployments[k as int]);
            assert(deployments[k as int] == deployment@);
            assert(added == tenant_docs(deployment@, namespace@));
            assert(items_view(children@) =~= before + added);
            assert(before + added =~= ensemble + tenants_docs(upto, namespace@));
        }
        k = k + 1;
    }
    let ghost tenants = tenants_docs(deployments, namespace@);
    proof {
        assert(deployments.subrange(0, n as int) =~= deployments);
    }
    let dashboard = Builder::Ui(crate::ui::create_config(&spec.noria_ui)).children(namespace);
    append_docs(&mut children, dashboard);
    proof {
        assert(items_view(children@).len() == children@.len());
        assert(ensemble.len() == 4);
        assert(dashboard_docs(spec@.noria_ui, namespace@).len() == 2);
    }
    Ok(children)
}

/// The status that reports `message` as an error.
pub fn handle_error(message: &str) -> (status: Json)
    ensures
        status@ == error_status_doc(message@),
{
    Json::object().with("message", text(message)).with("phase", text("Error"))
}

/// Synthesises the children of the cluster resource `crd`, in the resource's
/// own namespace.
pub fn handle_sync(crd: &Noria) -> (outcome: Result<SyncResponse, DeploymentIdDashError>)
    ensures
        match outcome {
            Ok(response) => {
                &&& synthesized(crd.spec@, crd.metadata.namespace@) == Ok::<Seq<Doc>, Seq<char>>(
                    items_view(response.children@),
                )
                &&& response.status@ == complete_status_doc()
            },
            Err(error) => synthesized(crd.spec@, crd.metadata.namespace@) == Err::<
                Seq<Doc>,
                Seq<char>,
            >(error.id@),
        },
{
    match synthesize(&crd.spec, crd.metadata.namespace.as_str()) {
        Ok(children) => Ok(
            SyncResponse {
                status: Json::object().with("message", text("Sync complete")),
                children,
            },
        ),
        Err(error) => Err(error),
    }
}

/// The status of a cluster whose description was refused.
pub fn refusal_status(error: &DeploymentIdDashError) -> (status: Json)
    ensures
        status@ == error_status_doc(dash_message(error.id@)),
{
    Json::object().with("message", owned_text(error.message())).with("phase", text("Error"))
}

} // verus!
