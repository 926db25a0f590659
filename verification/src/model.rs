//! The declared cluster: a list of tenant deployments, and optional overrides
//! for the coordination ensemble and the dashboard. Every override may be left
//! out; what is left out is filled in when a configuration is resolved.

use vstd::prelude::*;
use crate::text::pairs_view;

verus! {

/// The text of an optional string.
pub open spec fn opt_text(s: Option<String>) -> Option<Seq<char>> {
    match s {
        Some(t) => Some(t@),
        None => None,
    }
}

/// The view of an optional value.
pub open spec fn opt_view<T: View>(o: Option<T>) -> Option<T::V> {
    match o {
        Some(t) => Some(t@),
        None => None,
    }
}

/// Overrides for the coordination ensemble.
#[derive(Debug, Clone, PartialEq, Eq)]
pub struct ZookeeperConfig {
    pub version: Option<String>,
    pub max_heap: Option<u64>,
    pub storage_size: Option<u64>,
    pub replicas: Option<usize>,
    /// Free-form properties, in any order.
    pub additional_properties: Option<Vec<(String, String)>>,
}

pub struct ZookeeperConfigView {
    pub version: Option<Seq<char>>,
    pub max_heap: Option<u64>,
    pub storage_size: Option<u64>,
    pub replicas: Option<usize>,
    pub additional_properties: Option<Seq<(Seq<char>, Seq<char>)>>,
}

impl View for ZookeeperConfig {
    type V = ZookeeperConfigView;

    open spec fn view(&self) -> ZookeeperConfigView {
        ZookeeperConfigView {
            version: opt_text(self.version),
            max_heap: self.max_heap,
            storage_size: self.storage_size,
            replicas: self.replicas,
            additional_properties: match self.additional_properties {
                Some(props) => Some(pairs_view(props@)),
                None => None,
            },
        }
    }
}

/// Overrides for one tenant's data-plane servers.
#[derive(Debug, Clone, PartialEq, Eq)]
pub struct NoriaServerConfig {
    pub version: Option<String>,
    pub max_heap: Option<u64>,
    pub storage_size: Option<u64>,
    pub replicas: Option<usize>,
}

pub struct NoriaServerConfigView {
    pub version: Option<Seq<char>>,
    pub max_heap: Option<u64>,
    pub storage_size: Option<u64>,
    pub replicas: Option<usize>,
}

impl View for NoriaServerConfig {
    type V = NoriaServerConfigView;

    open spec fn view(&self) -> NoriaServerConfigView {
        NoriaServerConfigView {
            version: opt_text(self.version),
            max_heap: self.max_heap,
            storage_size: self.storage_size,
            replicas: self.replicas,
        }
    }
}

/// Overrides for one tenant's MySQL adapter.
#[derive(Debug, Clone, PartialEq, Eq)]
pub struct NoriaMysqlConfig {
    pub version: Option<String>,
    pub max_heap: Option<u64>,
    pub replicas: Option<usize>,
}

pub struct NoriaMysqlConfigView {
    pub version: Option<Seq<char>>,
    pub max_heap: Option<u64>,
    pub replicas: Option<usize>,
}

impl View for NoriaMysqlConfig {
    type V = NoriaMysqlConfigView;

    open spec fn view(&self) -> NoriaMysqlConfigView {
        NoriaMysqlConfigView {
            version: opt_text(self.version),
            max_heap: self.max_heap,
            replicas: self.replicas,
        }
    }
}

/// Overrides for the dashboard.
#[derive(Debug, Clone, PartialEq, Eq)]
pub struct NoriaUiConfig {
    pub version: Option<String>,
    pub max_heap: Option<u64>,
}

pub struct NoriaUiConfigView {
    pub version: Option<Seq<char>>,
    pub max_heap: Option<u64>,
}

impl View for NoriaUiConfig {
    type V = NoriaUiConfigView;

    open spec fn view(&self) -> NoriaUiConfigView {
        NoriaUiConfigView { version: opt_text(self.version), max_heap: self.max_heap }
    }
}

/// A version on its own.
#[derive(Debug, Clone, PartialEq, Eq)]
pub struct NoriaConfig {
    pub version: String,
}

/// One tenant. Its `id` becomes part of object names and label values, with
/// the dash as separator, so an `id` that holds a dash is not accepted.
#[derive(Debug, Clone, PartialEq, Eq)]
pub struct Deployment {
    pub id: String,
    pub noria_server: Option<NoriaServerConfig>,
    pub noria_mysql: Option<NoriaMysqlConfig>,
}

pub struct DeploymentView {
    pub id: Seq<char>,
    pub noria_server: Option<NoriaServerConfigView>,
    pub noria_mysql: Option<NoriaMysqlConfigView>,
}

impl View for Deployment {
    type V = DeploymentView;

    open spec fn view(&self) -> DeploymentView {
        DeploymentView {
            id: self.id@,
            noria_server: opt_view(self.noria_server),
            noria_mysql: opt_view(self.noria_mysql),
        }
    }
}

/// The desired topology of a cluster.
#[derive(Debug, Clone, PartialEq, Eq)]
pub struct NoriaSpec {
    pub deployments: Vec<Deployment>,
    pub zookeeper: Option<ZookeeperConfig>,
    pub noria_ui: Option<NoriaUiConfig>,
}

pub struct NoriaSpecView {
    pub deployments: Seq<DeploymentView>,
    pub zookeeper: Option<ZookeeperConfigView>,
    pub noria_ui: Option<NoriaUiConfigView>,
}

impl View for NoriaSpec {
    type V = NoriaSpecView;

    open spec fn view(&self) -> NoriaSpecView {
        NoriaSpecView {
            deployments: Seq::new(self.deployments@.len(), |i: int| self.deployments@[i]@),
            zookeeper: opt_view(self.zookeeper),
            noria_ui: opt_view(self.noria_ui),
        }
    }
}

/// Where the cluster resource lives.
#[derive(Debug, Clone, PartialEq, Eq)]
pub struct Metadata {
    pub name: String,
    pub namespace: String,
}

/// The cluster resource: the parent of everything that is synthesised.
#[derive(Debug, Clone, PartialEq, Eq)]
pub struct Noria {
    pub metadata: Metadata,
    pub spec: NoriaSpec,
}

} // verus!
