//! The four kinds of resolved configuration, as one type that knows how to
//! render each.

use vstd::prelude::*;
use crate::digest::checksum;
use crate::json::{items_view, Doc, Json};

verus! {

/// A resolved configuration of one of the four subsystems.
#[derive(Debug, Clone, PartialEq, Eq)]
pub enum Builder {
    Zookeeper(crate::zookeeper::Config),
    Server(crate::server::Config),
    Mysql(crate::mysql::Config),
    Ui(crate::ui::Config),
}

pub enum BuilderView {
    Zookeeper(crate::zookeeper::ConfigView),
    Server(crate::server::ConfigView),
    Mysql(crate::mysql::ConfigView),
    Ui(crate::ui::ConfigView),
}

impl View for Builder {
    type V = BuilderView;

    open spec fn view(&self) -> BuilderView {
        match self {
            Builder::Zookeeper(c) => BuilderView::Zookeeper(c@),
            Builder::Server(c) => BuilderView::Server(c@),
            Builder::Mysql(c) => BuilderView::Mysql(c@),
            Builder::Ui(c) => BuilderView::Ui(c@),
        }
    }
}

/// The manifests of a resolved configuration in `namespace`.
pub open spec fn builder_docs(builder: BuilderView, namespace: Seq<char>) -> Seq<Doc> {
    match builder {
        BuilderView::Zookeeper(c) => crate::zookeeper::children_docs(
            c,
            namespace,
            checksum(c.properties),
        ),
        BuilderView::Server(c) => crate::server::children_docs(c, namespace),
        BuilderView::Mysql(c) => crate::mysql::children_docs(c, namespace),
        BuilderView::Ui(c) => crate::ui::children_docs(c, namespace),
    }
}

impl Builder {
    /// Renders the manifests of the configuration in `namespace`.
    pub fn children(&self, namespace: &str) -> (children: Vec<Json>)
        ensures
            items_view(children@) == builder_docs(self@, namespace@),
    {
        match self {
            Builder::Zookeeper(c) => c.children(namespace),
            Builder::Server(c) => c.children(namespace),
            Builder::Mysql(c) => c.children(namespace),
            Builder::Ui(c) => c.children(namespace),
        }
    }
}

} // verus!
