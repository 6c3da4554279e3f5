//! Wire-shape response building.
//!
//! A response builder is a pure mapping from a (merged) document to the
//! shape that goes on the wire: every identifier field becomes its 24-digit
//! text form, and every optional nested block that is absent from storage is
//! replaced by its default empty structure — an empty specification, an
//! empty wireframe list — so the wire never shows a hole where a client
//! expects a structure.

use vstd::prelude::*;

use crate::container::{
    NodeAggregateV, ProjectAggregate, ProjectAggregateV, PrototypeAggregate, PrototypeAggregateV,
    TemplateAggregate, TemplateAggregateV,
};
use crate::entities::{
    Category, CategoryV, Connection, ConnectionV, Doc, Feature, FeatureV, File, FileV, FileWithId,
    FileWithIdV, Introduction, NonFunctionalRequirements, OverallDescription, ProjectState,
    Specification, SpecificationV, Template, TemplateV, dup_strings,
};
use crate::ids::{Id, id_str, id_to_hex};
use crate::repo::Entry;

verus! {

/// A wireframe image on the wire: its identifier as text.
#[derive(Debug, PartialEq, Eq)]
pub struct FileWithIdResponse {
    pub id: String,
    pub name: String,
    pub src: String,
}

pub ghost struct FileWithIdResponseV {
    pub id: Seq<char>,
    pub name: Seq<char>,
    pub src: Seq<char>,
}

impl View for FileWithIdResponse {
    type V = FileWithIdResponseV;

    open spec fn view(&self) -> FileWithIdResponseV {
        FileWithIdResponseV { id: self.id@, name: self.name@, src: self.src@ }
    }
}

/// The wire shape of a wireframe image.
pub open spec fn build_file_with_id_v(f: FileWithIdV) -> FileWithIdResponseV {
    FileWithIdResponseV { id: id_str(f.id), name: f.name, src: f.src }
}

fn build_file_with_id(f: &FileWithId) -> (r: FileWithIdResponse)
    ensures
        r@ == build_file_with_id_v(f@),
{
    FileWithIdResponse { id: id_to_hex(&f.id), name: f.name.clone(), src: f.src.clone() }
}

/// A category on the wire.
#[derive(Debug, PartialEq, Eq)]
pub struct CategoryResponse {
    pub id: String,
    pub name: String,
    pub description: String,
    pub image: File,
}

pub ghost struct CategoryResponseV {
    pub id: Seq<char>,
    pub name: Seq<char>,
    pub description: Seq<char>,
    pub image: FileV,
}

impl View for CategoryResponse {
    type V = CategoryResponseV;

    open spec fn view(&self) -> CategoryResponseV {
        CategoryResponseV {
            id: self.id@,
            name: self.name@,
            description: self.description@,
            image: self.image@,
        }
    }
}

/// The wire shape of a category document.
pub open spec fn build_category_v(id: Id, c: CategoryV) -> CategoryResponseV {
    CategoryResponseV { id: id_str(id), name: c.name, description: c.description, image: c.image }
}

/// Shape a category document for the wire: the identifier becomes text.
pub fn build_category(id: &Id, c: &Category) -> (r: CategoryResponse)
    ensures
        r@ == build_category_v(*id, c@),
{
    CategoryResponse {
        id: id_to_hex(id),
        name: c.name.clone(),
        description: c.description.clone(),
        image: c.image.dup(),
    }
}

/// A feature on the wire: an absent wireframe list becomes the empty list.
#[derive(Debug, PartialEq, Eq)]
pub struct FeatureResponse {
    pub id: String,
    pub name: String,
    pub description: String,
    pub feature_type: String,
    pub image: File,
    pub wireframes: Vec<FileWithIdResponse>,
    pub price: u64,
    pub repo: String,
}

pub ghost struct FeatureResponseV {
    pub id: Seq<char>,
    pub name: Seq<char>,
    pub description: Seq<char>,
    pub feature_type: Seq<char>,
    pub image: FileV,
    pub wireframes: Seq<FileWithIdResponseV>,
    pub price: u64,
    pub repo: Seq<char>,
}

impl View for FeatureResponse {
    type V = FeatureResponseV;

    open spec fn view(&self) -> FeatureResponseV {
        FeatureResponseV {
            id: self.id@,
            name: self.name@,
            description: self.description@,
            feature_type: self.feature_type@,
            image: self.image@,
            wireframes: self.wireframes@.map_values(|f: FileWithIdResponse| f@),
            price: self.price,
            repo: self.repo@,
        }
    }
}

/// The wire shape of a feature document: identifiers become text and an
/// absent wireframe list becomes the empty list, never a hole.
pub open spec fn build_feature_v(id: Id, f: FeatureV) -> FeatureResponseV {
    FeatureResponseV {
        id: id_str(id),
        name: f.name,
        description: f.description,
        feature_type: f.feature_type,
        image: f.image,
        wireframes: match f.wireframes {
            Some(w) => w.map_values(|x: FileWithIdV| build_file_with_id_v(x)),
            None => Seq::empty(),
        },
        price: f.price,
        repo: f.repo,
    }
}

/// Shape a feature document for the wire.
pub fn build_feature(id: &Id, f: &Feature) -> (r: FeatureResponse)
    ensures
        r@ == build_feature_v(*id, f@),
{
    let wireframes: Vec<FileWithIdResponse> = match &f.wireframes {
        Some(w) => {
            let mut out: Vec<FileWithIdResponse> = Vec::new();
            let mut i: usize = 0;
            while i < w.len()
                invariant
                    i <= w@.len(),
                    out@.len() == i,
                    forall|j: int| 0 <= j < i ==> out@[j]@ == build_file_with_id_v(w@[j]@),
                decreases w@.len() - i,
            {
                out.push(build_file_with_id(&w[i]));
                i = i + 1;
            }
            out
        },
        None => Vec::new(),
    };
    let r = FeatureResponse {
        id: id_to_hex(id),
        name: f.name.clone(),
        description: f.description.clone(),
        feature_type: f.feature_type.clone(),
        image: f.image.dup(),
        wireframes,
        price: f.price,
        repo: f.repo.clone(),
    };
    proof {
        assert(r@.wireframes =~= build_feature_v(*id, f@).wireframes);
    }
    r
}

/// Shape a resolved feature list for the wire, in order.
fn build_features(v: &Vec<Entry<Feature>>) -> (r: Vec<FeatureResponse>)
    ensures
        r@.map_values(|x: FeatureResponse| x@) == v@.map_values(|e: Entry<Feature>| e@).map_values(
            |p: (Id, FeatureV)| build_feature_v(p.0, p.1),
        ),
{
    let mut r: Vec<FeatureResponse> = Vec::new();
    let mut i: usize = 0;
    while i < v.len()
        invariant
            i <= v@.len(),
            r@.len() == i,
            forall|j: int| 0 <= j < i ==> r@[j]@ == build_feature_v(v@[j].id, v@[j].doc@),
        decreases v@.len() - i,
    {
        r.push(build_feature(&v[i].id, &v[i].doc));
        i = i + 1;
    }
    proof {
        assert(r@.map_values(|x: FeatureResponse| x@) =~= v@.map_values(
            |e: Entry<Feature>| e@,
        ).map_values(|p: (Id, FeatureV)| build_feature_v(p.0, p.1)));
    }
    r
}

/// The default empty specification block.
pub open spec fn default_specification_v() -> SpecificationV {
    SpecificationV {
        introduction: crate::entities::IntroductionV {
            purpose: Seq::empty(),
            document_conventions: Seq::empty(),
            intended_audience: Seq::empty(),
            project_scope: Seq::empty(),
        },
        overall_description: crate::entities::OverallDescriptionV {
            perspective: Seq::empty(),
            user_characteristics: Seq::empty(),
            operating_environment: Seq::empty(),
            design_implementation_constraints: Seq::empty(),
            user_documentation: Seq::empty(),
            assumptions_dependencies: Seq::empty(),
        },
        non_functional_requirements: crate::entities::NonFunctionalRequirementsV {
            performance_requirements: Seq::empty(),
            safety_requirements: Seq::empty(),
            security_requirements: Seq::empty(),
            software_quality_attributes: Seq::empty(),
        },
        other_requirements: Seq::empty(),
        glossary: Seq::empty(),
        analysis_models: Seq::empty(),
        issues_list: Seq::empty(),
    }
}

/// The default empty specification, used where a stored template carries
/// none.
pub fn default_specification() -> (r: Specification)
    ensures
        r@ == default_specification_v(),
{
    Specification {
        introduction: Introduction {
            purpose: String::new(),
            document_conventions: String::new(),
            intended_audience: String::new(),
            project_scope: String::new(),
        },
        overall_description: OverallDescription {
            perspective: String::new(),
            user_characteristics: String::new(),
            operating_environment: String::new(),
            design_implementation_constraints: String::new(),
            user_documentation: String::new(),
            assumptions_dependencies: String::new(),
        },
        non_functional_requirements: NonFunctionalRequirements {
            performance_requirements: String::new(),
            safety_requirements: String::new(),
            security_requirements: String::new(),
            software_quality_attributes: String::new(),
        },
        other_requirements: String::new(),
        glossary: String::new(),
        analysis_models: String::new(),
        issues_list: String::new(),
    }
}

/// A merged template on the wire: an unresolved category stays omitted, an
/// absent specification becomes the default empty one.
#[derive(Debug, PartialEq, Eq)]
pub struct TemplateResponse {
    pub id: String,
    pub name: String,
    pub description: String,
    pub image: File,
    pub category: Option<CategoryResponse>,
    pub features: Vec<FeatureResponse>,
    pub specification: Specification,
}

pub ghost struct TemplateResponseV {
    pub id: Seq<char>,
    pub name: Seq<char>,
    pub description: Seq<char>,
    pub image: FileV,
    pub category: Option<CategoryResponseV>,
    pub features: Seq<FeatureResponseV>,
    pub specification: SpecificationV,
}

impl View for TemplateResponse {
    type V = TemplateResponseV;

    open spec fn view(&self) -> TemplateResponseV {
        TemplateResponseV {
            id: self.id@,
            name: self.name@,
            description: self.description@,
            image: self.image@,
            category: match self.category {
                Some(c) => Some(c@),
                None => None,
            },
            features: self.features@.map_values(|f: FeatureResponse| f@),
            specification: self.specification@,
        }
    }
}

/// The wire shape of a merged template.
pub open spec fn build_template_v(a: TemplateAggregateV) -> TemplateResponseV {
    TemplateResponseV {
        id: id_str(a.id),
        name: a.name,
        description: a.description,
        image: a.image,
        category: match a.category {
            Some(p) => Some(build_category_v(p.0, p.1)),
            None => None,
        },
        features: a.features.map_values(|p: (Id, FeatureV)| build_feature_v(p.0, p.1)),
        specification: match a.specification {
            Some(s) => s,
            None => default_specification_v(),
        },
    }
}

/// Shape a merged template for the wire.
pub fn build_template(a: &TemplateAggregate) -> (r: TemplateResponse)
    ensures
        r@ == build_template_v(a@),
{
    let r = TemplateResponse {
        id: id_to_hex(&a.id),
        name: a.name.clone(),
        description: a.description.clone(),
        image: a.image.dup(),
        category: match &a.category {
            Some(e) => Some(build_category(&e.id, &e.doc)),
            None => None,
        },
        features: build_features(&a.features),
        specification: match &a.specification {
            Some(s) => s.dup(),
            None => default_specification(),
        },
    };
    proof {
        assert(a.features@.map_values(|e: Entry<Feature>| e@) == a@.features);
        assert(r@.features == build_template_v(a@).features);
    }
    r
}

/// A prototype connection on the wire.
#[derive(Debug, PartialEq, Eq)]
pub struct ConnectionResponse {
    pub to: String,
    pub relation: String,
}

pub ghost struct ConnectionResponseV {
    pub to: Seq<char>,
    pub relation: Seq<char>,
}

impl View for ConnectionResponse {
    type V = ConnectionResponseV;

    open spec fn view(&self) -> ConnectionResponseV {
        ConnectionResponseV { to: self.to@, relation: self.relation@ }
    }
}

/// The wire shape of a connection.
pub open spec fn build_connection_v(c: ConnectionV) -> ConnectionResponseV {
    ConnectionResponseV { to: id_str(c.to), relation: c.relation }
}

fn build_connection(c: &Connection) -> (r: ConnectionResponse)
    ensures
        r@ == build_connection_v(c@),
{
    ConnectionResponse { to: id_to_hex(&c.to), relation: c.relation.clone() }
}

/// A merged prototype node on the wire: the resolved feature document where
/// the reference resolved, nothing where it dangled.
#[derive(Debug, PartialEq, Eq)]
pub struct NodeResponse {
    pub feature_id: String,
    pub feature: Option<FeatureResponse>,
    pub connections: Vec<ConnectionResponse>,
}

pub ghost struct NodeResponseV {
    pub feature_id: Seq<char>,
    pub feature: Option<FeatureResponseV>,
    pub connections: Seq<ConnectionResponseV>,
}

impl View for NodeResponse {
    type V = NodeResponseV;

    open spec fn view(&self) -> NodeResponseV {
        NodeResponseV {
            feature_id: self.feature_id@,
            feature: match self.feature {
                Some(f) => Some(f@),
                None => None,
            },
            connections: self.connections@.map_values(|c: ConnectionResponse| c@),
        }
    }
}

/// The wire shape of a merged prototype node.
pub open spec fn build_node_v(n: NodeAggregateV) -> NodeResponseV {
    NodeResponseV {
        feature_id: id_str(n.feature_id),
        feature: match n.feature {
            Some(f) => Some(build_feature_v(n.feature_id, f)),
            None => None,
        },
        connections: n.connections.map_values(|c: ConnectionV| build_connection_v(c)),
    }
}

/// A merged prototype on the wire.
#[derive(Debug, PartialEq, Eq)]
pub struct PrototypeResponse {
    pub id: String,
    pub template_id: String,
    pub nodes: Vec<NodeResponse>,
}

pub ghost struct PrototypeResponseV {
    pub id: Seq<char>,
    pub template_id: Seq<char>,
    pub nodes: Seq<NodeResponseV>,
}

impl View for PrototypeResponse {
    type V = PrototypeResponseV;

    open spec fn view(&self) -> PrototypeResponseV {
        PrototypeResponseV {
            id: self.id@,
            template_id: self.template_id@,
            nodes: self.nodes@.map_values(|n: NodeResponse| n@),
        }
    }
}

/// The wire shape of a merged prototype.
pub open spec fn build_prototype_v(a: PrototypeAggregateV) -> PrototypeResponseV {
    PrototypeResponseV {
        id: id_str(a.id),
        template_id: id_str(a.template_id),
        nodes: a.nodes.map_values(|n: NodeAggregateV| build_node_v(n)),
    }
}

/// Shape a merged prototype for the wire.
pub fn build_prototype(a: &PrototypeAggregate) -> (r: PrototypeResponse)
    ensures
        r@ == build_prototype_v(a@),
{
    let mut nodes: Vec<NodeResponse> = Vec::new();
    let mut i: usize = 0;
    while i < a.nodes.len()
        invariant
            i <= a.nodes@.len(),
            nodes@.len() == i,
            forall|j: int| 0 <= j < i ==> nodes@[j]@ == build_node_v(a.nodes@[j]@),
        decreases a.nodes@.len() - i,
    {
        let n = &a.nodes[i];
        let mut connections: Vec<ConnectionResponse> = Vec::new();
        let mut k: usize = 0;
        while k < n.connections.len()
            invariant
                k <= n.connections@.len(),
                connections@.len() == k,
                forall|j: int|
                    0 <= j < k ==> connections@[j]@ == build_connection_v(n.connections@[j]@),
            decreases n.connections@.len() - k,
        {
            connections.push(build_connection(&n.connections[k]));
            k = k + 1;
        }
        let feature = match &n.feature {
            Some(f) => Some(build_feature(&n.feature_id, f)),
            None => None,
        };
        nodes.push(NodeResponse { feature_id: id_to_hex(&n.feature_id), feature, connections });
        proof {
            assert(nodes@.last()@.connections =~= build_node_v(a.nodes@[i as int]@).connections);
        }
        i = i + 1;
    }
    let r = PrototypeResponse { id: id_to_hex(&a.id), template_id: id_to_hex(&a.template_id), nodes };
    proof {
        assert(r@.nodes =~= build_prototype_v(a@).nodes);
    }
    r
}

/// What the wire shows for a removed prototype: the removed document's own
/// identifier and its owning template's, both as text.
#[derive(Debug, PartialEq, Eq)]
pub struct DeletedPrototypeResponse {
    pub id: String,
    pub template_id: String,
}

pub ghost struct DeletedPrototypeResponseV {
    pub id: Seq<char>,
    pub template_id: Seq<char>,
}

impl View for DeletedPrototypeResponse {
    type V = DeletedPrototypeResponseV;

    open spec fn view(&self) -> DeletedPrototypeResponseV {
        DeletedPrototypeResponseV { id: self.id@, template_id: self.template_id@ }
    }
}

/// A raw (unmerged) template document on the wire, as a project's resolved
/// template reference is shown: identifiers become text, an absent
/// specification becomes the default empty one.
#[derive(Debug, PartialEq, Eq)]
pub struct TemplateDocResponse {
    pub id: String,
    pub name: String,
    pub description: String,
    pub image: File,
    pub category: String,
    pub features: Vec<String>,
    pub specification: Specification,
}

pub ghost struct TemplateDocResponseV {
    pub id: Seq<char>,
    pub name: Seq<char>,
    pub description: Seq<char>,
    pub image: FileV,
    pub category: Seq<char>,
    pub features: Seq<Seq<char>>,
    pub specification: SpecificationV,
}

impl View for TemplateDocResponse {
    type V = TemplateDocResponseV;

    open spec fn view(&self) -> TemplateDocResponseV {
        TemplateDocResponseV {
            id: self.id@,
            name: self.name@,
            description: self.description@,
            image: self.image@,
            category: self.category@,
            features: self.features@.map_values(|s: String| s@),
            specification: self.specification@,
        }
    }
}

/// The wire shape of a raw template document.
pub open spec fn build_template_doc_v(id: Id, t: TemplateV) -> TemplateDocResponseV {
    TemplateDocResponseV {
        id: id_str(id),
        name: t.name,
        description: t.description,
        image: t.image,
        category: id_str(t.category),
        features: t.features.map_values(|i: Id| id_str(i)),
        specification: match t.specification {
            Some(s) => s,
            None => default_specification_v(),
        },
    }
}

/// Shape a raw template document for the wire.
pub fn build_template_doc(id: &Id, t: &Template) -> (r: TemplateDocResponse)
    ensures
        r@ == build_template_doc_v(*id, t@),
{
    let mut features: Vec<String> = Vec::new();
    let mut i: usize = 0;
    while i < t.features.len()
        invariant
            i <= t.features@.len(),
            features@.len() == i,
            forall|j: int| 0 <= j < i ==> features@[j]@ == id_str(t.features@[j]),
        decreases t.features@.len() - i,
    {
        features.push(id_to_hex(&t.features[i]));
        i = i + 1;
    }
    let r = TemplateDocResponse {
        id: id_to_hex(id),
        name: t.name.clone(),
        description: t.description.clone(),
        image: t.image.dup(),
        category: id_to_hex(&t.category),
        features,
        specification: match &t.specification {
            Some(s) => s.dup(),
            None => default_specification(),
        },
    };
    proof {
        assert(r@.features =~= build_template_doc_v(*id, t@).features);
    }
    r
}

/// A merged project on the wire: the client reference stays an identifier
/// in text form; the template and feature references are shown as the
/// documents they resolved to, an unresolved template stays omitted.
#[derive(Debug, PartialEq, Eq)]
pub struct ProjectResponse {
    pub id: String,
    pub client_id: String,
    pub name: String,
    pub platforms: Vec<String>,
    pub template: Option<TemplateDocResponse>,
    pub features: Vec<FeatureResponse>,
    pub state: ProjectState,
    pub proposal: String,
    pub deliverable: String,
    pub total_price: u64,
    pub mvp: Option<File>,
    pub design: Option<File>,
    pub full_build: Option<File>,
}

pub ghost struct ProjectResponseV {
    pub id: Seq<char>,
    pub client_id: Seq<char>,
    pub name: Seq<char>,
    pub platforms: Seq<Seq<char>>,
    pub template: Option<TemplateDocResponseV>,
    pub features: Seq<FeatureResponseV>,
    pub state: ProjectState,
    pub proposal: Seq<char>,
    pub deliverable: Seq<char>,
    pub total_price: u64,
    pub mvp: Option<FileV>,
    pub design: Option<FileV>,
    pub full_build: Option<FileV>,
}

impl View for ProjectResponse {
    type V = ProjectResponseV;

    open spec fn view(&self) -> ProjectResponseV {
        ProjectResponseV {
            id: self.id@,
            client_id: self.client_id@,
            name: self.name@,
            platforms: self.platforms@.map_values(|s: String| s@),
            template: match self.template {
                Some(t) => Some(t@),
                None => None,
            },
            features: self.features@.map_values(|f: FeatureResponse| f@),
            state: self.state,
            proposal: self.proposal@,
            deliverable: self.deliverable@,
            total_price: self.total_price,
            mvp: match self.mvp {
                Some(f) => Some(f@),
                None => None,
            },
            design: match self.design {
                Some(f) => Some(f@),
                None => None,
            },
            full_build: match self.full_build {
                Some(f) => Some(f@),
                None => None,
            },
        }
    }
}

/// The wire shape of a merged project.
pub open spec fn build_project_v(a: ProjectAggregateV) -> ProjectResponseV {
    ProjectResponseV {
        id: id_str(a.id),
        client_id: id_str(a.client_id),
        name: a.name,
        platforms: a.platforms,
        template: match a.template {
            Some(p) => Some(build_template_doc_v(p.0, p.1)),
            None => None,
        },
        features: a.features.map_values(|p: (Id, FeatureV)| build_feature_v(p.0, p.1)),
        state: a.state,
        proposal: a.proposal,
        deliverable: a.deliverable,
        total_price: a.total_price,
        mvp: a.mvp,
        design: a.design,
        full_build: a.full_build,
    }
}

/// Shape a merged project for the wire.
pub fn build_project(a: &ProjectAggregate) -> (r: ProjectResponse)
    ensures
        r@ == build_project_v(a@),
{
    let r = ProjectResponse {
        id: id_to_hex(&a.id),
        client_id: id_to_hex(&a.client_id),
        name: a.name.clone(),
        platforms: dup_strings(&a.platforms),
        template: match &a.template {
            Some(e) => Some(build_template_doc(&e.id, &e.doc)),
            None => None,
        },
        features: build_features(&a.features),
        state: a.state,
        proposal: a.proposal.clone(),
        deliverable: a.deliverable.clone(),
        total_price: a.total_price,
        mvp: match &a.mvp {
            Some(f) => Some(f.dup()),
            None => None,
        },
        design: match &a.design {
            Some(f) => Some(f.dup()),
            None => None,
        },
        full_build: match &a.full_build {
            Some(f) => Some(f.dup()),
            None => None,
        },
    };
    proof {
        assert(a.features@.map_values(|e: Entry<Feature>| e@) == a@.features);
        assert(r@.features == build_project_v(a@).features);
    }
    r
}

} // verus!
