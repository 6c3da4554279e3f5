//! The five entity kinds held by the store, with their mathematical views.
//!
//! Each executable type has a ghost view struct whose fields are the views of
//! the executable fields (`Seq<char>` for strings, `Seq<_>` for vectors).
//! Contracts throughout the crate compare documents by view: two documents
//! are the same exactly when every field's content is the same. The [`Doc`]
//! trait provides a verified deep copy, `dup`, that preserves the view.

use vstd::prelude::*;

use crate::ids::Id;

verus! {

/// A document type the store can hold: it has a view, and a verified deep
/// copy that preserves the view.
pub trait Doc: View + Sized {
    /// Deep copy with the same view.
    fn dup(&self) -> (r: Self)
        ensures
            r@ == self@,
    ;
}

/// An uploaded file: its stored name and the path it is served from.
#[derive(Debug, PartialEq, Eq)]
pub struct File {
    pub name: String,
    pub src: String,
}

pub ghost struct FileV {
    pub name: Seq<char>,
    pub src: Seq<char>,
}

impl View for File {
    type V = FileV;

    open spec fn view(&self) -> FileV {
        FileV { name: self.name@, src: self.src@ }
    }
}

impl Doc for File {
    fn dup(&self) -> (r: Self) {
        File { name: self.name.clone(), src: self.src.clone() }
    }
}

/// An uploaded file that carries its own identifier, as a wireframe image
/// does.
#[derive(Debug, PartialEq, Eq)]
pub struct FileWithId {
    pub id: Id,
    pub name: String,
    pub src: String,
}

pub ghost struct FileWithIdV {
    pub id: Id,
    pub name: Seq<char>,
    pub src: Seq<char>,
}

impl View for FileWithId {
    type V = FileWithIdV;

    open spec fn view(&self) -> FileWithIdV {
        FileWithIdV { id: self.id, name: self.name@, src: self.src@ }
    }
}

impl Doc for FileWithId {
    fn dup(&self) -> (r: Self) {
        FileWithId { id: self.id, name: self.name.clone(), src: self.src.clone() }
    }
}

/// A catalog category: a name, a description and a cover image.
#[derive(Debug, PartialEq, Eq)]
pub struct Category {
    pub name: String,
    pub description: String,
    pub image: File,
}

pub ghost struct CategoryV {
    pub name: Seq<char>,
    pub description: Seq<char>,
    pub image: FileV,
}

impl View for Category {
    type V = CategoryV;

    open spec fn view(&self) -> CategoryV {
        CategoryV { name: self.name@, description: self.description@, image: self.image@ }
    }
}

impl Doc for Category {
    fn dup(&self) -> (r: Self) {
        Category {
            name: self.name.clone(),
            description: self.description.clone(),
            image: self.image.dup(),
        }
    }
}

/// A reusable feature: the catalog's unit of composition. The price is kept
/// in minor currency units so that it stays exact.
#[derive(Debug, PartialEq, Eq)]
pub struct Feature {
    pub name: String,
    pub description: String,
    pub feature_type: String,
    pub image: File,
    pub wireframes: Option<Vec<FileWithId>>,
    pub price: u64,
    pub repo: String,
}

pub ghost struct FeatureV {
    pub name: Seq<char>,
    pub description: Seq<char>,
    pub feature_type: Seq<char>,
    pub image: FileV,
    pub wireframes: Option<Seq<FileWithIdV>>,
    pub price: u64,
    pub repo: Seq<char>,
}

impl View for Feature {
    type V = FeatureV;

    open spec fn view(&self) -> FeatureV {
        FeatureV {
            name: self.name@,
            description: self.description@,
            feature_type: self.feature_type@,
            image: self.image@,
            wireframes: match self.wireframes {
                Some(w) => Some(w@.map_values(|f: FileWithId| f@)),
                None => None,
            },
            price: self.price,
            repo: self.repo@,
        }
    }
}

impl Doc for Feature {
    fn dup(&self) -> (r: Self) {
        Feature {
            name: self.name.clone(),
            description: self.description.clone(),
            feature_type: self.feature_type.clone(),
            image: self.image.dup(),
            wireframes: match &self.wireframes {
                Some(w) => Some(dup_files(w)),
                None => None,
            },
            price: self.price,
            repo: self.repo.clone(),
        }
    }
}

/// The introduction block of a specification.
#[derive(Debug, PartialEq, Eq)]
pub struct Introduction {
    pub purpose: String,
    pub document_conventions: String,
    pub intended_audience: String,
    pub project_scope: String,
}

pub ghost struct IntroductionV {
    pub purpose: Seq<char>,
    pub document_conventions: Seq<char>,
    pub intended_audience: Seq<char>,
    pub project_scope: Seq<char>,
}

impl View for Introduction {
    type V = IntroductionV;

    open spec fn view(&self) -> IntroductionV {
        IntroductionV {
            purpose: self.purpose@,
            document_conventions: self.document_conventions@,
            intended_audience: self.intended_audience@,
            project_scope: self.project_scope@,
        }
    }
}

impl Doc for Introduction {
    fn dup(&self) -> (r: Self) {
        Introduction {
            purpose: self.purpose.clone(),
            document_conventions: self.document_conventions.clone(),
            intended_audience: self.intended_audience.clone(),
            project_scope: self.project_scope.clone(),
        }
    }
}

/// The overall-description block of a specification.
#[derive(Debug, PartialEq, Eq)]
pub struct OverallDescription {
    pub perspective: String,
    pub user_characteristics: String,
    pub operating_environment: String,
    pub design_implementation_constraints: String,
    pub user_documentation: String,
    pub assumptions_dependencies: String,
}

pub ghost struct OverallDescriptionV {
    pub perspective: Seq<char>,
    pub user_characteristics: Seq<char>,
    pub operating_environment: Seq<char>,
    pub design_implementation_constraints: Seq<char>,
    pub user_documentation: Seq<char>,
    pub assumptions_dependencies: Seq<char>,
}

impl View for OverallDescription {
    type V = OverallDescriptionV;

    open spec fn view(&self) -> OverallDescriptionV {
        OverallDescriptionV {
            perspective: self.perspective@,
            user_characteristics: self.user_characteristics@,
            operating_environment: self.operating_environment@,
            design_implementation_constraints: self.design_implementation_constraints@,
            user_documentation: self.user_documentation@,
            assumptions_dependencies: self.assumptions_dependencies@,
        }
    }
}

impl Doc for OverallDescription {
    fn dup(&self) -> (r: Self) {
        OverallDescription {
            perspective: self.perspective.clone(),
            user_characteristics: self.user_characteristics.clone(),
            operating_environment: self.operating_environment.clone(),
            design_implementation_constraints: self.design_implementation_constraints.clone(),
            user_documentation: self.user_documentation.clone(),
            assumptions_dependencies: self.assumptions_dependencies.clone(),
        }
    }
}

/// The non-functional-requirements block of a specification.
#[derive(Debug, PartialEq, Eq)]
pub struct NonFunctionalRequirements {
    pub performance_requirements: String,
    pub safety_requirements: String,
    pub security_requirements: String,
    pub software_quality_attributes: String,
}

pub ghost struct NonFunctionalRequirementsV {
    pub performance_requirements: Seq<char>,
    pub safety_requirements: Seq<char>,
    pub security_requirements: Seq<char>,
    pub software_quality_attributes: Seq<char>,
}

impl View for NonFunctionalRequirements {
    type V = NonFunctionalRequirementsV;

    open spec fn view(&self) -> NonFunctionalRequirementsV {
        NonFunctionalRequirementsV {
            performance_requirements: self.performance_requirements@,
            safety_requirements: self.safety_requirements@,
            security_requirements: self.security_requirements@,
            software_quality_attributes: self.software_quality_attributes@,
        }
    }
}

impl Doc for NonFunctionalRequirements {
    fn dup(&self) -> (r: Self) {
        NonFunctionalRequirements {
            performance_requirements: self.performance_requirements.clone(),
            safety_requirements: self.safety_requirements.clone(),
            security_requirements: self.security_requirements.clone(),
            software_quality_attributes: self.software_quality_attributes.clone(),
        }
    }
}

/// The free-text specification block a template may carry.
#[derive(Debug, PartialEq, Eq)]
pub struct Specification {
    pub introduction: Introduction,
    pub overall_description: OverallDescription,
    pub non_functional_requirements: NonFunctionalRequirements,
    pub other_requirements: String,
    pub glossary: String,
    pub analysis_models: String,
    pub issues_list: String,
}

pub ghost struct SpecificationV {
    pub introduction: IntroductionV,
    pub overall_description: OverallDescriptionV,
    pub non_functional_requirements: NonFunctionalRequirementsV,
    pub other_requirements: Seq<char>,
    pub glossary: Seq<char>,
    pub analysis_models: Seq<char>,
    pub issues_list: Seq<char>,
}

impl View for Specification {
    type V = SpecificationV;

    open spec fn view(&self) -> SpecificationV {
        SpecificationV {
            introduction: self.introduction@,
            overall_description: self.overall_description@,
            non_functional_requirements: self.non_functional_requirements@,
            other_requirements: self.other_requirements@,
            glossary: self.glossary@,
            analysis_models: self.analysis_models@,
            issues_list: self.issues_list@,
        }
    }
}

impl Doc for Specification {
    fn dup(&self) -> (r: Self) {
        Specification {
            introduction: self.introduction.dup(),
            overall_description: self.overall_description.dup(),
            non_functional_requirements: self.non_functional_requirements.dup(),
            other_requirements: self.other_requirements.clone(),
            glossary: self.glossary.clone(),
            analysis_models: self.analysis_models.clone(),
            issues_list: self.issues_list.clone(),
        }
    }
}

/// A template: a starting point for projects. `category` and `features` are
/// reference fields, resolved at read time by aggregation.
#[derive(Debug, PartialEq, Eq)]
pub struct Template {
    pub name: String,
    pub description: String,
    pub image: File,
    pub category: Id,
    pub features: Vec<Id>,
    pub specification: Option<Specification>,
}

pub ghost struct TemplateV {
    pub name: Seq<char>,
    pub description: Seq<char>,
    pub image: FileV,
    pub category: Id,
    pub features: Seq<Id>,
    pub specification: Option<SpecificationV>,
}

impl View for Template {
    type V = TemplateV;

    open spec fn view(&self) -> TemplateV {
        TemplateV {
            name: self.name@,
            description: self.description@,
            image: self.image@,
            category: self.category,
            features: self.features@,
            specification: match self.specification {
                Some(s) => Some(s@),
                None => None,
            },
        }
    }
}

impl Doc for Template {
    fn dup(&self) -> (r: Self) {
        Template {
            name: self.name.clone(),
            description: self.description.clone(),
            image: self.image.dup(),
            category: self.category,
            features: dup_ids(&self.features),
            specification: match &self.specification {
                Some(s) => Some(s.dup()),
                None => None,
            },
        }
    }
}

/// One edge of a prototype graph: the feature node it points to and a
/// free-form relation label.
#[derive(Debug, PartialEq, Eq)]
pub struct Connection {
    pub to: Id,
    pub relation: String,
}

pub ghost struct ConnectionV {
    pub to: Id,
    pub relation: Seq<char>,
}

impl View for Connection {
    type V = ConnectionV;

    open spec fn view(&self) -> ConnectionV {
        ConnectionV { to: self.to, relation: self.relation@ }
    }
}

impl Doc for Connection {
    fn dup(&self) -> (r: Self) {
        Connection { to: self.to, relation: self.relation.clone() }
    }
}

/// One node of a prototype graph: a feature reference and its outgoing
/// connections.
#[derive(Debug, PartialEq, Eq)]
pub struct PrototypeNode {
    pub feature_id: Id,
    pub connections: Vec<Connection>,
}

pub ghost struct PrototypeNodeV {
    pub feature_id: Id,
    pub connections: Seq<ConnectionV>,
}

impl View for PrototypeNode {
    type V = PrototypeNodeV;

    open spec fn view(&self) -> PrototypeNodeV {
        PrototypeNodeV {
            feature_id: self.feature_id,
            connections: self.connections@.map_values(|c: Connection| c@),
        }
    }
}

impl Doc for PrototypeNode {
    fn dup(&self) -> (r: Self) {
        PrototypeNode { feature_id: self.feature_id, connections: dup_connections(&self.connections) }
    }
}

/// A user-submitted prototype: a feature graph owned by a template.
#[derive(Debug, PartialEq, Eq)]
pub struct Prototype {
    pub template_id: Id,
    pub nodes: Vec<PrototypeNode>,
}

pub ghost struct PrototypeV {
    pub template_id: Id,
    pub nodes: Seq<PrototypeNodeV>,
}

impl View for Prototype {
    type V = PrototypeV;

    open spec fn view(&self) -> PrototypeV {
        PrototypeV {
            template_id: self.template_id,
            nodes: self.nodes@.map_values(|n: PrototypeNode| n@),
        }
    }
}

impl Doc for Prototype {
    fn dup(&self) -> (r: Self) {
        Prototype { template_id: self.template_id, nodes: dup_nodes(&self.nodes) }
    }
}

/// Where a project stands in its lifecycle. Archiving is a state change, not
/// a removal.
#[derive(Clone, Copy, Debug, PartialEq, Eq, Structural)]
pub enum ProjectState {
    Draft,
    Active,
    Delivered,
    Archived,
}

/// A client project: composes a template and a feature set. `client_id`,
/// `template` and `features` are reference fields; the template and feature
/// references are resolved at read time by aggregation. The total price is
/// kept in minor currency units.
#[derive(Debug, PartialEq, Eq)]
pub struct Project {
    pub client_id: Id,
    pub name: String,
    pub platforms: Vec<String>,
    pub template: Id,
    pub features: Vec<Id>,
    pub state: ProjectState,
    pub proposal: String,
    pub deliverable: String,
    pub total_price: u64,
    pub mvp: Option<File>,
    pub design: Option<File>,
    pub full_build: Option<File>,
}

pub ghost struct ProjectV {
    pub client_id: Id,
    pub name: Seq<char>,
    pub platforms: Seq<Seq<char>>,
    pub template: Id,
    pub features: Seq<Id>,
    pub state: ProjectState,
    pub proposal: Seq<char>,
    pub deliverable: Seq<char>,
    pub total_price: u64,
    pub mvp: Option<FileV>,
    pub design: Option<FileV>,
    pub full_build: Option<FileV>,
}

impl View for Project {
    type V = ProjectV;

    open spec fn view(&self) -> ProjectV {
        ProjectV {
            client_id: self.client_id,
            name: self.name@,
            platforms: self.platforms@.map_values(|s: String| s@),
            template: self.template,
            features: self.features@,
            state: self.state,
            proposal: self.proposal@,
            deliverable: self.deliverable@,
            total_price: self.total_price,
            mvp: match self.mvp {
                Some(f) => Some(f@),
                None => None,
            },
            design: match self.design {
                Some(f) => Some(f@),
                None => None,
            },
            full_build: match self.full_build {
                Some(f) => Some(f@),
                None => None,
            },
        }
    }
}

impl Doc for Project {
    fn dup(&self) -> (r: Self) {
        Project {
            client_id: self.client_id,
            name: self.name.clone(),
            platforms: dup_strings(&self.platforms),
            template: self.template,
            features: dup_ids(&self.features),
            state: self.state,
            proposal: self.proposal.clone(),
            deliverable: self.deliverable.clone(),
            total_price: self.total_price,
            mvp: match &self.mvp {
                Some(f) => Some(f.dup()),
                None => None,
            },
            design: match &self.design {
                Some(f) => Some(f.dup()),
                None => None,
            },
            full_build: match &self.full_build {
                Some(f) => Some(f.dup()),
                None => None,
            },
        }
    }
}

/// Copy a vector of identifiers.
pub fn dup_ids(v: &Vec<Id>) -> (r: Vec<Id>)
    ensures
        r@ == v@,
{
    let mut r: Vec<Id> = Vec::new();
    let mut i: usize = 0;
    while i < v.len()
        invariant
            i <= v.len(),
            r@ == v@.take(i as int),
        decreases v.len() - i,
    {
        r.push(v[i]);
        proof {
            assert(v@.take(i + 1) =~= v@.take(i as int).push(v@[i as int]));
        }
        i = i + 1;
    }
    proof {
        assert(v@.take(v@.len() as int) =~= v@);
    }
    r
}

/// Copy a vector of strings, keeping every element's content.
pub fn dup_strings(v: &Vec<String>) -> (r: Vec<String>)
    ensures
        r@ == v@,
{
    let mut r: Vec<String> = Vec::new();
    let mut i: usize = 0;
    while i < v.len()
        invariant
            i <= v.len(),
            r@ == v@.take(i as int),
        decreases v.len() - i,
    {
        r.push(v[i].clone());
        proof {
            assert(v@.take(i + 1) =~= v@.take(i as int).push(v@[i as int]));
        }
        i = i + 1;
    }
    proof {
        assert(v@.take(v@.len() as int) =~= v@);
    }
    r
}

/// Copy a vector of files-with-identifier, keeping every element's content.
pub fn dup_files(v: &Vec<FileWithId>) -> (r: Vec<FileWithId>)
    ensures
        r@.map_values(|f: FileWithId| f@) == v@.map_values(|f: FileWithId| f@),
{
    let mut r: Vec<FileWithId> = Vec::new();
    let mut i: usize = 0;
    while i < v.len()
        invariant
            i <= v.len(),
            r@.len() == i,
            forall|j: int| 0 <= j < i ==> r@[j]@ == v@[j]@,
        decreases v.len() - i,
    {
        r.push(v[i].dup());
        i = i + 1;
    }
    proof {
        assert(r@.map_values(|f: FileWithId| f@) =~= v@.map_values(|f: FileWithId| f@));
    }
    r
}

/// Copy a vector of connections, keeping every element's content.
pub fn dup_connections(v: &Vec<Connection>) -> (r: Vec<Connection>)
    ensures
        r@.map_values(|c: Connection| c@) == v@.map_values(|c: Connection| c@),
{
    let mut r: Vec<Connection> = Vec::new();
    let mut i: usize = 0;
    while i < v.len()
        invariant
            i <= v.len(),
            r@.len() == i,
            forall|j: int| 0 <= j < i ==> r@[j]@ == v@[j]@,
        decreases v.len() - i,
    {
        r.push(v[i].dup());
        i = i + 1;
    }
    proof {
        assert(r@.map_values(|c: Connection| c@) =~= v@.map_values(|c: Connection| c@));
    }
    r
}

/// Copy a vector of prototype nodes, keeping every node's content.
pub fn dup_nodes(v: &Vec<PrototypeNode>) -> (r: Vec<PrototypeNode>)
    ensures
        r@.map_values(|n: PrototypeNode| n@) == v@.map_values(|n: PrototypeNode| n@),
{
    let mut r: Vec<PrototypeNode> = Vec::new();
    let mut i: usize = 0;
    while i < v.len()
        invariant
            i <= v.len(),
            r@.len() == i,
            forall|j: int| 0 <= j < i ==> r@[j]@ == v@[j]@,
        decreases v.len() - i,
    {
        r.push(v[i].dup());
        i = i + 1;
    }
    proof {
        assert(r@.map_values(|n: PrototypeNode| n@) =~= v@.map_values(|n: PrototypeNode| n@));
    }
    r
}

} // verus!
