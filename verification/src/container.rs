//! The five collections together, and the read-side aggregation.
//!
//! An aggregation ("refactor" read) returns not the raw stored document but
//! a merged view: the entity's own fields plus, for each reference field,
//! the full referenced document spliced in place of the bare identifier. A
//! reference that resolves to nothing is omitted from the merge — partial
//! data beats request failure — and never an error.

use vstd::prelude::*;

use crate::entities::{
    Category, CategoryV, Connection, ConnectionV, Doc, Feature, FeatureV, File, FileV, Project,
    ProjectState, ProjectV, Prototype, PrototypeNodeV, PrototypeV, Specification, SpecificationV,
    Template, TemplateV, dup_connections, dup_strings,
};
use crate::ids::Id;
use crate::repo::{Entry, Repository, contains_id, map_of, updated};

verus! {

/// All five collections, each with its own identifier counter.
pub struct CollectionsContainer {
    pub category: Repository<Category>,
    pub feature: Repository<Feature>,
    pub project: Repository<Project>,
    pub prototype: Repository<Prototype>,
    pub template: Repository<Template>,
}

impl CollectionsContainer {
    /// Every collection is well formed.
    pub open spec fn inv(self) -> bool {
        &&& self.category.inv()
        &&& self.feature.inv()
        &&& self.project.inv()
        &&& self.prototype.inv()
        &&& self.template.inv()
    }

    /// Five empty collections.
    pub fn new() -> (r: Self)
        ensures
            r.inv(),
            r.category.model() == Seq::<(Id, CategoryV)>::empty(),
            r.feature.model() == Seq::<(Id, FeatureV)>::empty(),
            r.project.model() == Seq::<(Id, ProjectV)>::empty(),
            r.prototype.model() == Seq::<(Id, PrototypeV)>::empty(),
            r.template.model() == Seq::<(Id, TemplateV)>::empty(),
            r.category.can_insert() && r.feature.can_insert() && r.project.can_insert()
                && r.prototype.can_insert() && r.template.can_insert(),
    {
        CollectionsContainer {
            category: Repository::new(),
            feature: Repository::new(),
            project: Repository::new(),
            prototype: Repository::new(),
            template: Repository::new(),
        }
    }
}

/// The documents the reference list resolves to, in reference order, each
/// beside its identifier; a reference the map does not hold is omitted.
pub open spec fn resolve_refs<V>(refs: Seq<Id>, m: Map<Id, V>) -> Seq<(Id, V)>
    decreases refs.len(),
{
    if refs.len() == 0 {
        Seq::empty()
    } else {
        let rest = resolve_refs(refs.drop_last(), m);
        if m.contains_key(refs.last()) {
            rest.push((refs.last(), m[refs.last()]))
        } else {
            rest
        }
    }
}

/// Resolve a list of references against a collection, omitting every
/// reference that no stored document answers.
pub fn resolve_entries<E: Doc>(refs: &Vec<Id>, repo: &Repository<E>) -> (r: Vec<Entry<E>>)
    requires
        repo.inv(),
    ensures
        r@.map_values(|e: Entry<E>| e@) == resolve_refs(refs@, map_of(repo.model())),
{
    let mut r: Vec<Entry<E>> = Vec::new();
    let mut i: usize = 0;
    proof {
        assert(refs@.take(0) =~= Seq::<Id>::empty());
    }
    while i < refs.len()
        invariant
            i <= refs.len(),
            repo.inv(),
            r@.map_values(|e: Entry<E>| e@) == resolve_refs(
                refs@.take(i as int),
                map_of(repo.model()),
            ),
        decreases refs.len() - i,
    {
        let ghost pre = r@.map_values(|e: Entry<E>| e@);
        match repo.find_one_by_id(&refs[i]) {
            Some(d) => {
                r.push(Entry { id: refs[i], doc: d.dup() });
            },
            None => {},
        }
        proof {
            assert(refs@.take(i + 1).drop_last() =~= refs@.take(i as int));
            assert(refs@.take(i + 1).last() == refs@[i as int]);
            assert(r@.map_values(|e: Entry<E>| e@) =~= resolve_refs(
                refs@.take(i + 1),
                map_of(repo.model()),
            ));
        }
        i = i + 1;
    }
    proof {
        assert(refs@.take(refs@.len() as int) =~= refs@);
    }
    r
}

/// Every pair of a resolved list comes from the map, under an identifier the
/// reference list holds.
pub proof fn lemma_resolve_refs_sound<V>(refs: Seq<Id>, m: Map<Id, V>)
    ensures
        forall|j: int|
            0 <= j < resolve_refs(refs, m).len() ==> {
                &&& m.contains_key((#[trigger] resolve_refs(refs, m)[j]).0)
                &&& resolve_refs(refs, m)[j].1 == m[resolve_refs(refs, m)[j].0]
                &&& refs.contains(resolve_refs(refs, m)[j].0)
            },
    decreases refs.len(),
{
    if refs.len() > 0 {
        lemma_resolve_refs_sound(refs.drop_last(), m);
        let rest = resolve_refs(refs.drop_last(), m);
        assert forall|k: int| 0 <= k < refs.drop_last().len() implies refs.contains(
            #[trigger] refs.drop_last()[k],
        ) by {
            assert(refs[k] == refs.drop_last()[k]);
        }
        assert(refs.contains(refs.last()));
        assert forall|j: int| 0 <= j < resolve_refs(refs, m).len() implies {
            &&& m.contains_key((#[trigger] resolve_refs(refs, m)[j]).0)
            &&& resolve_refs(refs, m)[j].1 == m[resolve_refs(refs, m)[j].0]
            &&& refs.contains(resolve_refs(refs, m)[j].0)
        } by {
            if j < rest.len() {
                assert(resolve_refs(refs, m)[j] == rest[j]);
                let w = choose|w: int|
                    0 <= w < refs.drop_last().len() && refs.drop_last()[w] == rest[j].0;
            }
        }
    }
}

/// When every reference resolves, the merge is complete: one pair per
/// reference, in order.
pub proof fn lemma_resolve_refs_complete<V>(refs: Seq<Id>, m: Map<Id, V>)
    requires
        forall|i: int| 0 <= i < refs.len() ==> m.contains_key(#[trigger] refs[i]),
    ensures
        resolve_refs(refs, m).len() == refs.len(),
        forall|i: int|
            0 <= i < refs.len() ==> resolve_refs(refs, m)[i] == (refs[i], m[#[trigger] refs[i]]),
    decreases refs.len(),
{
    if refs.len() > 0 {
        assert(forall|i: int|
            0 <= i < refs.drop_last().len() ==> m.contains_key(#[trigger] refs.drop_last()[i]));
        lemma_resolve_refs_complete(refs.drop_last(), m);
        assert(m.contains_key(refs.last()));
        assert forall|i: int| 0 <= i < refs.len() implies resolve_refs(refs, m)[i] == (
            refs[i],
            m[#[trigger] refs[i]],
        ) by {
            if i < refs.len() - 1 {
                assert(resolve_refs(refs, m)[i] == resolve_refs(refs.drop_last(), m)[i]);
                assert(refs.drop_last()[i] == refs[i]);
            }
        }
    }
}

/// A template merged with its referenced category and feature documents.
pub struct TemplateAggregate {
    pub id: Id,
    pub name: String,
    pub description: String,
    pub image: File,
    pub category: Option<Entry<Category>>,
    pub features: Vec<Entry<Feature>>,
    pub specification: Option<Specification>,
}

pub ghost struct TemplateAggregateV {
    pub id: Id,
    pub name: Seq<char>,
    pub description: Seq<char>,
    pub image: FileV,
    pub category: Option<(Id, CategoryV)>,
    pub features: Seq<(Id, FeatureV)>,
    pub specification: Option<SpecificationV>,
}

impl View for TemplateAggregate {
    type V = TemplateAggregateV;

    open spec fn view(&self) -> TemplateAggregateV {
        TemplateAggregateV {
            id: self.id,
            name: self.name@,
            description: self.description@,
            image: self.image@,
            category: match self.category {
                Some(e) => Some(e@),
                None => None,
            },
            features: self.features@.map_values(|e: Entry<Feature>| e@),
            specification: match self.specification {
                Some(s) => Some(s@),
                None => None,
            },
        }
    }
}

/// The merged view of a template: references replaced by the documents they
/// resolve to, unresolved references omitted.
pub open spec fn agg_template(
    id: Id,
    t: TemplateV,
    cats: Map<Id, CategoryV>,
    feats: Map<Id, FeatureV>,
) -> TemplateAggregateV {
    TemplateAggregateV {
        id,
        name: t.name,
        description: t.description,
        image: t.image,
        category: if cats.contains_key(t.category) {
            Some((t.category, cats[t.category]))
        } else {
            None
        },
        features: resolve_refs(t.features, feats),
        specification: t.specification,
    }
}

/// Aggregation read of one template: the merged document, or nothing when
/// the identifier resolves to no template.
pub fn aggregate_template(c: &CollectionsContainer, id: &Id) -> (r: Option<TemplateAggregate>)
    requires
        c.inv(),
    ensures
        match r {
            Some(a) => map_of(c.template.model()).contains_key(*id) && a@ == agg_template(
                *id,
                map_of(c.template.model())[*id],
                map_of(c.category.model()),
                map_of(c.feature.model()),
            ),
            None => !map_of(c.template.model()).contains_key(*id),
        },
{
    let t = match c.template.find_one_by_id(id) {
        Some(t) => t,
        None => {
            return None;
        },
    };
    let category = match c.category.find_one_by_id(&t.category) {
        Some(cat) => Some(Entry { id: t.category, doc: cat.dup() }),
        None => None,
    };
    let features = resolve_entries(&t.features, &c.feature);
    Some(
        TemplateAggregate {
            id: *id,
            name: t.name.clone(),
            description: t.description.clone(),
            image: t.image.dup(),
            category,
            features,
            specification: match &t.specification {
                Some(s) => Some(s.dup()),
                None => None,
            },
        },
    )
}

/// One node of a merged prototype: the node's feature reference resolved to
/// the full feature document where it exists.
pub struct NodeAggregate {
    pub feature_id: Id,
    pub feature: Option<Feature>,
    pub connections: Vec<Connection>,
}

pub ghost struct NodeAggregateV {
    pub feature_id: Id,
    pub feature: Option<FeatureV>,
    pub connections: Seq<ConnectionV>,
}

impl View for NodeAggregate {
    type V = NodeAggregateV;

    open spec fn view(&self) -> NodeAggregateV {
        NodeAggregateV {
            feature_id: self.feature_id,
            feature: match self.feature {
                Some(f) => Some(f@),
                None => None,
            },
            connections: self.connections@.map_values(|c: Connection| c@),
        }
    }
}

/// A prototype merged with the feature document of every node.
pub struct PrototypeAggregate {
    pub id: Id,
    pub template_id: Id,
    pub nodes: Vec<NodeAggregate>,
}

pub ghost struct PrototypeAggregateV {
    pub id: Id,
    pub template_id: Id,
    pub nodes: Seq<NodeAggregateV>,
}

impl View for PrototypeAggregate {
    type V = PrototypeAggregateV;

    open spec fn view(&self) -> PrototypeAggregateV {
        PrototypeAggregateV {
            id: self.id,
            template_id: self.template_id,
            nodes: self.nodes@.map_values(|n: NodeAggregate| n@),
        }
    }
}

/// The merged view of one prototype node.
pub open spec fn agg_node(n: PrototypeNodeV, feats: Map<Id, FeatureV>) -> NodeAggregateV {
    NodeAggregateV {
        feature_id: n.feature_id,
        feature: if feats.contains_key(n.feature_id) {
            Some(feats[n.feature_id])
        } else {
            None
        },
        connections: n.connections,
    }
}

/// The merged view of a prototype: each node's feature reference resolved,
/// unresolved references omitted.
pub open spec fn agg_prototype(id: Id, p: PrototypeV, feats: Map<Id, FeatureV>) -> PrototypeAggregateV {
    PrototypeAggregateV {
        id,
        template_id: p.template_id,
        nodes: p.nodes.map_values(|n: PrototypeNodeV| agg_node(n, feats)),
    }
}

/// The prototypes owned by the given template, in insertion order.
pub open spec fn prototypes_of_template(s: Seq<(Id, PrototypeV)>, tid: Id) -> Seq<(Id, PrototypeV)>
    decreases s.len(),
{
    if s.len() == 0 {
        Seq::empty()
    } else {
        let rest = prototypes_of_template(s.drop_last(), tid);
        if s.last().1.template_id == tid {
            rest.push(s.last())
        } else {
            rest
        }
    }
}

/// Merge one stored prototype against the feature collection.
pub(crate) fn aggregate_one_prototype(e: &Entry<Prototype>, feats: &Repository<Feature>) -> (r:
    PrototypeAggregate)
    requires
        feats.inv(),
    ensures
        r@ == agg_prototype(e.id, e.doc@, map_of(feats.model())),
{
    let mut nodes: Vec<NodeAggregate> = Vec::new();
    let mut i: usize = 0;
    while i < e.doc.nodes.len()
        invariant
            i <= e.doc.nodes@.len(),
            feats.inv(),
            nodes@.len() == i,
            forall|j: int|
                0 <= j < i ==> nodes@[j]@ == agg_node(e.doc@.nodes[j], map_of(feats.model())),
        decreases e.doc.nodes@.len() - i,
    {
        let n = &e.doc.nodes[i];
        let feature = match feats.find_one_by_id(&n.feature_id) {
            Some(f) => Some(f.dup()),
            None => None,
        };
        nodes.push(
            NodeAggregate {
                feature_id: n.feature_id,
                feature,
                connections: dup_connections(&n.connections),
            },
        );
        proof {
            assert(e.doc@.nodes[i as int] == e.doc.nodes@[i as int]@);
        }
        i = i + 1;
    }
    let r = PrototypeAggregate { id: e.id, template_id: e.doc.template_id, nodes };
    proof {
        assert(r@.nodes =~= agg_prototype(e.id, e.doc@, map_of(feats.model())).nodes);
    }
    r
}

/// Aggregation read of the prototypes owned by a template: every owned
/// prototype, merged, in insertion order. The caller that wants "the"
/// prototype of the template takes the last one.
pub fn aggregate_prototypes_by_template(c: &CollectionsContainer, tid: &Id) -> (r: Vec<
    PrototypeAggregate,
>)
    requires
        c.inv(),
    ensures
        r@.map_values(|a: PrototypeAggregate| a@) == prototypes_of_template(
            c.prototype.model(),
            *tid,
        ).map_values(|p: (Id, PrototypeV)| agg_prototype(p.0, p.1, map_of(c.feature.model()))),
{
    let mut r: Vec<PrototypeAggregate> = Vec::new();
    let entries = c.prototype.find_all();
    let ghost model = c.prototype.model();
    let mut i: usize = 0;
    proof {
        assert(model.take(0) =~= Seq::<(Id, PrototypeV)>::empty());
    }
    while i < entries.len()
        invariant
            i <= entries@.len(),
            c.inv(),
            entries@.map_values(|e: Entry<Prototype>| e@) == model,
            model == c.prototype.model(),
            r@.map_values(|a: PrototypeAggregate| a@) == prototypes_of_template(
                model.take(i as int),
                *tid,
            ).map_values(|p: (Id, PrototypeV)| agg_prototype(p.0, p.1, map_of(c.feature.model()))),
        decreases entries@.len() - i,
    {
        proof {
            assert(model[i as int] == entries@[i as int]@);
            assert(model.take(i + 1).drop_last() =~= model.take(i as int));
            assert(model.take(i + 1).last() == model[i as int]);
        }
        let ghost rprev = r@;
        if entries[i].doc.template_id == *tid {
            let a = aggregate_one_prototype(&entries[i], &c.feature);
            r.push(a);
            proof {
                let lhs = r@.map_values(|a: PrototypeAggregate| a@);
                let rhs = prototypes_of_template(model.take(i + 1), *tid).map_values(
                    |p: (Id, PrototypeV)| agg_prototype(p.0, p.1, map_of(c.feature.model())),
                );
                let prev_lhs = rprev.map_values(|a: PrototypeAggregate| a@);
                let prev_rhs = prototypes_of_template(model.take(i as int), *tid).map_values(
                    |p: (Id, PrototypeV)| agg_prototype(p.0, p.1, map_of(c.feature.model())),
                );
                assert(r@ == rprev.push(a));
                assert(prototypes_of_template(model.take(i + 1), *tid)
                    == prototypes_of_template(model.take(i as int), *tid).push(
                    model[i as int],
                ));
                assert(lhs.len() == r@.len());
                assert(rhs.len() == prototypes_of_template(model.take(i + 1), *tid).len());
                assert(prev_lhs.len() == rprev.len());
                assert(prev_lhs == prev_rhs);
                assert(rprev.len() == prototypes_of_template(model.take(i as int), *tid).len());
                assert(lhs.len() == rhs.len());
                assert forall|j: int| 0 <= j < lhs.len() implies lhs[j] == rhs[j] by {
                    if j < prev_lhs.len() {
                        assert(prev_lhs[j] == prev_rhs[j]);
                    }
                }
                assert(lhs =~= rhs);
            }
        } else {
            proof {
                assert(prototypes_of_template(model.take(i + 1), *tid) == prototypes_of_template(
                    model.take(i as int),
                    *tid,
                ));
            }
        }
        i = i + 1;
    }
    proof {
        assert(model.take(model.len() as int) =~= model);
    }
    r
}

/// Every pair the template filter keeps comes from the model.
pub proof fn lemma_prototypes_of_template_sound(s: Seq<(Id, PrototypeV)>, tid: Id)
    ensures
        forall|j: int|
            0 <= j < prototypes_of_template(s, tid).len() ==> contains_id(
                s,
                (#[trigger] prototypes_of_template(s, tid)[j]).0,
            ),
    decreases s.len(),
{
    if s.len() > 0 {
        lemma_prototypes_of_template_sound(s.drop_last(), tid);
        let pts = prototypes_of_template(s, tid);
        let rest = prototypes_of_template(s.drop_last(), tid);
        assert forall|j: int| 0 <= j < pts.len() implies contains_id(s, (#[trigger] pts[j]).0) by {
            if j < rest.len() {
                assert(pts[j] == rest[j]);
                assert(contains_id(s.drop_last(), rest[j].0));
                let w = choose|w: int|
                    0 <= w < s.drop_last().len() && (#[trigger] s.drop_last()[w]).0 == rest[j].0;
                assert(s[w].0 == rest[j].0);
            } else {
                assert(pts[j] == s.last());
                assert(s[s.len() - 1].0 == pts[j].0);
            }
        }
    }
}

/// Replacing the document under a template's last prototype leaves it the
/// template's last prototype: the filtered list keeps its length and order,
/// with only its last pair replaced, so a later lookup by the template sees
/// the replacement.
pub proof fn lemma_update_last_prototype(s: Seq<(Id, PrototypeV)>, v: PrototypeV)
    requires
        forall|a: int, b: int| 0 <= a < b < s.len() ==> (#[trigger] s[a]).0 != (#[trigger] s[b]).0,
        prototypes_of_template(s, v.template_id).len() > 0,
    ensures
        ({
            let pts = prototypes_of_template(s, v.template_id);
            prototypes_of_template(updated(s, pts.last().0, v), v.template_id) == pts.update(
                pts.len() - 1,
                (pts.last().0, v),
            )
        }),
    decreases s.len(),
{
    let tid = v.template_id;
    let pts = prototypes_of_template(s, tid);
    let t = pts.last().0;
    let u = updated(s, t, v);
    let rest = prototypes_of_template(s.drop_last(), tid);
    assert(u.len() == s.len());
    if s.last().1.template_id == tid {
        assert(pts == rest.push(s.last()));
        assert(t == s.last().0);
        assert forall|k: int| 0 <= k < s.len() - 1 implies (#[trigger] s[k]).0 != t by {}
        assert(u.drop_last() =~= s.drop_last()) by {
            assert forall|k: int| 0 <= k < s.len() - 1 implies u[k] == s[k] by {}
        }
        assert(u.last() == (t, v));
        assert(prototypes_of_template(u, tid) == prototypes_of_template(u.drop_last(), tid).push(
            (t, v),
        ));
        assert(pts.update(pts.len() - 1, (t, v)) =~= rest.push((t, v)));
    } else {
        assert(pts == rest);
        lemma_prototypes_of_template_sound(s.drop_last(), tid);
        assert(contains_id(s.drop_last(), t)) by {
            assert(rest[rest.len() - 1].0 == t);
        }
        let w = choose|w: int|
            0 <= w < s.drop_last().len() && (#[trigger] s.drop_last()[w]).0 == t;
        assert(s[w].0 == t);
        assert(s.last().0 != t);
        assert(u.drop_last() =~= updated(s.drop_last(), t, v)) by {
            assert forall|k: int| 0 <= k < s.len() - 1 implies u[k] == updated(
                s.drop_last(),
                t,
                v,
            )[k] by {}
        }
        assert(u.last() == s.last());
        assert(prototypes_of_template(u, tid) == prototypes_of_template(u.drop_last(), tid));
        assert(forall|a: int, b: int|
            0 <= a < b < s.drop_last().len() ==> (#[trigger] s.drop_last()[a]).0 != (
            #[trigger] s.drop_last()[b]).0);
        lemma_update_last_prototype(s.drop_last(), v);
    }
}

/// A project merged with its referenced template and feature documents. The
/// client reference has no collection here, so it stays an identifier.
pub struct ProjectAggregate {
    pub id: Id,
    pub client_id: Id,
    pub name: String,
    pub platforms: Vec<String>,
    pub template: Option<Entry<Template>>,
    pub features: Vec<Entry<Feature>>,
    pub state: ProjectState,
    pub proposal: String,
    pub deliverable: String,
    pub total_price: u64,
    pub mvp: Option<File>,
    pub design: Option<File>,
    pub full_build: Option<File>,
}

pub ghost struct ProjectAggregateV {
    pub id: Id,
    pub client_id: Id,
    pub name: Seq<char>,
    pub platforms: Seq<Seq<char>>,
    pub template: Option<(Id, TemplateV)>,
    pub features: Seq<(Id, FeatureV)>,
    pub state: ProjectState,
    pub proposal: Seq<char>,
    pub deliverable: Seq<char>,
    pub total_price: u64,
    pub mvp: Option<FileV>,
    pub design: Option<FileV>,
    pub full_build: Option<FileV>,
}

impl View for ProjectAggregate {
    type V = ProjectAggregateV;

    open spec fn view(&self) -> ProjectAggregateV {
        ProjectAggregateV {
            id: self.id,
            client_id: self.client_id,
            name: self.name@,
            platforms: self.platforms@.map_values(|s: String| s@),
            template: match self.template {
                Some(e) => Some(e@),
                None => None,
            },
            features: self.features@.map_values(|e: Entry<Feature>| e@),
            state: self.state,
            proposal: self.proposal@,
            deliverable: self.deliverable@,
            total_price: self.total_price,
            mvp: match self.mvp {
                Some(f) => Some(f@),
                None => None,
            },
            design: match self.design {
                Some(f) => Some(f@),
                None => None,
            },
            full_build: match self.full_build {
                Some(f) => Some(f@),
                None => None,
            },
        }
    }
}

/// The merged view of a project: the template and feature references
/// replaced by the documents they resolve to, unresolved references omitted.
pub open spec fn agg_project(
    id: Id,
    p: ProjectV,
    tmpls: Map<Id, TemplateV>,
    feats: Map<Id, FeatureV>,
) -> ProjectAggregateV {
    ProjectAggregateV {
        id,
        client_id: p.client_id,
        name: p.name,
        platforms: p.platforms,
        template: if tmpls.contains_key(p.template) {
            Some((p.template, tmpls[p.template]))
        } else {
            None
        },
        features: resolve_refs(p.features, feats),
        state: p.state,
        proposal: p.proposal,
        deliverable: p.deliverable,
        total_price: p.total_price,
        mvp: p.mvp,
        design: p.design,
        full_build: p.full_build,
    }
}

/// Merge one stored project against the template and feature collections.
fn aggregate_one_project(e: &Entry<Project>, c: &CollectionsContainer) -> (r: ProjectAggregate)
    requires
        c.inv(),
    ensures
        r@ == agg_project(
            e.id,
            e.doc@,
            map_of(c.template.model()),
            map_of(c.feature.model()),
        ),
{
    let template = match c.template.find_one_by_id(&e.doc.template) {
        Some(t) => Some(Entry { id: e.doc.template, doc: t.dup() }),
        None => None,
    };
    let features = resolve_entries(&e.doc.features, &c.feature);
    ProjectAggregate {
        id: e.id,
        client_id: e.doc.client_id,
        name: e.doc.name.clone(),
        platforms: dup_strings(&e.doc.platforms),
        template,
        features,
        state: e.doc.state,
        proposal: e.doc.proposal.clone(),
        deliverable: e.doc.deliverable.clone(),
        total_price: e.doc.total_price,
        mvp: match &e.doc.mvp {
            Some(f) => Some(f.dup()),
            None => None,
        },
        design: match &e.doc.design {
            Some(f) => Some(f.dup()),
            None => None,
        },
        full_build: match &e.doc.full_build {
            Some(f) => Some(f.dup()),
            None => None,
        },
    }
}

/// Aggregation read of one project: the merged document, or nothing when
/// the identifier resolves to no project.
pub fn aggregate_project_by_id(c: &CollectionsContainer, id: &Id) -> (r: Option<ProjectAggregate>)
    requires
        c.inv(),
    ensures
        match r {
            Some(a) => map_of(c.project.model()).contains_key(*id) && a@ == agg_project(
                *id,
                map_of(c.project.model())[*id],
                map_of(c.template.model()),
                map_of(c.feature.model()),
            ),
            None => !map_of(c.project.model()).contains_key(*id),
        },
{
    let p = match c.project.find_one_by_id(id) {
        Some(p) => p,
        None => {
            return None;
        },
    };
    let e = Entry { id: *id, doc: p.dup() };
    Some(aggregate_one_project(&e, c))
}

/// The projects of the given client, in insertion order.
pub open spec fn projects_of_client(s: Seq<(Id, ProjectV)>, client: Id) -> Seq<(Id, ProjectV)>
    decreases s.len(),
{
    if s.len() == 0 {
        Seq::empty()
    } else {
        let rest = projects_of_client(s.drop_last(), client);
        if s.last().1.client_id == client {
            rest.push(s.last())
        } else {
            rest
        }
    }
}

/// Aggregation read of all projects of one client: every matching project,
/// merged, in insertion order. An unknown client yields the empty list.
pub fn aggregate_projects_by_client(c: &CollectionsContainer, client: &Id) -> (r: Vec<
    ProjectAggregate,
>)
    requires
        c.inv(),
    ensures
        r@.map_values(|a: ProjectAggregate| a@) == projects_of_client(
            c.project.model(),
            *client,
        ).map_values(
            |p: (Id, ProjectV)|
                agg_project(p.0, p.1, map_of(c.template.model()), map_of(c.feature.model())),
        ),
{
    let mut r: Vec<ProjectAggregate> = Vec::new();
    let entries = c.project.find_all();
    let ghost model = c.project.model();
    let mut i: usize = 0;
    proof {
        assert(model.take(0) =~= Seq::<(Id, ProjectV)>::empty());
    }
    while i < entries.len()
        invariant
            i <= entries@.len(),
            c.inv(),
            entries@.map_values(|e: Entry<Project>| e@) == model,
            model == c.project.model(),
            r@.map_values(|a: ProjectAggregate| a@) == projects_of_client(
                model.take(i as int),
                *client,
            ).map_values(
                |p: (Id, ProjectV)|
                    agg_project(p.0, p.1, map_of(c.template.model()), map_of(c.feature.model())),
            ),
        decreases entries@.len() - i,
    {
        proof {
            assert(model[i as int] == entries@[i as int]@);
            assert(model.take(i + 1).drop_last() =~= model.take(i as int));
            assert(model.take(i + 1).last() == model[i as int]);
        }
        let ghost rprev = r@;
        if entries[i].doc.client_id == *client {
            let a = aggregate_one_project(&entries[i], c);
            r.push(a);
            proof {
                let lhs = r@.map_values(|a: ProjectAggregate| a@);
                let rhs = projects_of_client(model.take(i + 1), *client).map_values(
                    |p: (Id, ProjectV)|
                        agg_project(
                            p.0,
                            p.1,
                            map_of(c.template.model()),
                            map_of(c.feature.model()),
                        ),
                );
                let prev_lhs = rprev.map_values(|a: ProjectAggregate| a@);
                let prev_rhs = projects_of_client(model.take(i as int), *client).map_values(
                    |p: (Id, ProjectV)|
                        agg_project(
                            p.0,
                            p.1,
                            map_of(c.template.model()),
                            map_of(c.feature.model()),
                        ),
                );
                assert(r@ == rprev.push(a));
                assert(projects_of_client(model.take(i + 1), *client)
                    == projects_of_client(model.take(i as int), *client).push(
                    model[i as int],
                ));
                assert(lhs.len() == r@.len());
                assert(rhs.len() == projects_of_client(model.take(i + 1), *client).len());
                assert(prev_lhs.len() == rprev.len());
                assert(prev_lhs == prev_rhs);
                assert(rprev.len() == projects_of_client(model.take(i as int), *client).len());
                assert(lhs.len() == rhs.len());
                assert forall|j: int| 0 <= j < lhs.len() implies lhs[j] == rhs[j] by {
                    if j < prev_lhs.len() {
                        assert(prev_lhs[j] == prev_rhs[j]);
                    }
                }
                assert(lhs =~= rhs);
            }
        } else {
            proof {
                assert(projects_of_client(model.take(i + 1), *client) == projects_of_client(
                    model.take(i as int),
                    *client,
                ));
            }
        }
        i = i + 1;
    }
    proof {
        assert(model.take(model.len() as int) =~= model);
    }
    r
}

} // verus!
