//! Prototype request handlers.
//!
//! A prototype request arrives as typed JSON whose identifier fields are
//! text; decoding fails closed with a validation outcome when any of them is
//! malformed. The create and update endpoints answer with the prototype read
//! back merged against the feature collection, as the get-by-template
//! endpoint does; the delete endpoint answers with the removed document's
//! identifiers.

use vstd::prelude::*;

use crate::api::{ApiError, IdPayload};
use crate::container::{
    CollectionsContainer, PrototypeAggregate, agg_prototype, aggregate_one_prototype,
    aggregate_prototypes_by_template, lemma_prototypes_of_template_sound, prototypes_of_template,
};
use crate::entities::{
    Connection, ConnectionV, Doc, Prototype, PrototypeNode, PrototypeNodeV, PrototypeV,
};
use crate::ids::{Id, id_str, id_to_hex, parse_id, parse_id_str};
use crate::repo::{Entry, contains_id, lemma_map_of_contains, map_of, removed, updated};
use crate::response::{
    DeletedPrototypeResponse, PrototypeResponse, build_prototype, build_prototype_v,
};

verus! {

/// One connection of a prototype request: the target feature's identifier
/// in text form and the relation label.
#[derive(Debug, PartialEq, Eq)]
pub struct ConnectionRequest {
    pub to: String,
    pub relation: String,
}

pub ghost struct ConnectionRequestV {
    pub to: Seq<char>,
    pub relation: Seq<char>,
}

impl View for ConnectionRequest {
    type V = ConnectionRequestV;

    open spec fn view(&self) -> ConnectionRequestV {
        ConnectionRequestV { to: self.to@, relation: self.relation@ }
    }
}

/// One node of a prototype request.
#[derive(Debug, PartialEq, Eq)]
pub struct NodeRequest {
    pub feature_id: String,
    pub connections: Vec<ConnectionRequest>,
}

pub ghost struct NodeRequestV {
    pub feature_id: Seq<char>,
    pub connections: Seq<ConnectionRequestV>,
}

impl View for NodeRequest {
    type V = NodeRequestV;

    open spec fn view(&self) -> NodeRequestV {
        NodeRequestV {
            feature_id: self.feature_id@,
            connections: self.connections@.map_values(|c: ConnectionRequest| c@),
        }
    }
}

/// A prototype create or update request: the owning template's identifier
/// and the feature graph, all identifiers in text form.
#[derive(Debug, PartialEq, Eq)]
pub struct PrototypeRequest {
    pub template_id: String,
    pub nodes: Vec<NodeRequest>,
}

pub ghost struct PrototypeRequestV {
    pub template_id: Seq<char>,
    pub nodes: Seq<NodeRequestV>,
}

impl View for PrototypeRequest {
    type V = PrototypeRequestV;

    open spec fn view(&self) -> PrototypeRequestV {
        PrototypeRequestV {
            template_id: self.template_id@,
            nodes: self.nodes@.map_values(|n: NodeRequest| n@),
        }
    }
}

/// What one request connection decodes to: nothing when its identifier is
/// malformed.
pub open spec fn parse_connection_req(c: ConnectionRequestV) -> Option<ConnectionV> {
    match parse_id_str(c.to) {
        Some(id) => Some(ConnectionV { to: id, relation: c.relation }),
        None => None,
    }
}

/// What a request connection list decodes to: nothing when any connection
/// fails.
pub open spec fn parse_connections_req(cs: Seq<ConnectionRequestV>) -> Option<Seq<ConnectionV>>
    decreases cs.len(),
{
    if cs.len() == 0 {
        Some(Seq::empty())
    } else {
        match (parse_connections_req(cs.drop_last()), parse_connection_req(cs.last())) {
            (Some(rest), Some(c)) => Some(rest.push(c)),
            _ => None,
        }
    }
}

/// What one request node decodes to: nothing when any identifier in it is
/// malformed.
pub open spec fn parse_node_req(n: NodeRequestV) -> Option<PrototypeNodeV> {
    match (parse_id_str(n.feature_id), parse_connections_req(n.connections)) {
        (Some(id), Some(cs)) => Some(PrototypeNodeV { feature_id: id, connections: cs }),
        _ => None,
    }
}

/// What a request node list decodes to: nothing when any node fails.
pub open spec fn parse_nodes_req(ns: Seq<NodeRequestV>) -> Option<Seq<PrototypeNodeV>>
    decreases ns.len(),
{
    if ns.len() == 0 {
        Some(Seq::empty())
    } else {
        match (parse_nodes_req(ns.drop_last()), parse_node_req(ns.last())) {
            (Some(rest), Some(n)) => Some(rest.push(n)),
            _ => None,
        }
    }
}

/// What a prototype request decodes to: the stored document shape, or
/// nothing when any identifier in the request is malformed.
pub open spec fn parse_prototype_req(rq: PrototypeRequestV) -> Option<PrototypeV> {
    match (parse_id_str(rq.template_id), parse_nodes_req(rq.nodes)) {
        (Some(tid), Some(ns)) => Some(PrototypeV { template_id: tid, nodes: ns }),
        _ => None,
    }
}

proof fn lemma_parse_connections_none_sticks(cs: Seq<ConnectionRequestV>, k: int)
    requires
        0 <= k <= cs.len(),
        parse_connections_req(cs.take(k)) is None,
    ensures
        parse_connections_req(cs) is None,
    decreases cs.len() - k,
{
    if k == cs.len() {
        assert(cs.take(k) =~= cs);
    } else {
        assert(cs.take(k + 1).drop_last() =~= cs.take(k));
        lemma_parse_connections_none_sticks(cs, k + 1);
    }
}

proof fn lemma_parse_nodes_none_sticks(ns: Seq<NodeRequestV>, k: int)
    requires
        0 <= k <= ns.len(),
        parse_nodes_req(ns.take(k)) is None,
    ensures
        parse_nodes_req(ns) is None,
    decreases ns.len() - k,
{
    if k == ns.len() {
        assert(ns.take(k) =~= ns);
    } else {
        assert(ns.take(k + 1).drop_last() =~= ns.take(k));
        lemma_parse_nodes_none_sticks(ns, k + 1);
    }
}

/// Decode a request connection list; nothing when any identifier is
/// malformed.
fn parse_connections(cs: &Vec<ConnectionRequest>) -> (r: Option<Vec<Connection>>)
    ensures
        match r {
            Some(v) => parse_connections_req(cs@.map_values(|c: ConnectionRequest| c@)) matches Some(
                x,
            ) && v@.map_values(|c: Connection| c@) == x,
            None => parse_connections_req(cs@.map_values(|c: ConnectionRequest| c@)) is None,
        },
{
    let ghost reqs = cs@.map_values(|c: ConnectionRequest| c@);
    let mut out: Vec<Connection> = Vec::new();
    let mut i: usize = 0;
    proof {
        assert(reqs.take(0) =~= Seq::<ConnectionRequestV>::empty());
    }
    while i < cs.len()
        invariant
            i <= cs@.len(),
            reqs == cs@.map_values(|c: ConnectionRequest| c@),
            parse_connections_req(reqs.take(i as int)) matches Some(x) && out@.map_values(
                |c: Connection| c@,
            ) == x,
        decreases cs@.len() - i,
    {
        proof {
            assert(reqs.take(i + 1).drop_last() =~= reqs.take(i as int));
            assert(reqs.take(i + 1).last() == reqs[i as int]);
            assert(reqs[i as int] == cs@[i as int]@);
        }
        let to = match parse_id(cs[i].to.as_str()) {
            Some(id) => id,
            None => {
                proof {
                    lemma_parse_connections_none_sticks(reqs, i + 1);
                }
                return None;
            },
        };
        out.push(Connection { to, relation: cs[i].relation.clone() });
        proof {
            assert(out@.map_values(|c: Connection| c@) =~= parse_connections_req(
                reqs.take(i + 1),
            ).unwrap());
        }
        i = i + 1;
    }
    proof {
        assert(reqs.take(reqs.len() as int) =~= reqs);
    }
    Some(out)
}

/// Decode a request node list; nothing when any identifier is malformed.
fn parse_nodes(ns: &Vec<NodeRequest>) -> (r: Option<Vec<PrototypeNode>>)
    ensures
        match r {
            Some(v) => parse_nodes_req(ns@.map_values(|n: NodeRequest| n@)) matches Some(x)
                && v@.map_values(|n: PrototypeNode| n@) == x,
            None => parse_nodes_req(ns@.map_values(|n: NodeRequest| n@)) is None,
        },
{
    let ghost reqs = ns@.map_values(|n: NodeRequest| n@);
    let mut out: Vec<PrototypeNode> = Vec::new();
    let mut i: usize = 0;
    proof {
        assert(reqs.take(0) =~= Seq::<NodeRequestV>::empty());
    }
    while i < ns.len()
        invariant
            i <= ns@.len(),
            reqs == ns@.map_values(|n: NodeRequest| n@),
            parse_nodes_req(reqs.take(i as int)) matches Some(x) && out@.map_values(
                |n: PrototypeNode| n@,
            ) == x,
        decreases ns@.len() - i,
    {
        proof {
            assert(reqs.take(i + 1).drop_last() =~= reqs.take(i as int));
            assert(reqs.take(i + 1).last() == reqs[i as int]);
            assert(reqs[i as int] == ns@[i as int]@);
        }
        let feature_id = match parse_id(ns[i].feature_id.as_str()) {
            Some(id) => id,
            None => {
                proof {
                    lemma_parse_nodes_none_sticks(reqs, i + 1);
                }
                return None;
            },
        };
        let connections = match parse_connections(&ns[i].connections) {
            Some(v) => v,
            None => {
                proof {
                    lemma_parse_nodes_none_sticks(reqs, i + 1);
                }
                return None;
            },
        };
        out.push(PrototypeNode { feature_id, connections });
        proof {
            assert(out@.map_values(|n: PrototypeNode| n@) =~= parse_nodes_req(
                reqs.take(i + 1),
            ).unwrap());
        }
        i = i + 1;
    }
    proof {
        assert(reqs.take(reqs.len() as int) =~= reqs);
    }
    Some(out)
}

/// Decode a whole prototype request into the stored document shape.
fn parse_prototype_request(req: &PrototypeRequest) -> (r: Option<Prototype>)
    ensures
        match r {
            Some(p) => parse_prototype_req(req@) matches Some(x) && p@ == x,
            None => parse_prototype_req(req@) is None,
        },
{
    let template_id = match parse_id(req.template_id.as_str()) {
        Some(id) => id,
        None => {
            return None;
        },
    };
    let nodes = match parse_nodes(&req.nodes) {
        Some(v) => v,
        None => {
            return None;
        },
    };
    Some(Prototype { template_id, nodes })
}

/// Create a prototype from a decoded request, then answer with it read back
/// merged against the feature collection. A malformed identifier anywhere in
/// the request fails validation; only an exhausted store fails internally.
pub fn add_prototype(c: &mut CollectionsContainer, req: &PrototypeRequest) -> (r: Result<
    PrototypeResponse,
    ApiError,
>)
    requires
        old(c).inv(),
    ensures
        final(c).inv(),
        final(c).category == old(c).category,
        final(c).feature == old(c).feature,
        final(c).project == old(c).project,
        final(c).template == old(c).template,
        match parse_prototype_req(req@) {
            None => r == Err::<PrototypeResponse, ApiError>(ApiError::Validation) && final(c).prototype.model() == old(c).prototype.model(),
            Some(proto) => {
                if old(c).prototype.can_insert() {
                    &&& final(c).prototype.model() == old(c).prototype.model().push(
                        (final(c).prototype.model().last().0, proto),
                    )
                    &&& r matches Ok(resp) && resp@ == build_prototype_v(
                        agg_prototype(
                            final(c).prototype.model().last().0,
                            proto,
                            map_of(old(c).feature.model()),
                        ),
                    )
                } else {
                    r == Err::<PrototypeResponse, ApiError>(ApiError::Internal) && final(c).prototype.model() == old(c).prototype.model()
                }
            },
        },
{
    let doc = match parse_prototype_request(req) {
        Some(p) => p,
        None => {
            return Err(ApiError::Validation);
        },
    };
    let copy = doc.dup();
    let id = match c.prototype.insert_one(doc) {
        Ok(id) => id,
        Err(_) => {
            return Err(ApiError::Internal);
        },
    };
    let entry = Entry { id, doc: copy };
    let agg = aggregate_one_prototype(&entry, &c.feature);
    Ok(build_prototype(&agg))
}

/// Look up the prototypes owned by a template and answer with the last
/// match merged against the feature collection. A malformed identifier
/// fails validation; a template that owns no prototype is not found.
pub fn get_prototype_by_template_id(c: &CollectionsContainer, payload: &IdPayload) -> (r: Result<
    PrototypeResponse,
    ApiError,
>)
    requires
        c.inv(),
    ensures
        match parse_id_str(payload.id@) {
            None => r == Err::<PrototypeResponse, ApiError>(ApiError::Validation),
            Some(tid) => {
                let pts = prototypes_of_template(c.prototype.model(), tid);
                if pts.len() == 0 {
                    r == Err::<PrototypeResponse, ApiError>(ApiError::NotFound)
                } else {
                    r matches Ok(resp) && resp@ == build_prototype_v(
                        agg_prototype(
                            pts.last().0,
                            pts.last().1,
                            map_of(c.feature.model()),
                        ),
                    )
                }
            },
        },
{
    let tid = match parse_id(payload.id.as_str()) {
        Some(id) => id,
        None => {
            return Err(ApiError::Validation);
        },
    };
    let aggs = aggregate_prototypes_by_template(c, &tid);
    proof {
        let pts = prototypes_of_template(c.prototype.model(), tid);
        assert(aggs@.map_values(|a: PrototypeAggregate| a@).len() == aggs@.len());
        assert(pts.map_values(
            |p: (Id, PrototypeV)| agg_prototype(p.0, p.1, map_of(c.feature.model())),
        ).len() == pts.len());
        assert(aggs@.len() == pts.len());
    }
    if aggs.len() == 0 {
        return Err(ApiError::NotFound);
    }
    let last = &aggs[aggs.len() - 1];
    proof {
        let pts = prototypes_of_template(c.prototype.model(), tid);
        let k = aggs@.len() - 1;
        assert(aggs@[k]@ == aggs@.map_values(|a: PrototypeAggregate| a@)[k]);
        assert(pts.map_values(
            |p: (Id, PrototypeV)| agg_prototype(p.0, p.1, map_of(c.feature.model())),
        )[k] == agg_prototype(pts[k].0, pts[k].1, map_of(c.feature.model())));
        assert(aggs@[k]@ == agg_prototype(
            pts.last().0,
            pts.last().1,
            map_of(c.feature.model()),
        ));
    }
    Ok(build_prototype(last))
}

/// Remove one prototype by its text identifier and answer with the removed
/// document's own identifier and its owning template's.
pub fn delete_prototype(c: &mut CollectionsContainer, payload: &IdPayload) -> (r: Result<
    DeletedPrototypeResponse,
    ApiError,
>)
    requires
        old(c).inv(),
    ensures
        final(c).inv(),
        final(c).category == old(c).category,
        final(c).feature == old(c).feature,
        final(c).project == old(c).project,
        final(c).template == old(c).template,
        match parse_id_str(payload.id@) {
            None => r == Err::<DeletedPrototypeResponse, ApiError>(ApiError::Validation) && final(c).prototype.model() == old(c).prototype.model(),
            Some(id) => {
                if map_of(old(c).prototype.model()).contains_key(id) {
                    &&& r matches Ok(resp) && resp@.id == id_str(id) && resp@.template_id == id_str(
                        map_of(old(c).prototype.model())[id].template_id,
                    )
                    &&& final(c).prototype.model() == removed(old(c).prototype.model(), id)
                    &&& !map_of(final(c).prototype.model()).contains_key(id)
                } else {
                    r == Err::<DeletedPrototypeResponse, ApiError>(ApiError::NotFound) && final(c).prototype.model() == old(c).prototype.model()
                }
            },
        },
{
    let id = match parse_id(payload.id.as_str()) {
        Some(id) => id,
        None => {
            return Err(ApiError::Validation);
        },
    };
    match c.prototype.delete_one(&id) {
        Some(stored) => Ok(
            DeletedPrototypeResponse {
                id: id_to_hex(&id),
                template_id: id_to_hex(&stored.template_id),
            },
        ),
        None => Err(ApiError::NotFound),
    }
}

/// Replace the prototype owned by a template — the last one, where several
/// exist — with the document a decoded request describes, and answer with it
/// merged against the feature collection. A malformed identifier fails
/// validation; a template that owns no prototype is not found.
pub fn update_prototype(c: &mut CollectionsContainer, req: &PrototypeRequest) -> (r: Result<
    PrototypeResponse,
    ApiError,
>)
    requires
        old(c).inv(),
    ensures
        final(c).inv(),
        final(c).category == old(c).category,
        final(c).feature == old(c).feature,
        final(c).project == old(c).project,
        final(c).template == old(c).template,
        match parse_prototype_req(req@) {
            None => r == Err::<PrototypeResponse, ApiError>(ApiError::Validation) && final(c).prototype.model() == old(c).prototype.model(),
            Some(proto) => {
                let pts = prototypes_of_template(old(c).prototype.model(), proto.template_id);
                if pts.len() == 0 {
                    r == Err::<PrototypeResponse, ApiError>(ApiError::NotFound) && final(c).prototype.model() == old(c).prototype.model()
                } else {
                    &&& final(c).prototype.model() == updated(
                        old(c).prototype.model(),
                        pts.last().0,
                        proto,
                    )
                    &&& r matches Ok(resp) && resp@ == build_prototype_v(
                        agg_prototype(pts.last().0, proto, map_of(old(c).feature.model())),
                    )
                }
            },
        },
{
    let doc = match parse_prototype_request(req) {
        Some(p) => p,
        None => {
            return Err(ApiError::Validation);
        },
    };
    let ghost tidv = doc@.template_id;
    let mut target: Option<Id> = None;
    {
        let entries = c.prototype.find_all();
        let ghost model = c.prototype.model();
        let mut i: usize = 0;
        proof {
            assert(model.take(0) =~= Seq::<(Id, PrototypeV)>::empty());
        }
        while i < entries.len()
            invariant
                i <= entries@.len(),
                entries@.map_values(|e: Entry<Prototype>| e@) == model,
                tidv == doc@.template_id,
                match target {
                    None => prototypes_of_template(model.take(i as int), tidv).len() == 0,
                    Some(t) => prototypes_of_template(model.take(i as int), tidv).len() > 0 && t
                        == prototypes_of_template(model.take(i as int), tidv).last().0,
                },
            decreases entries@.len() - i,
        {
            proof {
                assert(model[i as int] == entries@[i as int]@);
                assert(model.take(i + 1).drop_last() =~= model.take(i as int));
                assert(model.take(i + 1).last() == model[i as int]);
            }
            if entries[i].doc.template_id == doc.template_id {
                target = Some(entries[i].id);
                proof {
                    assert(model.take(i + 1).last().1.template_id == tidv);
                    assert(prototypes_of_template(model.take(i + 1), tidv)
                        == prototypes_of_template(model.take(i as int), tidv).push(
                        model[i as int],
                    ));
                }
            } else {
                proof {
                    assert(model.take(i + 1).last().1.template_id != tidv);
                    assert(prototypes_of_template(model.take(i + 1), tidv)
                        == prototypes_of_template(model.take(i as int), tidv));
                }
            }
            i = i + 1;
        }
        proof {
            assert(model.take(model.len() as int) =~= model);
        }
    }
    let t = match target {
        Some(t) => t,
        None => {
            return Err(ApiError::NotFound);
        },
    };
    let copy = doc.dup();
    proof {
        let pts = prototypes_of_template(c.prototype.model(), tidv);
        lemma_prototypes_of_template_sound(c.prototype.model(), tidv);
        assert(contains_id(c.prototype.model(), t));
        lemma_map_of_contains(c.prototype.model(), t);
    }
    match c.prototype.update_one(&t, doc) {
        Some(_) => {
            let entry = Entry { id: t, doc: copy };
            let agg = aggregate_one_prototype(&entry, &c.feature);
            Ok(build_prototype(&agg))
        },
        None => {
            proof {
                assert(false);
            }
            Err(ApiError::Internal)
        },
    }
}

} // verus!
