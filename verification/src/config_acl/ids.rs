//! Identifier lists of the records of a raw gateway configuration.
use vstd::prelude::*;

use crate::config_acl::raw_model::{
    RawHeaderRule, RawModel, RawProvider, RawRoute, RawRuleGraphEdge, RawRuleGraphNode,
};
use crate::config_acl::util::strs_view;

verus! {

pub open spec fn provider_ids_view(ps: Seq<RawProvider>) -> Seq<Seq<char>> {
    ps.map_values(|p: RawProvider| p.id@)
}

pub open spec fn model_ids_view(ms: Seq<RawModel>) -> Seq<Seq<char>> {
    ms.map_values(|m: RawModel| m.id@)
}

pub open spec fn route_ids_view(rs: Seq<RawRoute>) -> Seq<Seq<char>> {
    rs.map_values(|r: RawRoute| r.id@)
}

pub open spec fn header_rule_ids_view(rs: Seq<RawHeaderRule>) -> Seq<Seq<char>> {
    rs.map_values(|r: RawHeaderRule| r.id@)
}

pub open spec fn node_ids_view(ns: Seq<RawRuleGraphNode>) -> Seq<Seq<char>> {
    ns.map_values(|n: RawRuleGraphNode| n.id@)
}

pub open spec fn edge_ids_view(es: Seq<RawRuleGraphEdge>) -> Seq<Seq<char>> {
    es.map_values(|e: RawRuleGraphEdge| e.id@)
}

/// The identifiers of the providers, in order.
pub fn provider_ids(ps: &Vec<RawProvider>) -> (v: Vec<&str>)
    ensures
        strs_view(v@) == provider_ids_view(ps@),
{
    let mut v: Vec<&str> = Vec::new();
    let mut i: usize = 0;
    while i < ps.len()
        invariant
            i <= ps@.len(),
            v@.len() == i,
            forall|j: int| 0 <= j < i ==> #[trigger] v@[j]@ == ps@[j].id@,
        decreases ps@.len() - i,
    {
        v.push(ps[i].id.as_str());
        i = i + 1;
    }
    assert(strs_view(v@) =~= provider_ids_view(ps@));
    v
}

/// The identifiers of the models, in order.
pub fn model_ids(ms: &Vec<RawModel>) -> (v: Vec<&str>)
    ensures
        strs_view(v@) == model_ids_view(ms@),
{
    let mut v: Vec<&str> = Vec::new();
    let mut i: usize = 0;
    while i < ms.len()
        invariant
            i <= ms@.len(),
            v@.len() == i,
            forall|j: int| 0 <= j < i ==> #[trigger] v@[j]@ == ms@[j].id@,
        decreases ms@.len() - i,
    {
        v.push(ms[i].id.as_str());
        i = i + 1;
    }
    assert(strs_view(v@) =~= model_ids_view(ms@));
    v
}

/// The identifiers of the routes, in order.
pub fn route_ids(rs: &Vec<RawRoute>) -> (v: Vec<&str>)
    ensures
        strs_view(v@) == route_ids_view(rs@),
{
    let mut v: Vec<&str> = Vec::new();
    let mut i: usize = 0;
    while i < rs.len()
        invariant
            i <= rs@.len(),
            v@.len() == i,
            forall|j: int| 0 <= j < i ==> #[trigger] v@[j]@ == rs@[j].id@,
        decreases rs@.len() - i,
    {
        v.push(rs[i].id.as_str());
        i = i + 1;
    }
    assert(strs_view(v@) =~= route_ids_view(rs@));
    v
}

/// The identifiers of the header rules, in order.
pub fn header_rule_ids(rs: &Vec<RawHeaderRule>) -> (v: Vec<&str>)
    ensures
        strs_view(v@) == header_rule_ids_view(rs@),
{
    let mut v: Vec<&str> = Vec::new();
    let mut i: usize = 0;
    while i < rs.len()
        invariant
            i <= rs@.len(),
            v@.len() == i,
            forall|j: int| 0 <= j < i ==> #[trigger] v@[j]@ == rs@[j].id@,
        decreases rs@.len() - i,
    {
        v.push(rs[i].id.as_str());
        i = i + 1;
    }
    assert(strs_view(v@) =~= header_rule_ids_view(rs@));
    v
}

/// The identifiers of the graph nodes, in order.
pub fn node_ids(ns: &Vec<RawRuleGraphNode>) -> (v: Vec<&str>)
    ensures
        strs_view(v@) == node_ids_view(ns@),
{
    let mut v: Vec<&str> = Vec::new();
    let mut i: usize = 0;
    while i < ns.len()
        invariant
            i <= ns@.len(),
            v@.len() == i,
            forall|j: int| 0 <= j < i ==> #[trigger] v@[j]@ == ns@[j].id@,
        decreases ns@.len() - i,
    {
        v.push(ns[i].id.as_str());
        i = i + 1;
    }
    assert(strs_view(v@) =~= node_ids_view(ns@));
    v
}

/// The identifiers of the graph edges, in order.
pub fn edge_ids(es: &Vec<RawRuleGraphEdge>) -> (v: Vec<&str>)
    ensures
        strs_view(v@) == edge_ids_view(es@),
{
    let mut v: Vec<&str> = Vec::new();
    let mut i: usize = 0;
    while i < es.len()
        invariant
            i <= es@.len(),
            v@.len() == i,
            forall|j: int| 0 <= j < i ==> #[trigger] v@[j]@ == es@[j].id@,
        decreases es@.len() - i,
    {
        v.push(es[i].id.as_str());
        i = i + 1;
    }
    assert(strs_view(v@) =~= edge_ids_view(es@));
    v
}

} // verus!
