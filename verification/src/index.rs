//! The id-keyed auxiliary indexes: units, periods and dimensions.
//!
//! Each index is a flat association list of `(id, entry)` pairs in document
//! order. A fact later collects every pair whose id matches its reference,
//! in order, so multiple declarations sharing an id accumulate rather than
//! overwrite one another.

use vstd::prelude::*;

use crate::text::{
    attr_of, attr_or_empty, clone_or_empty, get_attr, get_attr_or_empty, or_empty, qname_split,
    split_qname, str_eq,
};
use crate::xml::{
    children_view, nodes_view, SpecChild, SpecElement, SpecNode, XmlChild, XmlDocument,
};

verus! {

/// One measure entry of a unit: the tag name of the measure's parent (its
/// role: standalone, numerator or denominator) and the measure's text.
#[derive(Debug, Clone, PartialEq, Eq)]
pub struct Unit {
    pub unit_type: String,
    pub unit_value: String,
}

/// One period entry of a context: kind (`instant`, `startDate` or
/// `endDate`) and its text.
#[derive(Debug, Clone, PartialEq, Eq)]
pub struct Period {
    pub period_type: String,
    pub period_value: String,
}

/// One explicit segment classification of a context: the axis qualified
/// name split into namespace prefix and id, and likewise the member.
#[derive(Debug, Clone, PartialEq, Eq)]
pub struct Dimension {
    pub key_ns: String,
    pub key_value: String,
    pub member_ns: String,
    pub member_value: String,
}

/// Mathematical image of `Unit`.
pub ghost struct SpecUnit {
    pub unit_type: Seq<char>,
    pub unit_value: Seq<char>,
}

/// Mathematical image of `Period`.
pub ghost struct SpecPeriod {
    pub period_type: Seq<char>,
    pub period_value: Seq<char>,
}

/// Mathematical image of `Dimension`.
pub ghost struct SpecDimension {
    pub key_ns: Seq<char>,
    pub key_value: Seq<char>,
    pub member_ns: Seq<char>,
    pub member_value: Seq<char>,
}

impl View for Unit {
    type V = SpecUnit;

    open spec fn view(&self) -> SpecUnit {
        SpecUnit { unit_type: self.unit_type@, unit_value: self.unit_value@ }
    }
}

impl View for Period {
    type V = SpecPeriod;

    open spec fn view(&self) -> SpecPeriod {
        SpecPeriod { period_type: self.period_type@, period_value: self.period_value@ }
    }
}

impl View for Dimension {
    type V = SpecDimension;

    open spec fn view(&self) -> SpecDimension {
        SpecDimension {
            key_ns: self.key_ns@,
            key_value: self.key_value@,
            member_ns: self.member_ns@,
            member_value: self.member_value@,
        }
    }
}

/// The view of an index: each pair's id and entry.
pub open spec fn pairs_view<E: View>(s: Seq<(String, E)>) -> Seq<(Seq<char>, E::V)> {
    s.map_values(|p: (String, E)| (p.0@, p.1@))
}

/// Keys a list of entries under one id.
pub open spec fn pair_up<T>(id: Seq<char>, items: Seq<T>) -> Seq<(Seq<char>, T)> {
    items.map_values(|t: T| (id, t))
}

/// The measure entries contributed by a node list, in document order: one
/// per `measure`-tagged node, whose kind is the parent's tag name and whose
/// value is the node's text, each with the empty-string default.
pub open spec fn measures_in(nodes: Seq<SpecNode>) -> Seq<SpecUnit>
    decreases nodes.len(),
{
    if nodes.len() == 0 {
        Seq::empty()
    } else {
        measures_in(nodes.drop_last()) + (if nodes.last().name == "measure"@ {
            seq![
                SpecUnit {
                    unit_type: or_empty(nodes.last().parent_name),
                    unit_value: or_empty(nodes.last().text),
                },
            ]
        } else {
            Seq::empty()
        })
    }
}

/// The measure entries found anywhere under an element's children.
pub open spec fn elem_measures(children: Seq<SpecChild>) -> Seq<SpecUnit>
    decreases children.len(),
{
    if children.len() == 0 {
        Seq::empty()
    } else {
        elem_measures(children.drop_last()) + measures_in(children.last().subtree)
    }
}

/// The unit-index pairs contributed by one top-level element: a `unit`
/// element contributes its measures, keyed by its id; anything else
/// contributes nothing.
pub open spec fn unit_pairs_of_elem(e: SpecElement) -> Seq<(Seq<char>, SpecUnit)> {
    if e.node.name == "unit"@ {
        pair_up(attr_or_empty(e.node.attrs, "id"@), elem_measures(e.children))
    } else {
        Seq::empty()
    }
}

/// The whole unit index of a document, in document order.
pub open spec fn unit_pairs(elems: Seq<SpecElement>) -> Seq<(Seq<char>, SpecUnit)>
    decreases elems.len(),
{
    if elems.len() == 0 {
        Seq::empty()
    } else {
        unit_pairs(elems.drop_last()) + unit_pairs_of_elem(elems.last())
    }
}

/// The period entries contributed by a node list: one per node tagged
/// `instant`, `startDate` or `endDate`, carrying that tag as its kind.
pub open spec fn periods_in(nodes: Seq<SpecNode>) -> Seq<SpecPeriod>
    decreases nodes.len(),
{
    if nodes.len() == 0 {
        Seq::empty()
    } else {
        periods_in(nodes.drop_last()) + (if is_period_kind(nodes.last().name) {
            seq![
                SpecPeriod {
                    period_type: nodes.last().name,
                    period_value: or_empty(nodes.last().text),
                },
            ]
        } else {
            Seq::empty()
        })
    }
}

/// The three period kinds that are kept.
pub open spec fn is_period_kind(name: Seq<char>) -> bool {
    name == "instant"@ || name == "startDate"@ || name == "endDate"@
}

/// The period entries of a context element: those found anywhere under its
/// direct children tagged `period`.
pub open spec fn elem_periods(children: Seq<SpecChild>) -> Seq<SpecPeriod>
    decreases children.len(),
{
    if children.len() == 0 {
        Seq::empty()
    } else {
        elem_periods(children.drop_last()) + (if children.last().node.name == "period"@ {
            periods_in(children.last().subtree)
        } else {
            Seq::empty()
        })
    }
}

/// The period-index pairs contributed by one top-level element.
pub open spec fn period_pairs_of_elem(e: SpecElement) -> Seq<(Seq<char>, SpecPeriod)> {
    if e.node.name == "context"@ {
        pair_up(attr_or_empty(e.node.attrs, "id"@), elem_periods(e.children))
    } else {
        Seq::empty()
    }
}

/// The whole period index of a document, in document order.
pub open spec fn period_pairs(elems: Seq<SpecElement>) -> Seq<(Seq<char>, SpecPeriod)>
    decreases elems.len(),
{
    if elems.len() == 0 {
        Seq::empty()
    } else {
        period_pairs(elems.drop_last()) + period_pairs_of_elem(elems.last())
    }
}

/// The dimension a single node contributes: an `explicitMember` carrying a
/// `dimension` attribute whose value and text both split as qualified
/// names. A malformed qualified name makes the node contribute nothing; it
/// is skipped, never fatal.
pub open spec fn dim_of_node(n: SpecNode) -> Seq<SpecDimension> {
    if n.name == "explicitMember"@ {
        match attr_of(n.attrs, "dimension"@) {
            Some(d) => match (qname_split(d), qname_split(or_empty(n.text))) {
                (Some(axis), Some(member)) => seq![
                    SpecDimension {
                        key_ns: axis.0,
                        key_value: axis.1,
                        member_ns: member.0,
                        member_value: member.1,
                    },
                ],
                _ => Seq::empty(),
            },
            None => Seq::empty(),
        }
    } else {
        Seq::empty()
    }
}

/// The dimension entries contributed by a node list.
pub open spec fn dims_in(nodes: Seq<SpecNode>) -> Seq<SpecDimension>
    decreases nodes.len(),
{
    if nodes.len() == 0 {
        Seq::empty()
    } else {
        dims_in(nodes.drop_last()) + dim_of_node(nodes.last())
    }
}

/// The dimension entries of a context element: those found anywhere under
/// its direct children tagged `entity`.
pub open spec fn elem_dims(children: Seq<SpecChild>) -> Seq<SpecDimension>
    decreases children.len(),
{
    if children.len() == 0 {
        Seq::empty()
    } else {
        elem_dims(children.drop_last()) + (if children.last().node.name == "entity"@ {
            dims_in(children.last().subtree)
        } else {
            Seq::empty()
        })
    }
}

/// The dimension-index pairs contributed by one top-level element.
pub open spec fn dim_pairs_of_elem(e: SpecElement) -> Seq<(Seq<char>, SpecDimension)> {
    if e.node.name == "context"@ {
        pair_up(attr_or_empty(e.node.attrs, "id"@), elem_dims(e.children))
    } else {
        Seq::empty()
    }
}

/// The whole dimension index of a document, in document order.
pub open spec fn dim_pairs(elems: Seq<SpecElement>) -> Seq<(Seq<char>, SpecDimension)>
    decreases elems.len(),
{
    if elems.len() == 0 {
        Seq::empty()
    } else {
        dim_pairs(elems.drop_last()) + dim_pairs_of_elem(elems.last())
    }
}

/// Collects the measure entries found anywhere under the given children.
pub fn measures_of_children(children: &Vec<XmlChild>) -> (r: Vec<Unit>)
    ensures
        r@.map_values(|u: Unit| u@) == elem_measures(children_view(children@)),
{
    let ghost cv = children_view(children@);
    let mut r: Vec<Unit> = Vec::new();
    proof {
        assert(r@.map_values(|u: Unit| u@) =~= elem_measures(cv.take(0)));
    }
    for ci in 0..children.len()
        invariant
            cv == children_view(children@),
            cv.len() == children.len(),
            r@.map_values(|u: Unit| u@) == elem_measures(cv.take(ci as int)),
    {
        let sub = &children[ci].subtree;
        let ghost sv = nodes_view(sub@);
        proof {
            assert(cv[ci as int] == children@[ci as int]@);
            assert(sv.take(0) =~= Seq::<SpecNode>::empty());
            assert(r@.map_values(|u: Unit| u@) =~= elem_measures(cv.take(ci as int)) + measures_in(
                sv.take(0),
            ));
        }
        for ni in 0..sub.len()
            invariant
                cv == children_view(children@),
                cv.len() == children.len(),
                ci < children.len(),
                sv == nodes_view(children@[ci as int].subtree@),
                sv == cv[ci as int].subtree,
                sv.len() == sub.len(),
                sub == children[ci as int].subtree,
                r@.map_values(|u: Unit| u@) == elem_measures(cv.take(ci as int)) + measures_in(
                    sv.take(ni as int),
                ),
        {
            let node = &sub[ni];
            proof {
                assert(sv[ni as int] == sub@[ni as int]@);
                assert(sv.take(ni + 1).drop_last() =~= sv.take(ni as int));
                assert(sv.take(ni + 1).last() == sv[ni as int]);
            }
            if str_eq(node.name.as_str(), "measure") {
                let u = Unit {
                    unit_type: clone_or_empty(&node.parent_name),
                    unit_value: clone_or_empty(&node.text),
                };
                proof {
                    assert(r@.push(u).map_values(|x: Unit| x@) =~= r@.map_values(|x: Unit| x@)
                        + seq![u@]);
                }
                r.push(u);
            }
            proof {
                assert(r@.map_values(|u: Unit| u@) =~= elem_measures(cv.take(ci as int))
                    + measures_in(sv.take(ni + 1)));
            }
        }
        proof {
            assert(sv.take(sub.len() as int) =~= sv);
            assert(cv.take(ci + 1).drop_last() =~= cv.take(ci as int));
            assert(cv.take(ci + 1).last() == cv[ci as int]);
        }
    }
    proof {
        assert(cv.take(children.len() as int) =~= cv);
    }
    r
}

/// Builds the unit index: for each `unit` element, every `measure`
/// descendant becomes one entry keyed by the element's id.
pub fn build_unit_index(doc: &XmlDocument) -> (r: Vec<(String, Unit)>)
    ensures
        pairs_view(r@) == unit_pairs(doc@),
{
    let ghost dv = doc@;
    let mut r: Vec<(String, Unit)> = Vec::new();
    proof {
        assert(pairs_view(r@) =~= unit_pairs(dv.take(0)));
    }
    for ei in 0..doc.elements.len()
        invariant
            dv == doc@,
            dv.len() == doc.elements.len(),
            pairs_view(r@) == unit_pairs(dv.take(ei as int)),
    {
        let e = &doc.elements[ei];
        proof {
            assert(dv[ei as int] == doc.elements@[ei as int]@);
            assert(dv.take(ei + 1).drop_last() =~= dv.take(ei as int));
            assert(dv.take(ei + 1).last() == dv[ei as int]);
        }
        if str_eq(e.node.name.as_str(), "unit") {
            let id = get_attr_or_empty(&e.node.attrs, "id");
            let ms = measures_of_children(&e.children);
            let ghost uv = elem_measures(dv[ei as int].children);
            proof {
                assert(pairs_view(r@) =~= unit_pairs(dv.take(ei as int)) + pair_up(
                    id@,
                    uv.take(0),
                ));
            }
            for k in 0..ms.len()
                invariant
                    uv == elem_measures(dv[ei as int].children),
                    ms@.map_values(|u: Unit| u@) == uv,
                    uv.len() == ms.len(),
                    pairs_view(r@) == unit_pairs(dv.take(ei as int)) + pair_up(
                        id@,
                        uv.take(k as int),
                    ),
            {
                let p = (
                    id.clone(),
                    Unit {
                        unit_type: ms[k].unit_type.clone(),
                        unit_value: ms[k].unit_value.clone(),
                    },
                );
                proof {
                    assert(uv[k as int] == ms@[k as int]@);
                    assert(r@.push(p).map_values(|q: (String, Unit)| (q.0@, q.1@)) =~= pairs_view(
                        r@,
                    ) + seq![(p.0@, p.1@)]);
                    assert(pair_up(id@, uv.take(k + 1)) =~= pair_up(id@, uv.take(k as int)) + seq![
                        (id@, uv[k as int]),
                    ]);
                }
                r.push(p);
            }
            proof {
                assert(uv.take(ms.len() as int) =~= uv);
                assert(pair_up(id@, uv) =~= unit_pairs_of_elem(dv[ei as int]));
            }
        }
        proof {
            assert(pairs_view(r@) =~= unit_pairs(dv.take(ei + 1)));
        }
    }
    proof {
        assert(dv.take(doc.elements.len() as int) =~= dv);
    }
    r
}

/// Collects the period entries found under the `period`-tagged children.
pub fn periods_of_children(children: &Vec<XmlChild>) -> (r: Vec<Period>)
    ensures
        r@.map_values(|p: Period| p@) == elem_periods(children_view(children@)),
{
    let ghost cv = children_view(children@);
    let mut r: Vec<Period> = Vec::new();
    proof {
        assert(r@.map_values(|p: Period| p@) =~= elem_periods(cv.take(0)));
    }
    for ci in 0..children.len()
        invariant
            cv == children_view(children@),
            cv.len() == children.len(),
            r@.map_values(|p: Period| p@) == elem_periods(cv.take(ci as int)),
    {
        let child = &children[ci];
        proof {
            assert(cv[ci as int] == children@[ci as int]@);
            assert(cv.take(ci + 1).drop_last() =~= cv.take(ci as int));
            assert(cv.take(ci + 1).last() == cv[ci as int]);
        }
        if str_eq(child.node.name.as_str(), "period") {
            let sub = &child.subtree;
            let ghost sv = nodes_view(sub@);
            proof {
                assert(sv.take(0) =~= Seq::<SpecNode>::empty());
                assert(r@.map_values(|p: Period| p@) =~= elem_periods(cv.take(ci as int))
                    + periods_in(sv.take(0)));
            }
            for ni in 0..sub.len()
                invariant
                    cv == children_view(children@),
                    cv.len() == children.len(),
                    ci < children.len(),
                    sv == nodes_view(children@[ci as int].subtree@),
                    sv == cv[ci as int].subtree,
                    sv.len() == sub.len(),
                    sub == children[ci as int].subtree,
                    r@.map_values(|p: Period| p@) == elem_periods(cv.take(ci as int)) + periods_in(
                        sv.take(ni as int),
                    ),
            {
                let node = &sub[ni];
                proof {
                    assert(sv[ni as int] == sub@[ni as int]@);
                    assert(sv.take(ni + 1).drop_last() =~= sv.take(ni as int));
                    assert(sv.take(ni + 1).last() == sv[ni as int]);
                }
                let kind_kept = str_eq(node.name.as_str(), "instant") || str_eq(
                    node.name.as_str(),
                    "startDate",
                ) || str_eq(node.name.as_str(), "endDate");
                if kind_kept {
                    let p = Period {
                        period_type: node.name.clone(),
                        period_value: clone_or_empty(&node.text),
                    };
                    proof {
                        assert(r@.push(p).map_values(|x: Period| x@) =~= r@.map_values(
                            |x: Period| x@,
                        ) + seq![p@]);
                    }
                    r.push(p);
                }
                proof {
                    assert(r@.map_values(|p: Period| p@) =~= elem_periods(cv.take(ci as int))
                        + periods_in(sv.take(ni + 1)));
                }
            }
            proof {
                assert(sv.take(sub.len() as int) =~= sv);
            }
        }
        proof {
            assert(r@.map_values(|p: Period| p@) =~= elem_periods(cv.take(ci + 1)));
        }
    }
    proof {
        assert(cv.take(children.len() as int) =~= cv);
    }
    r
}

/// Collects the dimension entries found under the `entity`-tagged children.
/// An `explicitMember` whose qualified names are malformed is skipped.
pub fn dims_of_children(children: &Vec<XmlChild>) -> (r: Vec<Dimension>)
    ensures
        r@.map_values(|d: Dimension| d@) == elem_dims(children_view(children@)),
{
    let ghost cv = children_view(children@);
    let mut r: Vec<Dimension> = Vec::new();
    proof {
        assert(r@.map_values(|d: Dimension| d@) =~= elem_dims(cv.take(0)));
    }
    for ci in 0..children.len()
        invariant
            cv == children_view(children@),
            cv.len() == children.len(),
            r@.map_values(|d: Dimension| d@) == elem_dims(cv.take(ci as int)),
    {
        let child = &children[ci];
        proof {
            assert(cv[ci as int] == children@[ci as int]@);
            assert(cv.take(ci + 1).drop_last() =~= cv.take(ci as int));
            assert(cv.take(ci + 1).last() == cv[ci as int]);
        }
        if str_eq(child.node.name.as_str(), "entity") {
            let sub = &child.subtree;
            let ghost sv = nodes_view(sub@);
            proof {
                assert(sv.take(0) =~= Seq::<SpecNode>::empty());
                assert(r@.map_values(|d: Dimension| d@) =~= elem_dims(cv.take(ci as int)) + dims_in(
                    sv.take(0),
                ));
            }
            for ni in 0..sub.len()
                invariant
                    cv == children_view(children@),
                    cv.len() == children.len(),
                    ci < children.len(),
                    sv == nodes_view(children@[ci as int].subtree@),
                    sv == cv[ci as int].subtree,
                    sv.len() == sub.len(),
                    sub == children[ci as int].subtree,
                    r@.map_values(|d: Dimension| d@) == elem_dims(cv.take(ci as int)) + dims_in(
                        sv.take(ni as int),
                    ),
            {
                let node = &sub[ni];
                proof {
                    assert(sv[ni as int] == sub@[ni as int]@);
                    assert(sv.take(ni + 1).drop_last() =~= sv.take(ni as int));
                    assert(sv.take(ni + 1).last() == sv[ni as int]);
                }
                if str_eq(node.name.as_str(), "explicitMember") {
                    if let Some(dim_attr) = get_attr(&node.attrs, "dimension") {
                        let text = clone_or_empty(&node.text);
                        let axis = split_qname(dim_attr.as_str());
                        let member = split_qname(text.as_str());
                        if let (Some(a), Some(m)) = (axis, member) {
                            let d = Dimension {
                                key_ns: a.0,
                                key_value: a.1,
                                member_ns: m.0,
                                member_value: m.1,
                            };
                            proof {
                                assert(r@.push(d).map_values(|x: Dimension| x@) =~= r@.map_values(
                                    |x: Dimension| x@,
                                ) + seq![d@]);
                            }
                            r.push(d);
                        }
                    }
                }
                proof {
                    assert(r@.map_values(|d: Dimension| d@) =~= elem_dims(cv.take(ci as int))
                        + dims_in(sv.take(ni + 1)));
                }
            }
            proof {
                assert(sv.take(sub.len() as int) =~= sv);
            }
        }
        proof {
            assert(r@.map_values(|d: Dimension| d@) =~= elem_dims(cv.take(ci + 1)));
        }
    }
    proof {
        assert(cv.take(children.len() as int) =~= cv);
    }
    r
}

/// Builds the period index: for each `context` element, every kept period
/// descendant under a `period` child becomes one entry keyed by the id.
pub fn build_period_index(doc: &XmlDocument) -> (r: Vec<(String, Period)>)
    ensures
        pairs_view(r@) == period_pairs(doc@),
{
    let ghost dv = doc@;
    let mut r: Vec<(String, Period)> = Vec::new();
    proof {
        assert(pairs_view(r@) =~= period_pairs(dv.take(0)));
    }
    for ei in 0..doc.elements.len()
        invariant
            dv == doc@,
            dv.len() == doc.elements.len(),
            pairs_view(r@) == period_pairs(dv.take(ei as int)),
    {
        let e = &doc.elements[ei];
        proof {
            assert(dv[ei as int] == doc.elements@[ei as int]@);
            assert(dv.take(ei + 1).drop_last() =~= dv.take(ei as int));
            assert(dv.take(ei + 1).last() == dv[ei as int]);
        }
        if str_eq(e.node.name.as_str(), "context") {
            let id = get_attr_or_empty(&e.node.attrs, "id");
            let ps = periods_of_children(&e.children);
            let ghost pv = elem_periods(dv[ei as int].children);
            proof {
                assert(pairs_view(r@) =~= period_pairs(dv.take(ei as int)) + pair_up(
                    id@,
                    pv.take(0),
                ));
            }
            for k in 0..ps.len()
                invariant
                    pv == elem_periods(dv[ei as int].children),
                    ps@.map_values(|p: Period| p@) == pv,
                    pv.len() == ps.len(),
                    pairs_view(r@) == period_pairs(dv.take(ei as int)) + pair_up(
                        id@,
                        pv.take(k as int),
                    ),
            {
                let p = (
                    id.clone(),
                    Period {
                        period_type: ps[k].period_type.clone(),
                        period_value: ps[k].period_value.clone(),
                    },
                );
                proof {
                    assert(pv[k as int] == ps@[k as int]@);
                    assert(r@.push(p).map_values(|q: (String, Period)| (q.0@, q.1@)) =~= pairs_view(
                        r@,
                    ) + seq![(p.0@, p.1@)]);
                    assert(pair_up(id@, pv.take(k + 1)) =~= pair_up(id@, pv.take(k as int)) + seq![
                        (id@, pv[k as int]),
                    ]);
                }
                r.push(p);
            }
            proof {
                assert(pv.take(ps.len() as int) =~= pv);
                assert(pair_up(id@, pv) =~= period_pairs_of_elem(dv[ei as int]));
            }
        }
        proof {
            assert(pairs_view(r@) =~= period_pairs(dv.take(ei + 1)));
        }
    }
    proof {
        assert(dv.take(doc.elements.len() as int) =~= dv);
    }
    r
}

/// Builds the dimension index: for each `context` element, every
/// well-formed `explicitMember` descendant under an `entity` child becomes
/// one entry keyed by the id.
pub fn build_dimension_index(doc: &XmlDocument) -> (r: Vec<(String, Dimension)>)
    ensures
        pairs_view(r@) == dim_pairs(doc@),
{
    let ghost dv = doc@;
    let mut r: Vec<(String, Dimension)> = Vec::new();
    proof {
        assert(pairs_view(r@) =~= dim_pairs(dv.take(0)));
    }
    for ei in 0..doc.elements.len()
        invariant
            dv == doc@,
            dv.len() == doc.elements.len(),
            pairs_view(r@) == dim_pairs(dv.take(ei as int)),
    {
        let e = &doc.elements[ei];
        proof {
            assert(dv[ei as int] == doc.elements@[ei as int]@);
            assert(dv.take(ei + 1).drop_last() =~= dv.take(ei as int));
            assert(dv.take(ei + 1).last() == dv[ei as int]);
        }
        if str_eq(e.node.name.as_str(), "context") {
            let id = get_attr_or_empty(&e.node.attrs, "id");
            let ds = dims_of_children(&e.children);
            let ghost ddv = elem_dims(dv[ei as int].children);
            proof {
                assert(pairs_view(r@) =~= dim_pairs(dv.take(ei as int)) + pair_up(
                    id@,
                    ddv.take(0),
                ));
            }
            for k in 0..ds.len()
                invariant
                    ddv == elem_dims(dv[ei as int].children),
                    ds@.map_values(|d: Dimension| d@) == ddv,
                    ddv.len() == ds.len(),
                    pairs_view(r@) == dim_pairs(dv.take(ei as int)) + pair_up(
                        id@,
                        ddv.take(k as int),
                    ),
            {
                let p = (
                    id.clone(),
                    Dimension {
                        key_ns: ds[k].key_ns.clone(),
                        key_value: ds[k].key_value.clone(),
                        member_ns: ds[k].member_ns.clone(),
                        member_value: ds[k].member_value.clone(),
                    },
                );
                proof {
                    assert(ddv[k as int] == ds@[k as int]@);
                    assert(r@.push(p).map_values(|q: (String, Dimension)| (q.0@, q.1@))
                        =~= pairs_view(r@) + seq![(p.0@, p.1@)]);
                    assert(pair_up(id@, ddv.take(k + 1)) =~= pair_up(id@, ddv.take(k as int))
                        + seq![(id@, ddv[k as int])]);
                }
                r.push(p);
            }
            proof {
                assert(ddv.take(ds.len() as int) =~= ddv);
                assert(pair_up(id@, ddv) =~= dim_pairs_of_elem(dv[ei as int]));
            }
        }
        proof {
            assert(pairs_view(r@) =~= dim_pairs(dv.take(ei + 1)));
        }
    }
    proof {
        assert(dv.take(doc.elements.len() as int) =~= dv);
    }
    r
}

} // verus!
