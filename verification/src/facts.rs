//! The fact extractor: classifies top-level elements as reportable facts
//! and resolves their unit and context references against the indexes.

use vstd::prelude::*;

use crate::index::{
    build_dimension_index, build_period_index, build_unit_index, dim_pairs, pairs_view,
    period_pairs, unit_pairs, Dimension, Period, SpecDimension, SpecPeriod, SpecUnit, Unit,
};
use crate::text::{
    attr_of, attr_or_empty, clone_or_empty, get_attr, get_attr_or_empty, or_empty, sanitize_text,
    sanitized, str_eq,
};
use crate::xml::{parse_document, view_opt, xml_parse, SpecElement, SpecNode, XmlDocument};
use crate::XbrlError;

verus! {

/// One extracted fact, with its resolved dimension, unit and period lists
/// copied out of the indexes. Immutable once constructed.
#[derive(Debug, Clone, PartialEq, Eq)]
pub struct FactItem {
    pub id: String,
    pub prefix: String,
    pub name: String,
    pub value: String,
    pub decimals: String,
    pub context_ref: Option<String>,
    pub unit_ref: Option<String>,
    pub dimensions: Vec<Dimension>,
    pub units: Vec<Unit>,
    pub periods: Vec<Period>,
}

/// Mathematical image of `FactItem`.
pub ghost struct SpecFact {
    pub id: Seq<char>,
    pub prefix: Seq<char>,
    pub name: Seq<char>,
    pub value: Seq<char>,
    pub decimals: Seq<char>,
    pub context_ref: Option<Seq<char>>,
    pub unit_ref: Option<Seq<char>>,
    pub dimensions: Seq<SpecDimension>,
    pub units: Seq<SpecUnit>,
    pub periods: Seq<SpecPeriod>,
}

impl View for FactItem {
    type V = SpecFact;

    open spec fn view(&self) -> SpecFact {
        SpecFact {
            id: self.id@,
            prefix: self.prefix@,
            name: self.name@,
            value: self.value@,
            decimals: self.decimals@,
            context_ref: view_opt(self.context_ref),
            unit_ref: view_opt(self.unit_ref),
            dimensions: self.dimensions@.map_values(|d: Dimension| d@),
            units: self.units@.map_values(|u: Unit| u@),
            periods: self.periods@.map_values(|p: Period| p@),
        }
    }
}

/// The view of a fact list.
pub open spec fn facts_view(s: Seq<FactItem>) -> Seq<SpecFact> {
    s.map_values(|f: FactItem| f@)
}

/// Every entry of an index whose id matches the given reference, in order.
pub open spec fn assoc_all<T>(pairs: Seq<(Seq<char>, T)>, id: Seq<char>) -> Seq<T>
    decreases pairs.len(),
{
    if pairs.len() == 0 {
        Seq::empty()
    } else {
        assoc_all(pairs.drop_last(), id) + (if pairs.last().0 == id {
            seq![pairs.last().1]
        } else {
            Seq::empty()
        })
    }
}

/// Whether a top-level element is a reportable fact: namespace-qualified
/// and not one of the structural tags.
pub open spec fn is_fact_node(n: SpecNode) -> bool {
    &&& n.namespace is Some
    &&& n.name != "context"@
    &&& n.name != "unit"@
    &&& n.name != "xbrl"@
    &&& n.name != "schemaRef"@
}

/// The fact record of one qualifying element, resolved against the three
/// indexes. A reference that matches nothing yields empty lists; an absent
/// reference stays absent; neither is an error.
pub open spec fn fact_of(
    e: SpecElement,
    ups: Seq<(Seq<char>, SpecUnit)>,
    pps: Seq<(Seq<char>, SpecPeriod)>,
    dps: Seq<(Seq<char>, SpecDimension)>,
) -> SpecFact {
    SpecFact {
        id: attr_or_empty(e.node.attrs, "id"@),
        prefix: or_empty(e.node.prefix),
        name: e.node.name,
        value: sanitized(or_empty(e.node.text)),
        decimals: attr_or_empty(e.node.attrs, "decimals"@),
        context_ref: attr_of(e.node.attrs, "contextRef"@),
        unit_ref: attr_of(e.node.attrs, "unitRef"@),
        dimensions: match attr_of(e.node.attrs, "contextRef"@) {
            Some(c) => assoc_all(dps, c),
            None => Seq::empty(),
        },
        units: match attr_of(e.node.attrs, "unitRef"@) {
            Some(u) => assoc_all(ups, u),
            None => Seq::empty(),
        },
        periods: match attr_of(e.node.attrs, "contextRef"@) {
            Some(c) => assoc_all(pps, c),
            None => Seq::empty(),
        },
    }
}

/// The fact records of a document's elements against given indexes, in
/// document order.
pub open spec fn facts_of(
    elems: Seq<SpecElement>,
    ups: Seq<(Seq<char>, SpecUnit)>,
    pps: Seq<(Seq<char>, SpecPeriod)>,
    dps: Seq<(Seq<char>, SpecDimension)>,
) -> Seq<SpecFact>
    decreases elems.len(),
{
    if elems.len() == 0 {
        Seq::empty()
    } else {
        facts_of(elems.drop_last(), ups, pps, dps) + (if is_fact_node(elems.last().node) {
            seq![fact_of(elems.last(), ups, pps, dps)]
        } else {
            Seq::empty()
        })
    }
}

/// The fact records of a whole document: its elements resolved against the
/// indexes built from that same document.
pub open spec fn doc_facts(elems: Seq<SpecElement>) -> Seq<SpecFact> {
    facts_of(elems, unit_pairs(elems), period_pairs(elems), dim_pairs(elems))
}

/// Collects every unit entry whose id matches the reference, in order.
pub fn collect_units(pairs: &Vec<(String, Unit)>, id: &str) -> (r: Vec<Unit>)
    ensures
        r@.map_values(|u: Unit| u@) == assoc_all(pairs_view(pairs@), id@),
{
    let ghost pv = pairs_view(pairs@);
    let mut r: Vec<Unit> = Vec::new();
    proof {
        assert(r@.map_values(|u: Unit| u@) =~= assoc_all(pv.take(0), id@));
    }
    for i in 0..pairs.len()
        invariant
            pv == pairs_view(pairs@),
            pv.len() == pairs.len(),
            r@.map_values(|u: Unit| u@) == assoc_all(pv.take(i as int), id@),
    {
        proof {
            assert(pv[i as int] == (pairs@[i as int].0@, pairs@[i as int].1@));
            assert(pv.take(i + 1).drop_last() =~= pv.take(i as int));
            assert(pv.take(i + 1).last() == pv[i as int]);
        }
        if str_eq(pairs[i].0.as_str(), id) {
            let u = Unit {
                unit_type: pairs[i].1.unit_type.clone(),
                unit_value: pairs[i].1.unit_value.clone(),
            };
            proof {
                assert(r@.push(u).map_values(|x: Unit| x@) =~= r@.map_values(|x: Unit| x@) + seq![
                    u@,
                ]);
            }
            r.push(u);
        }
        proof {
            assert(r@.map_values(|u: Unit| u@) =~= assoc_all(pv.take(i + 1), id@));
        }
    }
    proof {
        assert(pv.take(pairs.len() as int) =~= pv);
    }
    r
}

/// Collects every period entry whose id matches the reference, in order.
pub fn collect_periods(pairs: &Vec<(String, Period)>, id: &str) -> (r: Vec<Period>)
    ensures
        r@.map_values(|p: Period| p@) == assoc_all(pairs_view(pairs@), id@),
{
    let ghost pv = pairs_view(pairs@);
    let mut r: Vec<Period> = Vec::new();
    proof {
        assert(r@.map_values(|p: Period| p@) =~= assoc_all(pv.take(0), id@));
    }
    for i in 0..pairs.len()
        invariant
            pv == pairs_view(pairs@),
            pv.len() == pairs.len(),
            r@.map_values(|p: Period| p@) == assoc_all(pv.take(i as int), id@),
    {
        proof {
            assert(pv[i as int] == (pairs@[i as int].0@, pairs@[i as int].1@));
            assert(pv.take(i + 1).drop_last() =~= pv.take(i as int));
            assert(pv.take(i + 1).last() == pv[i as int]);
        }
        if str_eq(pairs[i].0.as_str(), id) {
            let p = Period {
                period_type: pairs[i].1.period_type.clone(),
                period_value: pairs[i].1.period_value.clone(),
            };
            proof {
                assert(r@.push(p).map_values(|x: Period| x@) =~= r@.map_values(|x: Period| x@)
                    + seq![p@]);
            }
            r.push(p);
        }
        proof {
            assert(r@.map_values(|p: Period| p@) =~= assoc_all(pv.take(i + 1), id@));
        }
    }
    proof {
        assert(pv.take(pairs.len() as int) =~= pv);
    }
    r
}

/// Collects every dimension entry whose id matches the reference, in order.
pub fn collect_dims(pairs: &Vec<(String, Dimension)>, id: &str) -> (r: Vec<Dimension>)
    ensures
        r@.map_values(|d: Dimension| d@) == assoc_all(pairs_view(pairs@), id@),
{
    let ghost pv = pairs_view(pairs@);
    let mut r: Vec<Dimension> = Vec::new();
    proof {
        assert(r@.map_values(|d: Dimension| d@) =~= assoc_all(pv.take(0), id@));
    }
    for i in 0..pairs.len()
        invariant
            pv == pairs_view(pairs@),
            pv.len() == pairs.len(),
            r@.map_values(|d: Dimension| d@) == assoc_all(pv.take(i as int), id@),
    {
        proof {
            assert(pv[i as int] == (pairs@[i as int].0@, pairs@[i as int].1@));
            assert(pv.take(i + 1).drop_last() =~= pv.take(i as int));
            assert(pv.take(i + 1).last() == pv[i as int]);
        }
        if str_eq(pairs[i].0.as_str(), id) {
            let d = Dimension {
                key_ns: pairs[i].1.key_ns.clone(),
                key_value: pairs[i].1.key_value.clone(),
                member_ns: pairs[i].1.member_ns.clone(),
                member_value: pairs[i].1.member_value.clone(),
            };
            proof {
                assert(r@.push(d).map_values(|x: Dimension| x@) =~= r@.map_values(
                    |x: Dimension| x@,
                ) + seq![d@]);
            }
            r.push(d);
        }
        proof {
            assert(r@.map_values(|d: Dimension| d@) =~= assoc_all(pv.take(i + 1), id@));
        }
    }
    proof {
        assert(pv.take(pairs.len() as int) =~= pv);
    }
    r
}

/// Walks the document's top-level elements in order, classifies each as a
/// fact or not, and resolves each fact against the given indexes.
pub fn extract_facts(
    doc: &XmlDocument,
    units: &Vec<(String, Unit)>,
    periods: &Vec<(String, Period)>,
    dims: &Vec<(String, Dimension)>,
) -> (r: Vec<FactItem>)
    ensures
        facts_view(r@) == facts_of(
            doc@,
            pairs_view(units@),
            pairs_view(periods@),
            pairs_view(dims@),
        ),
{
    let ghost dv = doc@;
    let ghost ups = pairs_view(units@);
    let ghost pps = pairs_view(periods@);
    let ghost dps = pairs_view(dims@);
    let mut r: Vec<FactItem> = Vec::new();
    proof {
        assert(facts_view(r@) =~= facts_of(dv.take(0), ups, pps, dps));
    }
    for ei in 0..doc.elements.len()
        invariant
            dv == doc@,
            dv.len() == doc.elements.len(),
            ups == pairs_view(units@),
            pps == pairs_view(periods@),
            dps == pairs_view(dims@),
            facts_view(r@) == facts_of(dv.take(ei as int), ups, pps, dps),
    {
        let e = &doc.elements[ei];
        proof {
            assert(dv[ei as int] == doc.elements@[ei as int]@);
            assert(dv.take(ei + 1).drop_last() =~= dv.take(ei as int));
            assert(dv.take(ei + 1).last() == dv[ei as int]);
        }
        let name = e.node.name.as_str();
        let qualifies = e.node.namespace.is_some() && !str_eq(name, "context") && !str_eq(
            name,
            "unit",
        ) && !str_eq(name, "xbrl") && !str_eq(name, "schemaRef");
        if qualifies {
            let context_ref = get_attr(&e.node.attrs, "contextRef");
            let unit_ref = get_attr(&e.node.attrs, "unitRef");
            let text = clone_or_empty(&e.node.text);
            let fact_units = match &unit_ref {
                Some(u) => collect_units(units, u.as_str()),
                None => Vec::new(),
            };
            let fact_periods = match &context_ref {
                Some(c) => collect_periods(periods, c.as_str()),
                None => Vec::new(),
            };
            let fact_dims = match &context_ref {
                Some(c) => collect_dims(dims, c.as_str()),
                None => Vec::new(),
            };
            let fact = FactItem {
                id: get_attr_or_empty(&e.node.attrs, "id"),
                prefix: clone_or_empty(&e.node.prefix),
                name: e.node.name.clone(),
                value: sanitize_text(text.as_str()),
                decimals: get_attr_or_empty(&e.node.attrs, "decimals"),
                context_ref,
                unit_ref,
                dimensions: fact_dims,
                units: fact_units,
                periods: fact_periods,
            };
            proof {
                let sf = fact_of(dv[ei as int], ups, pps, dps);
                assert(fact@.dimensions =~= sf.dimensions);
                assert(fact@.units =~= sf.units);
                assert(fact@.periods =~= sf.periods);
                assert(fact@ == sf);
                assert(r@.push(fact).map_values(|x: FactItem| x@) =~= facts_view(r@) + seq![fact@]);
            }
            r.push(fact);
        }
        proof {
            assert(facts_view(r@) =~= facts_of(dv.take(ei + 1), ups, pps, dps));
        }
    }
    proof {
        assert(dv.take(doc.elements.len() as int) =~= dv);
    }
    r
}

/// Parses an XBRL instance document and extracts its fact records: builds
/// the unit and context indexes first, then resolves every qualifying
/// top-level element against them, in document order. The one fatal
/// condition is a document that does not parse; everything else defaults
/// or is skipped, never fails.
pub fn parse_xml_to_facts(raw_xml: String) -> (r: Result<Vec<FactItem>, XbrlError>)
    ensures
        match r {
            Ok(facts) => xml_parse(raw_xml@) matches Some(elems) && facts_view(facts@)
                == doc_facts(elems),
            Err(e) => xml_parse(raw_xml@) is None && e == XbrlError::DocumentParse,
        },
{
    let doc = match parse_document(raw_xml.as_str()) {
        Ok(d) => d,
        Err(e) => {
            return Err(e);
        },
    };
    let units = build_unit_index(&doc);
    let periods = build_period_index(&doc);
    let dims = build_dimension_index(&doc);
    Ok(extract_facts(&doc, &units, &periods, &dims))
}

} // verus!
