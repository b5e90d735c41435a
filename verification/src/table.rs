//! The table projection: flattens each fact record into one row with
//! scalar columns, and the normalized dimensional export with one row per
//! fact and dimension pair.

use vstd::prelude::*;
use vstd::string::StringExecFns;

use crate::facts::{doc_facts, facts_of, facts_view, is_fact_node, FactItem, SpecFact};
use crate::index::{SpecDimension, SpecPeriod, SpecUnit, Period, Unit};
use crate::text::{clone_opt, or_empty, str_eq};
use crate::xml::{view_opt, xml_parse, SpecElement};
use crate::XbrlError;

verus! {

/// Document identity metadata supplied by the caller, attached to every
/// projected row.
#[derive(Debug, Clone, PartialEq, Eq)]
pub struct InputDetails {
    pub cik: Option<String>,
    pub accession_number: Option<String>,
    pub xml_name: String,
}

/// Mathematical image of `InputDetails`.
pub ghost struct SpecDetails {
    pub cik: Option<Seq<char>>,
    pub accession_number: Option<Seq<char>>,
    pub xml_name: Seq<char>,
}

impl View for InputDetails {
    type V = SpecDetails;

    open spec fn view(&self) -> SpecDetails {
        SpecDetails {
            cik: view_opt(self.cik),
            accession_number: view_opt(self.accession_number),
            xml_name: self.xml_name@,
        }
    }
}

/// One flattened fact row. Dimensions survive only as a count here; their
/// detail belongs to the dimensional export.
#[derive(Debug, Clone, PartialEq, Eq)]
pub struct FactTableRow {
    pub cik: Option<String>,
    pub accession_number: Option<String>,
    pub xml_name: String,
    pub context_ref: Option<String>,
    pub tag: String,
    pub value: String,
    pub prefix: String,
    pub period_start: Option<String>,
    pub period_end: Option<String>,
    pub point_in_time: Option<String>,
    pub unit: Option<String>,
    pub num_dim: u32,
}

/// Mathematical image of `FactTableRow`.
pub ghost struct SpecRow {
    pub cik: Option<Seq<char>>,
    pub accession_number: Option<Seq<char>>,
    pub xml_name: Seq<char>,
    pub context_ref: Option<Seq<char>>,
    pub tag: Seq<char>,
    pub value: Seq<char>,
    pub prefix: Seq<char>,
    pub period_start: Option<Seq<char>>,
    pub period_end: Option<Seq<char>>,
    pub point_in_time: Option<Seq<char>>,
    pub unit: Option<Seq<char>>,
    pub num_dim: u32,
}

impl View for FactTableRow {
    type V = SpecRow;

    open spec fn view(&self) -> SpecRow {
        SpecRow {
            cik: view_opt(self.cik),
            accession_number: view_opt(self.accession_number),
            xml_name: self.xml_name@,
            context_ref: view_opt(self.context_ref),
            tag: self.tag@,
            value: self.value@,
            prefix: self.prefix@,
            period_start: view_opt(self.period_start),
            period_end: view_opt(self.period_end),
            point_in_time: view_opt(self.point_in_time),
            unit: view_opt(self.unit),
            num_dim: self.num_dim,
        }
    }
}

/// The view of a row list.
pub open spec fn rows_view(s: Seq<FactTableRow>) -> Seq<SpecRow> {
    s.map_values(|r: FactTableRow| r@)
}

/// One row of the normalized dimensional export: one per fact and
/// dimension pair.
#[derive(Debug, Clone, PartialEq, Eq)]
pub struct DimensionTableRow {
    pub cik: Option<String>,
    pub accession_number: Option<String>,
    pub xml_name: String,
    pub context_ref: String,
    pub axis_prefix: String,
    pub axis_tag: String,
    pub member_prefix: String,
    pub member_tag: String,
}

/// Mathematical image of `DimensionTableRow`.
pub ghost struct SpecDimRow {
    pub cik: Option<Seq<char>>,
    pub accession_number: Option<Seq<char>>,
    pub xml_name: Seq<char>,
    pub context_ref: Seq<char>,
    pub axis_prefix: Seq<char>,
    pub axis_tag: Seq<char>,
    pub member_prefix: Seq<char>,
    pub member_tag: Seq<char>,
}

impl View for DimensionTableRow {
    type V = SpecDimRow;

    open spec fn view(&self) -> SpecDimRow {
        SpecDimRow {
            cik: view_opt(self.cik),
            accession_number: view_opt(self.accession_number),
            xml_name: self.xml_name@,
            context_ref: self.context_ref@,
            axis_prefix: self.axis_prefix@,
            axis_tag: self.axis_tag@,
            member_prefix: self.member_prefix@,
            member_tag: self.member_tag@,
        }
    }
}

/// The view of a dimension-row list.
pub open spec fn dim_rows_view(s: Seq<DimensionTableRow>) -> Seq<SpecDimRow> {
    s.map_values(|r: DimensionTableRow| r@)
}

impl DimensionTableRow {
    /// An empty row: identity fields absent, every name empty.
    pub fn default() -> (r: DimensionTableRow)
        ensures
            r@ == (SpecDimRow {
                cik: None,
                accession_number: None,
                xml_name: Seq::empty(),
                context_ref: Seq::empty(),
                axis_prefix: Seq::empty(),
                axis_tag: Seq::empty(),
                member_prefix: Seq::empty(),
                member_tag: Seq::empty(),
            }),
    {
        DimensionTableRow {
            cik: None,
            accession_number: None,
            xml_name: String::new(),
            context_ref: String::new(),
            axis_prefix: String::new(),
            axis_tag: String::new(),
            member_prefix: String::new(),
            member_tag: String::new(),
        }
    }
}

/// The value of the first period entry of the given kind, if any: with
/// duplicate kinds, the first in list order wins.
pub open spec fn first_period(ps: Seq<SpecPeriod>, kind: Seq<char>) -> Option<Seq<char>>
    decreases ps.len(),
{
    if ps.len() == 0 {
        None
    } else {
        match first_period(ps.drop_last(), kind) {
            Some(v) => Some(v),
            None => if ps.last().period_type == kind {
                Some(ps.last().period_value)
            } else {
                None
            },
        }
    }
}

/// One unit entry rendered for the joined unit column.
pub open spec fn unit_render(u: SpecUnit) -> Seq<char> {
    u.unit_type + ":"@ + u.unit_value
}

/// Every unit entry rendered and joined with the fixed separator.
pub open spec fn units_joined(us: Seq<SpecUnit>) -> Seq<char>
    decreases us.len(),
{
    if us.len() == 0 {
        Seq::empty()
    } else if us.len() == 1 {
        unit_render(us[0])
    } else {
        units_joined(us.drop_last()) + " || "@ + unit_render(us.last())
    }
}

/// The flattened row of one fact.
pub open spec fn row_of(f: SpecFact, d: SpecDetails) -> SpecRow {
    SpecRow {
        cik: d.cik,
        accession_number: d.accession_number,
        xml_name: d.xml_name,
        context_ref: f.context_ref,
        tag: f.name,
        value: f.value,
        prefix: f.prefix,
        period_start: first_period(f.periods, "startDate"@),
        period_end: first_period(f.periods, "endDate"@),
        point_in_time: first_period(f.periods, "instant"@),
        unit: if f.units.len() > 0 {
            Some(units_joined(f.units))
        } else {
            None
        },
        num_dim: f.dimensions.len() as u32,
    }
}

/// The rows of a fact list, in order: one row per fact.
pub open spec fn rows_of(facts: Seq<SpecFact>, d: SpecDetails) -> Seq<SpecRow> {
    facts.map_values(|f: SpecFact| row_of(f, d))
}

/// The dimension rows of one fact: one per dimension entry, in order.
pub open spec fn dim_rows_of_fact(f: SpecFact, d: SpecDetails) -> Seq<SpecDimRow> {
    f.dimensions.map_values(
        |dim: SpecDimension| SpecDimRow {
            cik: d.cik,
            accession_number: d.accession_number,
            xml_name: d.xml_name,
            context_ref: or_empty(f.context_ref),
            axis_prefix: dim.key_ns,
            axis_tag: dim.key_value,
            member_prefix: dim.member_ns,
            member_tag: dim.member_value,
        },
    )
}

/// The dimension rows of a fact list, in order.
pub open spec fn dim_rows_of(facts: Seq<SpecFact>, d: SpecDetails) -> Seq<SpecDimRow>
    decreases facts.len(),
{
    if facts.len() == 0 {
        Seq::empty()
    } else {
        dim_rows_of(facts.drop_last(), d) + dim_rows_of_fact(facts.last(), d)
    }
}

/// Finds the first period entry of the given kind.
fn first_period_of(periods: &Vec<Period>, kind: &str) -> (r: Option<String>)
    ensures
        view_opt(r) == first_period(periods@.map_values(|p: Period| p@), kind@),
{
    let ghost pv = periods@.map_values(|p: Period| p@);
    let mut r: Option<String> = None;
    proof {
        assert(pv.take(0) =~= Seq::<SpecPeriod>::empty());
    }
    for i in 0..periods.len()
        invariant
            pv == periods@.map_values(|p: Period| p@),
            pv.len() == periods.len(),
            view_opt(r) == first_period(pv.take(i as int), kind@),
    {
        proof {
            assert(pv[i as int] == periods@[i as int]@);
            assert(pv.take(i + 1).drop_last() =~= pv.take(i as int));
            assert(pv.take(i + 1).last() == pv[i as int]);
        }
        if r.is_none() && str_eq(periods[i].period_type.as_str(), kind) {
            r = Some(periods[i].period_value.clone());
        }
    }
    proof {
        assert(pv.take(periods.len() as int) =~= pv);
    }
    r
}

/// Renders and joins every unit entry with the fixed separator.
fn join_units(units: &Vec<Unit>) -> (r: String)
    ensures
        r@ == units_joined(units@.map_values(|u: Unit| u@)),
{
    let ghost uv = units@.map_values(|u: Unit| u@);
    let mut s = String::new();
    proof {
        assert(uv.take(0) =~= Seq::<SpecUnit>::empty());
        assert(s@ =~= units_joined(uv.take(0)));
    }
    for i in 0..units.len()
        invariant
            uv == units@.map_values(|u: Unit| u@),
            uv.len() == units.len(),
            s@ == units_joined(uv.take(i as int)),
    {
        proof {
            assert(uv[i as int] == units@[i as int]@);
            assert(uv.take(i + 1).drop_last() =~= uv.take(i as int));
            assert(uv.take(i + 1).last() == uv[i as int]);
        }
        if i > 0 {
            s.append(" || ");
        }
        s.append(units[i].unit_type.as_str());
        s.append(":");
        s.append(units[i].unit_value.as_str());
        proof {
            assert(s@ =~= units_joined(uv.take(i + 1)));
        }
    }
    proof {
        assert(uv.take(units.len() as int) =~= uv);
    }
    s
}

/// Flattens each fact record into one row, in order: the identity fields
/// come from the caller-supplied details, the period list splits into its
/// three column slots with the first entry of each kind winning, and a
/// non-empty unit list is joined into one delimited string column.
pub fn facts_to_table(facts: Vec<FactItem>, input_details: InputDetails) -> (r: Vec<FactTableRow>)
    ensures
        rows_view(r@) == rows_of(facts_view(facts@), input_details@),
{
    let ghost fv = facts_view(facts@);
    let ghost dd = input_details@;
    let mut r: Vec<FactTableRow> = Vec::new();
    proof {
        assert(rows_view(r@) =~= rows_of(fv.take(0), dd));
    }
    for i in 0..facts.len()
        invariant
            fv == facts_view(facts@),
            fv.len() == facts.len(),
            dd == input_details@,
            rows_view(r@) == rows_of(fv.take(i as int), dd),
    {
        let fact = &facts[i];
        proof {
            assert(fv[i as int] == facts@[i as int]@);
        }
        let unit_col = if fact.units.len() > 0 {
            Some(join_units(&fact.units))
        } else {
            None
        };
        let row = FactTableRow {
            cik: clone_opt(&input_details.cik),
            accession_number: clone_opt(&input_details.accession_number),
            xml_name: input_details.xml_name.clone(),
            context_ref: clone_opt(&fact.context_ref),
            tag: fact.name.clone(),
            value: fact.value.clone(),
            prefix: fact.prefix.clone(),
            period_start: first_period_of(&fact.periods, "startDate"),
            period_end: first_period_of(&fact.periods, "endDate"),
            point_in_time: first_period_of(&fact.periods, "instant"),
            unit: unit_col,
            num_dim: #[verifier::truncate] (fact.dimensions.len() as u32),
        };
        proof {
            assert(row@ == row_of(fv[i as int], dd));
            assert(r@.push(row).map_values(|x: FactTableRow| x@) =~= rows_view(r@) + seq![row@]);
            assert(rows_of(fv.take(i + 1), dd) =~= rows_of(fv.take(i as int), dd) + seq![
                row_of(fv[i as int], dd),
            ]);
        }
        r.push(row);
    }
    proof {
        assert(fv.take(facts.len() as int) =~= fv);
    }
    r
}

/// Emits the normalized dimensional export: one row per fact and dimension
/// pair, in order, carrying the identity fields and the fact's context
/// reference with the empty-string default.
pub fn facts_to_dimension_table(facts: &Vec<FactItem>, input_details: &InputDetails) -> (r: Vec<
    DimensionTableRow,
>)
    ensures
        dim_rows_view(r@) == dim_rows_of(facts_view(facts@), input_details@),
{
    let ghost fv = facts_view(facts@);
    let ghost dd = input_details@;
    let mut r: Vec<DimensionTableRow> = Vec::new();
    proof {
        assert(dim_rows_view(r@) =~= dim_rows_of(fv.take(0), dd));
    }
    for i in 0..facts.len()
        invariant
            fv == facts_view(facts@),
            fv.len() == facts.len(),
            dd == input_details@,
            dim_rows_view(r@) == dim_rows_of(fv.take(i as int), dd),
    {
        let fact = &facts[i];
        let ghost dimv = fv[i as int].dimensions;
        proof {
            assert(fv[i as int] == facts@[i as int]@);
            assert(dimv.take(0) =~= Seq::<SpecDimension>::empty());
            assert(dim_rows_view(r@) =~= dim_rows_of(fv.take(i as int), dd) + dim_rows_of_fact(
                fv[i as int],
                dd,
            ).take(0));
        }
        for k in 0..fact.dimensions.len()
            invariant
                fv == facts_view(facts@),
                fv.len() == facts.len(),
                i < facts.len(),
                dd == input_details@,
                fact == facts[i as int],
                dimv == fv[i as int].dimensions,
                dimv.len() == fact.dimensions.len(),
                dim_rows_view(r@) == dim_rows_of(fv.take(i as int), dd) + dim_rows_of_fact(
                    fv[i as int],
                    dd,
                ).take(k as int),
        {
            let dim = &fact.dimensions[k];
            let row = DimensionTableRow {
                cik: clone_opt(&input_details.cik),
                accession_number: clone_opt(&input_details.accession_number),
                xml_name: input_details.xml_name.clone(),
                context_ref: match &fact.context_ref {
                    Some(c) => c.clone(),
                    None => String::new(),
                },
                axis_prefix: dim.key_ns.clone(),
                axis_tag: dim.key_value.clone(),
                member_prefix: dim.member_ns.clone(),
                member_tag: dim.member_value.clone(),
            };
            proof {
                assert(dimv[k as int] == fact.dimensions@[k as int]@);
                assert(row@ == dim_rows_of_fact(fv[i as int], dd)[k as int]);
                assert(r@.push(row).map_values(|x: DimensionTableRow| x@) =~= dim_rows_view(r@)
                    + seq![row@]);
                assert(dim_rows_of_fact(fv[i as int], dd).take(k + 1) =~= dim_rows_of_fact(
                    fv[i as int],
                    dd,
                ).take(k as int) + seq![dim_rows_of_fact(fv[i as int], dd)[k as int]]);
            }
            r.push(row);
        }
        proof {
            assert(dim_rows_of_fact(fv[i as int], dd).take(fact.dimensions.len() as int)
                =~= dim_rows_of_fact(fv[i as int], dd));
            assert(fv.take(i + 1).drop_last() =~= fv.take(i as int));
            assert(fv.take(i + 1).last() == fv[i as int]);
            assert(dim_rows_view(r@) =~= dim_rows_of(fv.take(i + 1), dd));
        }
    }
    proof {
        assert(fv.take(facts.len() as int) =~= fv);
    }
    r
}

/// What the whole operation makes of a document text: the projected rows
/// of a well-formed document, or nothing for a malformed one.
pub open spec fn pipeline_rows(s: Seq<char>, d: SpecDetails) -> Option<Seq<SpecRow>> {
    match xml_parse(s) {
        Some(elems) => Some(rows_of(doc_facts(elems), d)),
        None => None,
    }
}

/// Runs the whole pipeline: parse, index, extract, project. A caller
/// receives either the complete row sequence or the single fatal
/// document-parse error, never partial output.
pub fn extract_fact_table(raw_xml: String, input_details: InputDetails) -> (r: Result<
    Vec<FactTableRow>,
    XbrlError,
>)
    ensures
        match r {
            Ok(rows) => pipeline_rows(raw_xml@, input_details@) == Some(rows_view(rows@)),
            Err(e) => pipeline_rows(raw_xml@, input_details@) is None && e
                == XbrlError::DocumentParse,
        },
{
    let facts = match crate::facts::parse_xml_to_facts(raw_xml) {
        Ok(facts) => facts,
        Err(e) => {
            return Err(e);
        },
    };
    Ok(facts_to_table(facts, input_details))
}

/// How many of a document's top-level elements qualify as facts.
pub open spec fn count_fact_nodes(elems: Seq<SpecElement>) -> nat
    decreases elems.len(),
{
    if elems.len() == 0 {
        0
    } else {
        count_fact_nodes(elems.drop_last()) + (if is_fact_node(elems.last().node) {
            1nat
        } else {
            0nat
        })
    }
}

/// Extraction yields exactly one fact per qualifying element.
proof fn lemma_facts_len(
    elems: Seq<SpecElement>,
    ups: Seq<(Seq<char>, SpecUnit)>,
    pps: Seq<(Seq<char>, SpecPeriod)>,
    dps: Seq<(Seq<char>, SpecDimension)>,
)
    ensures
        facts_of(elems, ups, pps, dps).len() == count_fact_nodes(elems),
    decreases elems.len(),
{
    if elems.len() > 0 {
        lemma_facts_len(elems.drop_last(), ups, pps, dps);
    }
}

/// Law: for every well-formed document, the projection emits exactly one
/// row per qualifying fact element, in document order — the row at each
/// position is the projection of the fact at that position.
pub proof fn lemma_row_per_fact(elems: Seq<SpecElement>, d: SpecDetails)
    ensures
        rows_of(doc_facts(elems), d).len() == count_fact_nodes(elems),
        forall|i: int|
            0 <= i < count_fact_nodes(elems) ==> rows_of(doc_facts(elems), d)[i] == row_of(
                doc_facts(elems)[i],
                d,
            ),
{
    lemma_facts_len(
        elems,
        crate::index::unit_pairs(elems),
        crate::index::period_pairs(elems),
        crate::index::dim_pairs(elems),
    );
}

/// Law: extraction is a function of the document text and the supplied
/// identity alone, so re-running it on the same input yields the same row
/// sequence.
pub proof fn lemma_extraction_deterministic(
    s: Seq<char>,
    d: SpecDetails,
    r1: Seq<SpecRow>,
    r2: Seq<SpecRow>,
)
    requires
        pipeline_rows(s, d) == Some(r1),
        pipeline_rows(s, d) == Some(r2),
    ensures
        r1 == r2,
{
}

} // verus!
