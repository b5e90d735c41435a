use xbrl_facts::facts::parse_xml_to_facts;
use xbrl_facts::table::{extract_fact_table, facts_to_dimension_table, facts_to_table, InputDetails};
use xbrl_facts::XbrlError;

fn details() -> InputDetails {
    InputDetails {
        cik: Some("0000123".to_string()),
        accession_number: Some("acc-1".to_string()),
        xml_name: "filing.xml".to_string(),
    }
}

fn sample_doc() -> String {
    "<xbrl xmlns=\"http://www.xbrl.org/2003/instance\" xmlns:us-gaap=\"http://fasb.org/us-gaap/2023\" xmlns:iso4217=\"http://www.xbrl.org/2003/iso4217\">\
         <context id=\"c1\"><entity>\
         <identifier scheme=\"http://www.sec.gov/CIK\">0000123</identifier>\
         <segment><explicitMember dimension=\"ns1:AxisA\">\
         ns2:MemberB</explicitMember></segment></entity><period><startDate>\
         2023-01-01</startDate><endDate>2023-12-31</endDate></period>\
         </context><context id=\"c2\"><entity><identifier scheme=\"s\">\
         x</identifier></entity><period><instant>2023-12-31</instant>\
         </period></context><unit id=\"u1\"><divide><unitNumerator><measure>\
         iso4217:USD</measure></unitNumerator><unitDenominator><measure>\
         shares</measure></unitDenominator></divide></unit><unit id=\"u2\">\
         <measure>pure</measure></unit><schemaRef href=\"x\"/>\
         <us-gaap:Revenues contextRef=\"c1\" unitRef=\"u1\" decimals=\"-6\" id=\"f1\">\
         100</us-gaap:Revenues>\
         <us-gaap:Shares contextRef=\"c2\" unitRef=\"u2\">5</us-gaap:Shares>\
         <us-gaap:Note contextRef=\"c2\">hello</us-gaap:Note></xbrl>"
    .to_string()
}

#[test]
fn row_per_qualifying_fact() {
    let rows = extract_fact_table(sample_doc(), details()).unwrap();
    // context, unit and schemaRef elements are structural; the three
    // us-gaap elements are the qualifying facts, in document order.
    assert_eq!(rows.len(), 3);
    assert_eq!(rows[0].tag, "Revenues");
    assert_eq!(rows[1].tag, "Shares");
    assert_eq!(rows[2].tag, "Note");
}

#[test]
fn fact_fields_resolved() {
    let facts = parse_xml_to_facts(sample_doc()).unwrap();
    assert_eq!(facts.len(), 3);
    let f = &facts[0];
    assert_eq!(f.id, "f1");
    assert_eq!(f.name, "Revenues");
    assert_eq!(f.prefix, "us-gaap");
    assert_eq!(f.decimals, "-6");
    assert_eq!(f.value, "100");
    assert_eq!(f.context_ref.as_deref(), Some("c1"));
    assert_eq!(f.unit_ref.as_deref(), Some("u1"));
    assert_eq!(f.units.len(), 2);
    assert_eq!(f.periods.len(), 2);
    assert_eq!(f.dimensions.len(), 1);
}

#[test]
fn compound_unit_kinds_from_parent_tags() {
    let facts = parse_xml_to_facts(sample_doc()).unwrap();
    let f = &facts[0];
    assert_eq!(f.units[0].unit_type, "unitNumerator");
    assert_eq!(f.units[0].unit_value, "iso4217:USD");
    assert_eq!(f.units[1].unit_type, "unitDenominator");
    assert_eq!(f.units[1].unit_value, "shares");
}

#[test]
fn unit_column_joined() {
    let rows = extract_fact_table(sample_doc(), details()).unwrap();
    assert_eq!(
        rows[0].unit.as_deref(),
        Some("unitNumerator:iso4217:USD || unitDenominator:shares")
    );
    // A simple unit's measure sits directly under the `unit` element, so
    // its kind is that parent tag.
    assert_eq!(rows[1].unit.as_deref(), Some("unit:pure"));
}

#[test]
fn duration_period_splits_into_columns() {
    let rows = extract_fact_table(sample_doc(), details()).unwrap();
    let r = &rows[0];
    assert_eq!(r.period_start.as_deref(), Some("2023-01-01"));
    assert_eq!(r.period_end.as_deref(), Some("2023-12-31"));
    assert_eq!(r.point_in_time, None);
}

#[test]
fn instant_period_fills_point_in_time() {
    let rows = extract_fact_table(sample_doc(), details()).unwrap();
    let r = &rows[1];
    assert_eq!(r.period_start, None);
    assert_eq!(r.period_end, None);
    assert_eq!(r.point_in_time.as_deref(), Some("2023-12-31"));
}

#[test]
fn explicit_member_splits_into_dimension() {
    let facts = parse_xml_to_facts(sample_doc()).unwrap();
    let d = &facts[0].dimensions[0];
    assert_eq!(d.key_ns, "ns1");
    assert_eq!(d.key_value, "AxisA");
    assert_eq!(d.member_ns, "ns2");
    assert_eq!(d.member_value, "MemberB");
}

#[test]
fn dimension_rows_one_per_pair() {
    let facts = parse_xml_to_facts(sample_doc()).unwrap();
    let rows = facts_to_dimension_table(&facts, &details());
    assert_eq!(rows.len(), 1);
    let r = &rows[0];
    assert_eq!(r.cik.as_deref(), Some("0000123"));
    assert_eq!(r.accession_number.as_deref(), Some("acc-1"));
    assert_eq!(r.xml_name, "filing.xml");
    assert_eq!(r.context_ref, "c1");
    assert_eq!(r.axis_prefix, "ns1");
    assert_eq!(r.axis_tag, "AxisA");
    assert_eq!(r.member_prefix, "ns2");
    assert_eq!(r.member_tag, "MemberB");
}

#[test]
fn identity_fields_attached_to_every_row() {
    let rows = extract_fact_table(sample_doc(), details()).unwrap();
    for r in &rows {
        assert_eq!(r.cik.as_deref(), Some("0000123"));
        assert_eq!(r.accession_number.as_deref(), Some("acc-1"));
        assert_eq!(r.xml_name, "filing.xml");
    }
}

#[test]
fn dangling_unit_ref_leaves_unit_absent() {
    let doc = "<xbrl xmlns=\"http://a\" xmlns:p=\"http://b\">\
         <p:Fact contextRef=\"c9\" unitRef=\"nosuch\">7</p:Fact></xbrl>"
    .to_string();
    let rows = extract_fact_table(doc, details()).unwrap();
    assert_eq!(rows.len(), 1);
    assert_eq!(rows[0].unit, None);
    assert_eq!(rows[0].period_start, None);
    assert_eq!(rows[0].num_dim, 0);
    assert_eq!(rows[0].context_ref.as_deref(), Some("c9"));
}

#[test]
fn fact_without_references_is_legitimate() {
    let doc = "<xbrl xmlns:p=\"http://b\"><p:Standalone>text only</p:Standalone>\
         </xbrl>"
    .to_string();
    let facts = parse_xml_to_facts(doc).unwrap();
    assert_eq!(facts.len(), 1);
    assert_eq!(facts[0].context_ref, None);
    assert_eq!(facts[0].unit_ref, None);
    assert_eq!(facts[0].units.len(), 0);
    assert_eq!(facts[0].value, "text only");
}

#[test]
fn units_sharing_an_id_accumulate() {
    let doc = "<xbrl xmlns:p=\"http://b\"><unit id=\"u\"><measure>a</measure>\
         </unit><unit id=\"u\"><measure>b</measure></unit>\
         <p:Fact unitRef=\"u\">1</p:Fact></xbrl>"
    .to_string();
    let facts = parse_xml_to_facts(doc).unwrap();
    assert_eq!(facts[0].units.len(), 2);
    assert_eq!(facts[0].units[0].unit_value, "a");
    assert_eq!(facts[0].units[1].unit_value, "b");
}

#[test]
fn malformed_qualified_name_is_skipped_not_fatal() {
    let doc = "<xbrl xmlns:p=\"http://b\"><context id=\"c\"><entity><segment>\
         <explicitMember dimension=\"noColonHere\">ns:Member</explicitMember>\
         <explicitMember dimension=\"ns1:Axis\">ns2:Member</explicitMember>\
         </segment></entity></context><p:Fact contextRef=\"c\">1</p:Fact>\
         </xbrl>"
    .to_string();
    let facts = parse_xml_to_facts(doc).unwrap();
    assert_eq!(facts.len(), 1);
    assert_eq!(facts[0].dimensions.len(), 1);
    assert_eq!(facts[0].dimensions[0].key_value, "Axis");
}

#[test]
fn duplicate_period_kinds_first_wins() {
    let doc = "<xbrl xmlns:p=\"http://b\"><context id=\"c\"><period>\
         <startDate>2020-01-01</startDate><startDate>2021-01-01</startDate>\
         </period></context><p:Fact contextRef=\"c\">1</p:Fact></xbrl>"
        .to_string();
    let rows = extract_fact_table(doc, details()).unwrap();
    assert_eq!(rows[0].period_start.as_deref(), Some("2020-01-01"));
}

#[test]
fn sanitizer_strips_markup_from_values() {
    let doc = "<xbrl xmlns:p=\"http://b\"><p:Note>\
         &lt;script&gt;bad()&lt;/script&gt;kept</p:Note></xbrl>"
    .to_string();
    let facts = parse_xml_to_facts(doc).unwrap();
    assert_eq!(facts[0].value, "kept");
}

#[test]
fn rerun_yields_identical_rows() {
    let rows1 = extract_fact_table(sample_doc(), details()).unwrap();
    let rows2 = extract_fact_table(sample_doc(), details()).unwrap();
    assert_eq!(rows1, rows2);
    let facts1 = parse_xml_to_facts(sample_doc()).unwrap();
    let facts2 = parse_xml_to_facts(sample_doc()).unwrap();
    assert_eq!(facts_to_table(facts1, details()), facts_to_table(facts2, details()));
}

#[test]
fn malformed_document_is_the_single_fatal_error() {
    let doc = "<xbrl xmlns:p=\"http://b\"><p:Fact>1".to_string();
    let r = extract_fact_table(doc.clone(), details());
    assert_eq!(r, Err(XbrlError::DocumentParse));
    let f = parse_xml_to_facts(doc);
    assert_eq!(f, Err(XbrlError::DocumentParse));
}

#[test]
fn unqualified_elements_are_not_facts() {
    let doc = "<xbrl xmlns:p=\"http://b\"><plain>no namespace</plain><p:Fact>\
         1</p:Fact></xbrl>"
    .to_string();
    let facts = parse_xml_to_facts(doc).unwrap();
    assert_eq!(facts.len(), 1);
    assert_eq!(facts[0].name, "Fact");
}
