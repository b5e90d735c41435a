use xbrl_facts::facts::{collect_units, extract_facts};
use xbrl_facts::index::{
    build_dimension_index, build_period_index, build_unit_index, Unit,
};
use xbrl_facts::table::DimensionTableRow;
use xbrl_facts::text::{get_attr, get_attr_or_empty, split_qname};
use xbrl_facts::xml::{XmlAttr, XmlChild, XmlDocument, XmlElement, XmlNode};

fn node(name: &str, text: Option<&str>, attrs: Vec<(&str, &str)>) -> XmlNode {
    XmlNode {
        name: name.to_string(),
        namespace: None,
        prefix: None,
        parent_name: None,
        text: text.map(|t| t.to_string()),
        attrs: attrs
            .into_iter()
            .map(|(n, v)| XmlAttr { name: n.to_string(), value: v.to_string() })
            .collect(),
    }
}

#[test]
fn split_qname_well_formed() {
    let r = split_qname("ns1:AxisA").unwrap();
    assert_eq!(r.0, "ns1");
    assert_eq!(r.1, "AxisA");
}

#[test]
fn split_qname_without_colon_is_malformed() {
    assert!(split_qname("noColon").is_none());
    assert!(split_qname("").is_none());
}

#[test]
fn split_qname_with_two_colons_is_malformed() {
    assert!(split_qname("a:b:c").is_none());
}

#[test]
fn split_qname_edge_positions() {
    let r = split_qname(":x").unwrap();
    assert_eq!(r.0, "");
    assert_eq!(r.1, "x");
    let r = split_qname("x:").unwrap();
    assert_eq!(r.0, "x");
    assert_eq!(r.1, "");
}

#[test]
fn attribute_lookup_first_match_wins() {
    let attrs = vec![
        XmlAttr { name: "a".to_string(), value: "1".to_string() },
        XmlAttr { name: "b".to_string(), value: "2".to_string() },
        XmlAttr { name: "a".to_string(), value: "3".to_string() },
    ];
    assert_eq!(get_attr(&attrs, "a"), Some("1".to_string()));
    assert_eq!(get_attr(&attrs, "b"), Some("2".to_string()));
    assert_eq!(get_attr(&attrs, "c"), None);
    assert_eq!(get_attr_or_empty(&attrs, "c"), "");
}

#[test]
fn dimension_table_row_default_is_empty() {
    let r = DimensionTableRow::default();
    assert_eq!(r.cik, None);
    assert_eq!(r.accession_number, None);
    assert_eq!(r.xml_name, "");
    assert_eq!(r.context_ref, "");
    assert_eq!(r.axis_prefix, "");
    assert_eq!(r.axis_tag, "");
    assert_eq!(r.member_prefix, "");
    assert_eq!(r.member_tag, "");
}

#[test]
fn unit_index_keys_measures_by_id() {
    let unit_elem = XmlElement {
        node: node("unit", None, vec![("id", "u1")]),
        children: vec![XmlChild {
            node: node("divide", None, vec![]),
            subtree: vec![
                node("divide", None, vec![]),
                node("unitNumerator", None, vec![]),
                XmlNode {
                    parent_name: Some("unitNumerator".to_string()),
                    ..node("measure", Some("USD"), vec![])
                },
            ],
        }],
    };
    let doc = XmlDocument { elements: vec![unit_elem] };
    let idx = build_unit_index(&doc);
    assert_eq!(idx.len(), 1);
    assert_eq!(idx[0].0, "u1");
    assert_eq!(idx[0].1.unit_type, "unitNumerator");
    assert_eq!(idx[0].1.unit_value, "USD");
    assert!(build_period_index(&doc).is_empty());
    assert!(build_dimension_index(&doc).is_empty());
}

#[test]
fn unit_without_id_defaults_to_empty_key() {
    let unit_elem = XmlElement {
        node: node("unit", None, vec![]),
        children: vec![XmlChild {
            node: node("measure", Some("pure"), vec![]),
            subtree: vec![XmlNode {
                parent_name: Some("unit".to_string()),
                ..node("measure", Some("pure"), vec![])
            }],
        }],
    };
    let doc = XmlDocument { elements: vec![unit_elem] };
    let idx = build_unit_index(&doc);
    assert_eq!(idx.len(), 1);
    assert_eq!(idx[0].0, "");
}

#[test]
fn collect_units_keeps_matching_entries_in_order() {
    let pairs = vec![
        ("u".to_string(), Unit { unit_type: "unit".to_string(), unit_value: "a".to_string() }),
        ("v".to_string(), Unit { unit_type: "unit".to_string(), unit_value: "x".to_string() }),
        ("u".to_string(), Unit { unit_type: "unit".to_string(), unit_value: "b".to_string() }),
    ];
    let got = collect_units(&pairs, "u");
    assert_eq!(got.len(), 2);
    assert_eq!(got[0].unit_value, "a");
    assert_eq!(got[1].unit_value, "b");
}

#[test]
fn extract_skips_structural_and_unqualified_elements() {
    let fact = XmlElement {
        node: XmlNode {
            namespace: Some("http://x".to_string()),
            prefix: Some("p".to_string()),
            ..node("Revenue", Some("10"), vec![])
        },
        children: vec![],
    };
    let ctx = XmlElement { node: node("context", None, vec![("id", "c")]), children: vec![] };
    let plain = XmlElement { node: node("plain", Some("t"), vec![]), children: vec![] };
    let doc = XmlDocument { elements: vec![ctx, plain, fact] };
    let units: Vec<(String, xbrl_facts::index::Unit)> = vec![];
    let periods: Vec<(String, xbrl_facts::index::Period)> = vec![];
    let dims: Vec<(String, xbrl_facts::index::Dimension)> = vec![];
    let facts = extract_facts(&doc, &units, &periods, &dims);
    assert_eq!(facts.len(), 1);
    assert_eq!(facts[0].name, "Revenue");
    assert_eq!(facts[0].prefix, "p");
    assert_eq!(facts[0].value, "10");
}
