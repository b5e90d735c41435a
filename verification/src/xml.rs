//! The element-tree model that the extraction pipeline works on.
//!
//! An XBRL instance document is modelled as the list of element children of
//! its document root. Each such element carries its own node data, plus its
//! direct element children; each child carries the flat list of the nodes of
//! its subtree in document order (the child itself first). This is exactly
//! the shape the pipeline reads: top-level elements are classified by name,
//! and index construction scans the subtrees of their direct children.

use vstd::prelude::*;

verus! {

/// One attribute of an element: local name and value.
#[derive(Debug, Clone)]
pub struct XmlAttr {
    pub name: String,
    pub value: String,
}

/// What the pipeline reads of one element node. Every field that a document
/// may leave out is an explicit `Option`; the pipeline itself supplies the
/// defined defaults, so the defaulting policy is verified, not assumed.
#[derive(Debug, Clone)]
pub struct XmlNode {
    /// Local tag name.
    pub name: String,
    /// Namespace URI of the tag name, if the tag is namespace-qualified.
    pub namespace: Option<String>,
    /// The prefix bound to that namespace in the node's scope, if resolvable.
    pub prefix: Option<String>,
    /// Local tag name of the parent node, if the node has a parent element.
    pub parent_name: Option<String>,
    /// Text content, if the node has any.
    pub text: Option<String>,
    /// The node's attributes in document order.
    pub attrs: Vec<XmlAttr>,
}

/// A direct element child of a top-level element, together with the nodes of
/// its whole subtree in document order. The subtree list contains the child
/// node itself first, then its element descendants.
#[derive(Debug, Clone)]
pub struct XmlChild {
    pub node: XmlNode,
    pub subtree: Vec<XmlNode>,
}

/// One element child of the document root.
#[derive(Debug, Clone)]
pub struct XmlElement {
    pub node: XmlNode,
    pub children: Vec<XmlChild>,
}

/// A well-formed document, reduced to the element children of its root.
#[derive(Debug, Clone)]
pub struct XmlDocument {
    pub elements: Vec<XmlElement>,
}

/// Mathematical image of `XmlAttr`.
pub ghost struct SpecAttr {
    pub name: Seq<char>,
    pub value: Seq<char>,
}

/// Mathematical image of `XmlNode`.
pub ghost struct SpecNode {
    pub name: Seq<char>,
    pub namespace: Option<Seq<char>>,
    pub prefix: Option<Seq<char>>,
    pub parent_name: Option<Seq<char>>,
    pub text: Option<Seq<char>>,
    pub attrs: Seq<SpecAttr>,
}

/// The view of an optional string.
pub open spec fn view_opt(o: Option<String>) -> Option<Seq<char>> {
    match o {
        Some(s) => Some(s@),
        None => None,
    }
}

/// Mathematical image of `XmlChild`.
pub ghost struct SpecChild {
    pub node: SpecNode,
    pub subtree: Seq<SpecNode>,
}

/// Mathematical image of `XmlElement`.
pub ghost struct SpecElement {
    pub node: SpecNode,
    pub children: Seq<SpecChild>,
}

/// The view of an attribute list.
pub open spec fn attrs_view(s: Seq<XmlAttr>) -> Seq<SpecAttr> {
    s.map_values(|a: XmlAttr| a@)
}

/// The view of a node list.
pub open spec fn nodes_view(s: Seq<XmlNode>) -> Seq<SpecNode> {
    s.map_values(|n: XmlNode| n@)
}

/// The view of a child list.
pub open spec fn children_view(s: Seq<XmlChild>) -> Seq<SpecChild> {
    s.map_values(|c: XmlChild| c@)
}

/// The view of an element list.
pub open spec fn elements_view(s: Seq<XmlElement>) -> Seq<SpecElement> {
    s.map_values(|e: XmlElement| e@)
}

impl View for XmlAttr {
    type V = SpecAttr;

    open spec fn view(&self) -> SpecAttr {
        SpecAttr { name: self.name@, value: self.value@ }
    }
}

impl View for XmlNode {
    type V = SpecNode;

    open spec fn view(&self) -> SpecNode {
        SpecNode {
            name: self.name@,
            namespace: view_opt(self.namespace),
            prefix: view_opt(self.prefix),
            parent_name: view_opt(self.parent_name),
            text: view_opt(self.text),
            attrs: attrs_view(self.attrs@),
        }
    }
}

impl View for XmlChild {
    type V = SpecChild;

    open spec fn view(&self) -> SpecChild {
        SpecChild { node: self.node@, subtree: nodes_view(self.subtree@) }
    }
}

impl View for XmlElement {
    type V = SpecElement;

    open spec fn view(&self) -> SpecElement {
        SpecElement { node: self.node@, children: children_view(self.children@) }
    }
}

impl View for XmlDocument {
    type V = Seq<SpecElement>;

    open spec fn view(&self) -> Seq<SpecElement> {
        elements_view(self.elements@)
    }
}

#[verifier::external_type_specification]
#[verifier::external_body]
pub struct ExNode<'a, 'input: 'a>(roxmltree::Node<'a, 'input>);

/// The element tree that a given text parses to, if it is well-formed XML:
/// a name for the combined result of `roxmltree::Document::parse` and the
/// field-for-field conversion below. The tree is a function of the text
/// alone, so parsing the same text always yields the same model value.
pub uninterp spec fn xml_parse(s: Seq<char>) -> Option<Seq<SpecElement>>;

/// Relies on `roxmltree::Document::parse`: a well-formed document yields an
/// element tree, a malformed one an error. The tree is converted to the
/// model field for field; `xml_parse` names the outcome.
#[verifier::external_body]
pub fn parse_document(s: &str) -> (r: Result<XmlDocument, crate::XbrlError>)
    ensures
        match r {
            Ok(d) => xml_parse(s@) == Some(d@),
            Err(e) => xml_parse(s@) is None && e == crate::XbrlError::DocumentParse,
        },
{
    match roxmltree::Document::parse(s) {
        Ok(doc) => Ok(XmlDocument {
            elements: doc
                .root_element()
                .children()
                .filter(|n| n.is_element())
                .map(element_of)
                .collect(),
        }),
        Err(_) => Err(crate::XbrlError::DocumentParse),
    }
}

/// Relies on `roxmltree::Node::{children, descendants}`: `children` yields
/// the direct children in document order, `descendants` the node itself and
/// its subtree in document order.
#[verifier::external_body]
fn element_of(e: roxmltree::Node) -> XmlElement {
    XmlElement {
        node: node_of(e),
        children: e
            .children()
            .filter(|c| c.is_element())
            .map(|c| XmlChild {
                node: node_of(c),
                subtree: c.descendants().filter(|d| d.is_element()).map(node_of).collect(),
            })
            .collect(),
    }
}

/// Relies on `roxmltree::Node::{tag_name, parent, text, attributes,
/// lookup_prefix}`: each model field is the corresponding accessor's result,
/// copied as it stands.
#[verifier::external_body]
fn node_of(n: roxmltree::Node) -> XmlNode {
    XmlNode {
        name: n.tag_name().name().to_string(),
        namespace: n.tag_name().namespace().map(|u| u.to_string()),
        prefix: n.tag_name().namespace().and_then(|u| n.lookup_prefix(u)).map(|p| p.to_string()),
        parent_name: n.parent().map(|p| p.tag_name().name().to_string()),
        text: n.text().map(|t| t.to_string()),
        attrs: n
            .attributes()
            .map(|a| XmlAttr { name: a.name().to_string(), value: a.value().to_string() })
            .collect(),
    }
}

} // verus!
