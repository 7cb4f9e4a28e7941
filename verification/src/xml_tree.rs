//! Conversions between the plain XML model of this library and the trees of the
//! `xmltree` crate, which parses and writes the text.
use vstd::prelude::*;
use crate::error::{ErrorView, SerializationError};
use crate::text::owned_text;
use vstd::string::StrSliceExecFns;
use crate::xml::{attribute_view, element_view, node_view, nodes_view, XmlAttribute, XmlElement, XmlElementView, XmlNode, XmlNodeView};

verus! {

#[verifier::external_type_specification]
#[verifier::external_body]
pub struct ExElement(xmltree::Element);

#[verifier::external_type_specification]
#[verifier::external_body]
pub struct ExXmlNode(xmltree::XMLNode);

#[verifier::external_type_specification]
#[verifier::external_body]
pub struct ExParseError(xmltree::ParseError);

/// The nodes at the root of a text that `xmltree::Element::parse_all` reads from its
/// bytes, when the text is well-formed XML.
pub uninterp spec fn parsed_nodes(text: Seq<char>) -> Option<Seq<xmltree::XMLNode>>;

/// The name of an `xmltree` element.
pub uninterp spec fn tree_name(e: xmltree::Element) -> Seq<char>;

/// The attributes of an `xmltree` element, as name and value, in the order of its map
/// (an `IndexMap`, which keeps the order of insertion).
pub uninterp spec fn tree_attributes(e: xmltree::Element) -> Seq<(Seq<char>, Seq<char>)>;

/// The children of an `xmltree` element.
pub uninterp spec fn tree_children(e: xmltree::Element) -> Seq<xmltree::XMLNode>;

/// The element an `xmltree` node is, if it is one.
pub uninterp spec fn node_element_of(n: xmltree::XMLNode) -> Option<xmltree::Element>;

/// The text an `xmltree` node holds, if it is a text or a CDATA section.
pub uninterp spec fn node_text_of(n: xmltree::XMLNode) -> Option<Seq<char>>;

/// Calls `xmltree::Element::parse_all` on the bytes of the text: the nodes at the root
/// of the document, or why it is not well-formed XML.
#[verifier::external_body]
fn parse_nodes(text: &str) -> (r: Result<Vec<xmltree::XMLNode>, xmltree::ParseError>)
    ensures
        match r {
            Ok(nodes) => parsed_nodes(text@) == Some(nodes@),
            Err(_) => parsed_nodes(text@) is None,
        },
{
    xmltree::Element::parse_all(text.as_bytes())
}

/// The message of an `xmltree::ParseError`, written with its `Display`.
#[verifier::external_body]
fn parse_error_message(e: &xmltree::ParseError) -> (r: String) {
    e.to_string()
}

/// Calls `xmltree::XMLNode::as_element`: the element a node is, if it is one.
#[verifier::external_body]
fn node_element(n: &xmltree::XMLNode) -> (r: Option<&xmltree::Element>)
    ensures
        match r {
            Some(c) => node_element_of(*n) == Some(*c),
            None => node_element_of(*n) is None,
        },
{
    n.as_element()
}

/// The text of a text or CDATA node of `xmltree`.
#[verifier::external_body]
fn node_text(n: &xmltree::XMLNode) -> (r: Option<String>)
    ensures
        match r {
            Some(t) => node_text_of(*n) == Some(t@),
            None => node_text_of(*n) is None,
        },
{
    match n {
        xmltree::XMLNode::Text(t) => Some(t.clone()),
        xmltree::XMLNode::CData(t) => Some(t.clone()),
        _ => None,
    }
}

/// The `name` field of an `xmltree::Element`.
#[verifier::external_body]
fn element_name(e: &xmltree::Element) -> (r: String)
    ensures
        r@ == tree_name(*e),
{
    e.name.clone()
}

/// The `attributes` map of an `xmltree::Element`, as pairs in its order.
#[verifier::external_body]
fn element_attributes(e: &xmltree::Element) -> (r: Vec<(String, String)>)
    ensures
        r@.map_values(|p: (String, String)| (p.0@, p.1@)) == tree_attributes(*e),
        forall|i: int, j: int| 0 <= i < j < r@.len() ==> r@[i].0@ != r@[j].0@,
{
    e.attributes.iter().map(|(k, v)| (k.clone(), v.clone())).collect()
}

/// The `children` field of an `xmltree::Element`.
#[verifier::external_body]
fn element_children(e: &xmltree::Element) -> (r: &Vec<xmltree::XMLNode>)
    ensures
        r@ == tree_children(*e),
{
    &e.children
}

/// Attributes once one is set in an `IndexMap`: a name already there keeps its place and
/// takes the new value; a new name goes last.
pub open spec fn attributes_insert(
    attrs: Seq<(Seq<char>, Seq<char>)>,
    name: Seq<char>,
    value: Seq<char>,
) -> Seq<(Seq<char>, Seq<char>)> {
    if exists|i: int| 0 <= i < attrs.len() && attrs[i].0 == name {
        attrs.update(choose|i: int| 0 <= i < attrs.len() && attrs[i].0 == name, (name, value))
    } else {
        attrs.push((name, value))
    }
}

/// Calls `xmltree::Element::new`: an element with that name, no attribute and no child.
#[verifier::external_body]
fn new_element(name: &str) -> (r: xmltree::Element)
    ensures
        tree_name(r) == name@,
        tree_attributes(r) == Seq::<(Seq<char>, Seq<char>)>::empty(),
        tree_children(r) == Seq::<xmltree::XMLNode>::empty(),
{
    xmltree::Element::new(name)
}

/// Inserts into the `attributes` map of an `xmltree::Element`, an `IndexMap`.
#[verifier::external_body]
fn insert_tree_attribute(e: &mut xmltree::Element, name: &str, value: &str)
    ensures
        tree_name(*final(e)) == tree_name(*old(e)),
        tree_attributes(*final(e)) == attributes_insert(tree_attributes(*old(e)), name@, value@),
        tree_children(*final(e)) == tree_children(*old(e)),
{
    e.attributes.insert(name.to_owned(), value.to_owned());
}

/// Pushes an element onto the `children` of an `xmltree::Element`.
#[verifier::external_body]
fn push_tree_element(e: &mut xmltree::Element, child: xmltree::Element)
    ensures
        tree_name(*final(e)) == tree_name(*old(e)),
        tree_attributes(*final(e)) == tree_attributes(*old(e)),
        tree_children(*final(e)).len() == tree_children(*old(e)).len() + 1,
        tree_children(*final(e)).drop_last() == tree_children(*old(e)),
        node_element_of(tree_children(*final(e)).last()) == Some(child),
{
    e.children.push(xmltree::XMLNode::Element(child));
}

/// Pushes a text onto the `children` of an `xmltree::Element`.
#[verifier::external_body]
fn push_tree_text(e: &mut xmltree::Element, text: &str)
    ensures
        tree_name(*final(e)) == tree_name(*old(e)),
        tree_attributes(*final(e)) == tree_attributes(*old(e)),
        tree_children(*final(e)).len() == tree_children(*old(e)).len() + 1,
        tree_children(*final(e)).drop_last() == tree_children(*old(e)),
        node_element_of(tree_children(*final(e)).last()) is None,
        node_text_of(tree_children(*final(e)).last()) == Some(text@),
{
    e.children.push(xmltree::XMLNode::Text(text.to_owned()));
}

/// The text `xmltree::Element::write_with_config` writes for an element, indented.
pub uninterp spec fn tree_text(e: xmltree::Element) -> Seq<char>;

/// Calls `xmltree::Element::write_with_config` with indentation into a buffer, then
/// `String::from_utf8` on the buffer. The emitter of `xml-rs` fails only on an error of
/// its sink, which a `Vec<u8>` never gives, on a second document declaration, or on an
/// end tag other than the last one opened; `xmltree` writes one declaration and closes
/// each element with its own name. All it writes comes from `str`s, so it is UTF-8 and
/// the call succeeds.
#[verifier::external_body]
fn emit_tree(e: &xmltree::Element) -> (r: Result<String, String>)
    ensures
        r is Ok,
        r matches Ok(t) ==> t@ == tree_text(*e),
{
    let mut buffer: Vec<u8> = Vec::with_capacity(1024);
    let mut config = xmltree::EmitterConfig::new();
    config.perform_indent = true;
    match e.write_with_config(&mut buffer, config) {
        Ok(()) => match String::from_utf8(buffer) {
            Ok(s) => Ok(s),
            Err(err) => Err(err.to_string()),
        },
        Err(err) => Err(err.to_string()),
    }
}

/// The message of a document whose elements are nested too deeply.
pub open spec fn too_deep_message() -> Seq<char> {
    "elements are nested too deeply"@
}

/// No name is given twice among attributes.
pub open spec fn names_distinct(attrs: Seq<(Seq<char>, Seq<char>)>) -> bool {
    forall|i: int, j: int| 0 <= i < j < attrs.len() ==> attrs[i].0 != attrs[j].0
}

/// No element, this one or one nested in it, gives an attribute name twice.
pub open spec fn attributes_distinct_deep(v: XmlElementView) -> bool
    decreases v,
{
    &&& names_distinct(v.attributes)
    &&& forall|k: int|
        0 <= k < v.children.len() ==> match #[trigger] v.children[k] {
            XmlNodeView::Element(c) => attributes_distinct_deep(c),
            XmlNodeView::Text(_) => true,
        }
}

/// An `xmltree` element seen as plain sequences, when it is nested no deeper than `depth`:
/// its name, attributes and children, comments and processing instructions left out.
pub open spec fn tree_view(e: xmltree::Element, depth: nat) -> Option<XmlElementView>
    decreases depth, 0nat,
{
    if depth == 0 {
        None
    } else {
        match children_view(tree_children(e), (depth - 1) as nat) {
            Some(kids) => Some(XmlElementView { name: tree_name(e), attributes: tree_attributes(e), children: kids }),
            None => None,
        }
    }
}

/// `xmltree` nodes seen as plain sequences, when nested no deeper than `depth`: elements
/// and texts, comments and processing instructions left out.
pub open spec fn children_view(nodes: Seq<xmltree::XMLNode>, depth: nat) -> Option<Seq<XmlNodeView>>
    decreases depth, nodes.len() + 1,
{
    if nodes.len() == 0 {
        Some(Seq::empty())
    } else {
        match children_view(nodes.drop_last(), depth) {
            None => None,
            Some(prev) => match node_element_of(nodes.last()) {
                Some(c) => match tree_view(c, depth) {
                    Some(v) => Some(prev.push(XmlNodeView::Element(v))),
                    None => None,
                },
                None => match node_text_of(nodes.last()) {
                    Some(t) => Some(prev.push(XmlNodeView::Text(t))),
                    None => Some(prev),
                },
            },
        }
    }
}

/// The elements among nodes at the root of a document, seen as plain sequences, when
/// nested no deeper than `depth`.
pub open spec fn root_elements(nodes: Seq<xmltree::XMLNode>, depth: nat) -> Option<Seq<XmlElementView>>
    decreases nodes.len(),
{
    if nodes.len() == 0 {
        Some(Seq::empty())
    } else {
        match root_elements(nodes.drop_last(), depth) {
            None => None,
            Some(prev) => match node_element_of(nodes.last()) {
                Some(c) => match tree_view(c, depth) {
                    Some(v) => Some(prev.push(v)),
                    None => None,
                },
                None => Some(prev),
            },
        }
    }
}

/// The root elements of a text, when it is well-formed XML: those `xmltree` reads, no
/// element being nested deeper than the text is long.
pub open spec fn spec_parsed_roots(text: Seq<char>) -> Option<Seq<XmlElementView>> {
    match parsed_nodes(text) {
        Some(nodes) => root_elements(nodes, text.len()),
        None => None,
    }
}

proof fn lemma_children_none_extends(nodes: Seq<xmltree::XMLNode>, k: int, depth: nat)
    requires
        0 <= k <= nodes.len(),
        children_view(nodes.subrange(0, k), depth) is None,
    ensures
        children_view(nodes, depth) is None,
    decreases nodes.len() - k,
{
    if k < nodes.len() {
        assert(nodes.subrange(0, k + 1).drop_last() =~= nodes.subrange(0, k));
        lemma_children_none_extends(nodes, k + 1, depth);
    } else {
        assert(nodes.subrange(0, k) =~= nodes);
    }
}

proof fn lemma_roots_none_extends(nodes: Seq<xmltree::XMLNode>, k: int, depth: nat)
    requires
        0 <= k <= nodes.len(),
        root_elements(nodes.subrange(0, k), depth) is None,
    ensures
        root_elements(nodes, depth) is None,
    decreases nodes.len() - k,
{
    if k < nodes.len() {
        assert(nodes.subrange(0, k + 1).drop_last() =~= nodes.subrange(0, k));
        lemma_roots_none_extends(nodes, k + 1, depth);
    } else {
        assert(nodes.subrange(0, k) =~= nodes);
    }
}

fn convert_element(e: &xmltree::Element, depth: usize) -> (r: Result<XmlElement, SerializationError>)
    ensures
        match tree_view(*e, depth as nat) {
            Some(v) => r matches Ok(x) && element_view(x) == v,
            None => r matches Err(err) && err@ == ErrorView::XmlParsingFailed(too_deep_message()),
        },
        r matches Ok(x) ==> attributes_distinct_deep(element_view(x)),
    decreases depth,
{
    if depth == 0 {
        proof {
            reveal_strlit("elements are nested too deeply");
        }
        return Err(SerializationError::XmlParsingFailed(owned_text("elements are nested too deeply")));
    }
    let name = element_name(e);
    let pairs = element_attributes(e);
    let ghost pair_views = pairs@.map_values(|p: (String, String)| (p.0@, p.1@));
    let mut attributes: Vec<XmlAttribute> = Vec::new();
    let mut i: usize = 0;
    while i < pairs.len()
        invariant
            i <= pairs@.len(),
            pair_views == pairs@.map_values(|p: (String, String)| (p.0@, p.1@)),
            attributes@.map_values(|a: XmlAttribute| attribute_view(a)) == pair_views.subrange(0, i as int),
        decreases pairs.len() - i,
    {
        let ghost before = attributes@;
        let a = XmlAttribute { name: pairs[i].0.clone(), value: pairs[i].1.clone() };
        attributes.push(a);
        assert(attributes@.map_values(|a: XmlAttribute| attribute_view(a)) =~= before.map_values(
            |a: XmlAttribute| attribute_view(a),
        ).push(attribute_view(a)));
        assert(pair_views.subrange(0, i + 1) =~= pair_views.subrange(0, i as int).push(pair_views[i as int]));
        i = i + 1;
    }
    assert(pair_views.subrange(0, i as int) =~= pair_views);
    let nodes = element_children(e);
    let ghost d: nat = (depth - 1) as nat;
    let mut children: Vec<XmlNode> = Vec::new();
    let mut j: usize = 0;
    assert(nodes@.subrange(0, 0) =~= Seq::<xmltree::XMLNode>::empty());
    assert(nodes_view(children@) =~= Seq::<XmlNodeView>::empty());
    while j < nodes.len()
        invariant
            depth > 0,
            d == depth - 1,
            nodes@ == tree_children(*e),
            j <= nodes@.len(),
            children_view(nodes@.subrange(0, j as int), d) == Some(nodes_view(children@)),
            forall|k: int|
                0 <= k < nodes_view(children@).len() ==> match #[trigger] nodes_view(children@)[k] {
                    XmlNodeView::Element(c) => attributes_distinct_deep(c),
                    XmlNodeView::Text(_) => true,
                },
        decreases nodes.len() - j,
    {
        let node = &nodes[j];
        let ghost prefix = nodes@.subrange(0, j + 1);
        assert(prefix.drop_last() =~= nodes@.subrange(0, j as int));
        assert(prefix.last() == *node);
        match node_element(node) {
            Some(c) => {
                match convert_element(c, depth - 1) {
                    Ok(converted) => {
                        let ghost before = children@;
                        let ghost v = element_view(converted);
                        let ghost x = XmlNode::Element(converted);
                        children.push(XmlNode::Element(converted));
                        assert(children@.drop_last() =~= before);
                        assert(children@.last() == x);
                        assert(node_view(x) == XmlNodeView::Element(v));
                        assert(nodes_view(children@) == nodes_view(before).push(XmlNodeView::Element(v)));
                        assert(node_element_of(prefix.last()) == Some(*c));
                        assert(tree_view(*c, d) == Some(v));
                        assert(children_view(prefix, d) == Some(nodes_view(children@)));
                    },
                    Err(err) => {
                        proof {
                            lemma_children_none_extends(nodes@, j + 1, d);
                            assert(nodes@ == tree_children(*e));
                        }
                        return Err(err);
                    },
                }
            },
            None => match node_text(node) {
                Some(t) => {
                    let ghost before = children@;
                    let ghost tv = t@;
                    let ghost x = XmlNode::Text(t);
                    children.push(XmlNode::Text(t));
                    assert(children@.drop_last() =~= before);
                    assert(children@.last() == x);
                    assert(node_view(x) == XmlNodeView::Text(tv));
                    assert(nodes_view(children@) == nodes_view(before).push(XmlNodeView::Text(tv)));
                    assert(children_view(prefix, d) == Some(nodes_view(children@)));
                },
                None => {
                    assert(children_view(prefix, d) == Some(nodes_view(children@)));
                },
            },
        }
        j = j + 1;
    }
    assert(nodes@.subrange(0, j as int) =~= nodes@);
    let r = XmlElement { name, attributes, children };
    assert(element_view(r).attributes == tree_attributes(*e));
    assert(names_distinct(tree_attributes(*e))) by {
        assert forall|a: int, b: int| 0 <= a < b < tree_attributes(*e).len() implies tree_attributes(
            *e,
        )[a].0 != tree_attributes(*e)[b].0 by {
            assert(tree_attributes(*e)[a] == (pairs@[a].0@, pairs@[a].1@));
            assert(tree_attributes(*e)[b] == (pairs@[b].0@, pairs@[b].1@));
        }
    }
    assert(attributes_distinct_deep(element_view(r)));
    Ok(r)
}

/// Parses an XML document with `xmltree` into the elements at its root; texts, comments
/// and processing instructions at the root are left out. Every element of a document
/// takes at least one character of its text, so none is nested deeper than the text is
/// long. As `xmltree` keeps attributes in a map, no loaded element gives a name twice.
pub fn load_xml(xml: &str) -> (r: Result<Vec<XmlElement>, SerializationError>)
    ensures
        match parsed_nodes(xml@) {
            None => r matches Err(err) && err is XmlParsingFailed,
            Some(nodes) => match root_elements(nodes, xml@.len()) {
                Some(roots) => r matches Ok(v) && v@.map_values(|x: XmlElement| element_view(x)) == roots,
                None => r matches Err(err) && err@ == ErrorView::XmlParsingFailed(too_deep_message()),
            },
        },
        r matches Ok(v) ==> forall|k: int| 0 <= k < v@.len() ==> attributes_distinct_deep(#[trigger] element_view(v@[k])),
{
    let nodes = match parse_nodes(xml) {
        Ok(nodes) => nodes,
        Err(e) => {
            return Err(SerializationError::XmlParsingFailed(parse_error_message(&e)));
        },
    };
    let depth_bound = xml.unicode_len();
    let mut roots: Vec<XmlElement> = Vec::new();
    let mut i: usize = 0;
    assert(nodes@.subrange(0, 0) =~= Seq::<xmltree::XMLNode>::empty());
    assert(roots@.map_values(|x: XmlElement| element_view(x)) =~= Seq::<XmlElementView>::empty());
    while i < nodes.len()
        invariant
            i <= nodes@.len(),
            depth_bound == xml@.len(),
            parsed_nodes(xml@) == Some(nodes@),
            root_elements(nodes@.subrange(0, i as int), depth_bound as nat) == Some(
                roots@.map_values(|x: XmlElement| element_view(x)),
            ),
            forall|k: int| 0 <= k < roots@.len() ==> attributes_distinct_deep(#[trigger] element_view(roots@[k])),
        decreases nodes.len() - i,
    {
        let ghost prefix = nodes@.subrange(0, i + 1);
        assert(prefix.drop_last() =~= nodes@.subrange(0, i as int));
        assert(prefix.last() == nodes@[i as int]);
        match node_element(&nodes[i]) {
            Some(e) => {
                match convert_element(e, depth_bound) {
                    Ok(converted) => {
                        let ghost before = roots@;
                        roots.push(converted);
                        assert(roots@.map_values(|x: XmlElement| element_view(x)) =~= before.map_values(
                            |x: XmlElement| element_view(x),
                        ).push(element_view(converted)));
                    },
                    Err(err) => {
                        proof {
                            lemma_roots_none_extends(nodes@, i + 1, depth_bound as nat);
                        }
                        return Err(err);
                    },
                }
            },
            None => {},
        }
        i = i + 1;
    }
    assert(nodes@.subrange(0, i as int) =~= nodes@);
    Ok(roots)
}

/// The attributes an `IndexMap` holds once each of a list is set in turn.
pub open spec fn inserted_attributes(attrs: Seq<(Seq<char>, Seq<char>)>) -> Seq<(Seq<char>, Seq<char>)>
    decreases attrs.len(),
{
    if attrs.len() == 0 {
        Seq::empty()
    } else {
        attributes_insert(inserted_attributes(attrs.drop_last()), attrs.last().0, attrs.last().1)
    }
}

/// The view of the `xmltree` element written for an element: the same, but for its
/// attributes, set one by one in an `IndexMap`.
pub open spec fn written_view(v: XmlElementView) -> XmlElementView
    decreases v,
{
    XmlElementView { name: v.name, attributes: inserted_attributes(v.attributes), children: written_nodes(v.children) }
}

/// The views of the `xmltree` nodes written for nodes.
pub open spec fn written_nodes(nodes: Seq<XmlNodeView>) -> Seq<XmlNodeView>
    decreases nodes,
{
    if nodes.len() == 0 {
        Seq::empty()
    } else {
        let last = nodes.last();
        written_nodes(nodes.drop_last()).push(
            match last {
                XmlNodeView::Element(c) => XmlNodeView::Element(written_view(c)),
                XmlNodeView::Text(t) => XmlNodeView::Text(t),
            },
        )
    }
}

/// How deeply the elements of an element are nested, itself counted.
pub open spec fn view_height(v: XmlElementView) -> nat
    decreases v,
{
    1 + nodes_height(v.children)
}

/// How deeply the elements among nodes are nested.
pub open spec fn nodes_height(nodes: Seq<XmlNodeView>) -> nat
    decreases nodes,
{
    if nodes.len() == 0 {
        0
    } else {
        let rest = nodes_height(nodes.drop_last());
        let last: nat = match nodes.last() {
            XmlNodeView::Element(c) => view_height(c),
            XmlNodeView::Text(_) => 0,
        };
        if rest >= last {
            rest
        } else {
            last
        }
    }
}

/// Builds the `xmltree` element of an element: deep enough, its view is the written view.
fn to_tree(e: &XmlElement) -> (r: xmltree::Element)
    ensures
        forall|d: nat| d >= view_height(element_view(*e)) ==> #[trigger] tree_view(r, d) == Some(
            written_view(element_view(*e)),
        ),
    decreases e,
{
    let mut t = new_element(e.name.as_str());
    let ghost attrs = element_view(*e).attributes;
    let mut i: usize = 0;
    assert(attrs.subrange(0, 0) =~= Seq::<(Seq<char>, Seq<char>)>::empty());
    while i < e.attributes.len()
        invariant
            i <= e.attributes@.len(),
            attrs == element_view(*e).attributes,
            tree_name(t) == e.name@,
            tree_children(t) == Seq::<xmltree::XMLNode>::empty(),
            tree_attributes(t) == inserted_attributes(attrs.subrange(0, i as int)),
        decreases e.attributes.len() - i,
    {
        insert_tree_attribute(&mut t, e.attributes[i].name.as_str(), e.attributes[i].value.as_str());
        proof {
            let prefix = attrs.subrange(0, i + 1);
            assert(prefix.drop_last() =~= attrs.subrange(0, i as int));
            assert(prefix.last() == attribute_view(e.attributes@[i as int]));
        }
        i = i + 1;
    }
    assert(attrs.subrange(0, i as int) =~= attrs);
    let ghost kids = e.children@;
    let mut j: usize = 0;
    assert(kids.subrange(0, 0) =~= Seq::<XmlNode>::empty());
    assert forall|d: nat| d >= nodes_height(nodes_view(kids.subrange(0, 0))) implies #[trigger] children_view(
        tree_children(t),
        d,
    ) == Some(written_nodes(nodes_view(kids.subrange(0, 0)))) by {
        assert(nodes_view(kids.subrange(0, 0)) =~= Seq::<XmlNodeView>::empty());
    }
    while j < e.children.len()
        invariant
            j <= kids.len(),
            kids == e.children@,
            tree_name(t) == e.name@,
            tree_attributes(t) == inserted_attributes(attrs),
            attrs == element_view(*e).attributes,
            forall|d: nat| d >= nodes_height(nodes_view(kids.subrange(0, j as int))) ==> #[trigger] children_view(
                tree_children(t),
                d,
            ) == Some(written_nodes(nodes_view(kids.subrange(0, j as int)))),
        decreases e.children.len() - j,
    {
        let ghost before = tree_children(t);
        let ghost prev = nodes_view(kids.subrange(0, j as int));
        let ghost next = nodes_view(kids.subrange(0, j + 1));
        proof {
            assert(kids.subrange(0, j + 1).drop_last() =~= kids.subrange(0, j as int));
            assert(next == prev.push(node_view(kids[j as int])));
        }
        match &e.children[j] {
            XmlNode::Element(c) => {
                proof {
                    assert(decreases_to!(e => e.children));
                    assert(decreases_to!(e.children => e.children@));
                    assert(decreases_to!(e.children@ => e.children@[j as int]));
                }
                let child = to_tree(c);
                let ghost cv = element_view(*c);
                push_tree_element(&mut t, child);
                proof {
                    assert(next.last() == XmlNodeView::Element(cv));
                    assert(next.drop_last() =~= prev);
                    assert forall|d: nat| d >= nodes_height(next) implies #[trigger] children_view(tree_children(t), d)
                        == Some(written_nodes(next)) by {
                        assert(d >= nodes_height(prev));
                        assert(d >= view_height(cv));
                        assert(tree_view(child, d) == Some(written_view(cv)));
                        assert(children_view(before, d) == Some(written_nodes(prev)));
                    }
                }
            },
            XmlNode::Text(s) => {
                let ghost sv = s@;
                push_tree_text(&mut t, s.as_str());
                proof {
                    assert(next.last() == XmlNodeView::Text(sv));
                    assert(next.drop_last() =~= prev);
                    assert forall|d: nat| d >= nodes_height(next) implies #[trigger] children_view(tree_children(t), d)
                        == Some(written_nodes(next)) by {
                        assert(d >= nodes_height(prev));
                        assert(children_view(before, d) == Some(written_nodes(prev)));
                    }
                }
            },
        }
        j = j + 1;
    }
    assert(kids.subrange(0, j as int) =~= kids);
    assert forall|d: nat| d >= view_height(element_view(*e)) implies #[trigger] tree_view(t, d) == Some(
        written_view(element_view(*e)),
    ) by {
        assert(children_view(tree_children(t), (d - 1) as nat) == Some(written_nodes(nodes_view(kids))));
    }
    t
}

/// The texts `xmltree` writes for trees, one after another.
pub open spec fn trees_text(trees: Seq<xmltree::Element>) -> Seq<char>
    decreases trees.len(),
{
    if trees.len() == 0 {
        Seq::empty()
    } else {
        trees_text(trees.drop_last()) + tree_text(trees.last())
    }
}

/// Whether a text is what `xmltree` writes for trees whose views are the written views of
/// elements, one tree after another.
pub open spec fn written_as(text: Seq<char>, views: Seq<XmlElementView>) -> bool {
    exists|trees: Seq<xmltree::Element>|
        #![trigger trees_text(trees)]
        trees_text(trees) == text && trees.len() == views.len() && forall|i: int, d: nat|
            0 <= i < views.len() && d >= view_height(views[i]) ==> #[trigger] tree_view(trees[i], d) == Some(
                written_view(views[i]),
            )
}

/// Writes elements as an indented XML document: for each element, the text `xmltree`
/// writes for the tree built from it, each preceded by the XML declaration.
pub fn write_xml(elements: &Vec<XmlElement>) -> (r: String)
    ensures
        written_as(r@, elements@.map_values(|x: XmlElement| element_view(x))),
{
    let ghost views = elements@.map_values(|x: XmlElement| element_view(x));
    let ghost mut trees: Seq<xmltree::Element> = Seq::empty();
    let mut out = String::new();
    let mut i: usize = 0;
    while i < elements.len()
        invariant
            i <= elements@.len(),
            views == elements@.map_values(|x: XmlElement| element_view(x)),
            trees.len() == i,
            out@ == trees_text(trees),
            forall|k: int, d: nat|
                0 <= k < i && d >= view_height(views[k]) ==> #[trigger] tree_view(trees[k], d) == Some(
                    written_view(views[k]),
                ),
        decreases elements.len() - i,
    {
        let tree = to_tree(&elements[i]);
        match emit_tree(&tree) {
            Ok(s) => {
                let ghost before = out@;
                vstd::string::StringExecFns::append(&mut out, s.as_str());
                proof {
                    let old_trees = trees;
                    trees = trees.push(tree);
                    assert(trees.drop_last() =~= old_trees);
                    assert forall|k: int, d: nat|
                        0 <= k < i + 1 && d >= view_height(views[k]) implies #[trigger] tree_view(trees[k], d) == Some(
                        written_view(views[k]),
                    ) by {
                        if k < i {
                            assert(trees[k] == old_trees[k]);
                        } else {
                            assert(views[k] == element_view(elements@[k]));
                        }
                    }
                }
            },
            Err(_) => {
                proof {
                    assert(false);
                }
            },
        }
        i = i + 1;
    }
    out
}

} // verus!
