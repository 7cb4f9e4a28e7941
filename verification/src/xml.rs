//! A plain model of XML documents, the lookups the loaders make in it, and the
//! conversions from and to the trees of the `xmltree` crate.
use vstd::prelude::*;
use crate::error::{result_view, ErrorView, SerializationError};
use crate::text::{owned_text, str_eq};
use crate::values::XmlValue;

verus! {

/// An attribute of an element.
#[derive(Clone, Debug, PartialEq, Eq)]
pub struct XmlAttribute {
    pub name: String,
    pub value: String,
}

/// A child of an element: an element or a text.
#[derive(Debug, PartialEq, Eq)]
pub enum XmlNode {
    Element(XmlElement),
    Text(String),
}

/// An element: its name, attributes and children, in document order.
#[derive(Debug, PartialEq, Eq)]
pub struct XmlElement {
    pub name: String,
    pub attributes: Vec<XmlAttribute>,
    pub children: Vec<XmlNode>,
}

/// An element seen as plain sequences.
pub struct XmlElementView {
    pub name: Seq<char>,
    pub attributes: Seq<(Seq<char>, Seq<char>)>,
    pub children: Seq<XmlNodeView>,
}

/// A node seen as plain sequences.
pub enum XmlNodeView {
    Element(XmlElementView),
    Text(Seq<char>),
}

/// The view of an attribute.
pub open spec fn attribute_view(a: XmlAttribute) -> (Seq<char>, Seq<char>) {
    (a.name@, a.value@)
}

/// The views of nodes.
pub open spec fn nodes_view(nodes: Seq<XmlNode>) -> Seq<XmlNodeView>
    decreases nodes,
{
    if nodes.len() == 0 {
        Seq::empty()
    } else {
        nodes_view(nodes.drop_last()).push(node_view(nodes.last()))
    }
}

/// The view of a node.
pub open spec fn node_view(n: XmlNode) -> XmlNodeView
    decreases n,
{
    match n {
        XmlNode::Element(e) => XmlNodeView::Element(element_view(e)),
        XmlNode::Text(t) => XmlNodeView::Text(t@),
    }
}

/// The view of an element.
pub open spec fn element_view(e: XmlElement) -> XmlElementView
    decreases e,
{
    XmlElementView {
        name: e.name@,
        attributes: e.attributes@.map_values(|a: XmlAttribute| attribute_view(a)),
        children: nodes_view(e.children@),
    }
}

/// Where a format writes a value: in an attribute of the element, or as the text of
/// a child element of that name.
#[derive(Clone, Copy, Debug, PartialEq, Eq, Structural)]
pub enum ValueStyle {
    Attribute,
    Child,
}

/// The value of the first attribute with that name.
pub open spec fn attr_value(attrs: Seq<(Seq<char>, Seq<char>)>, key: Seq<char>) -> Option<Seq<char>>
    decreases attrs.len(),
{
    if attrs.len() == 0 {
        None
    } else {
        match attr_value(attrs.drop_last(), key) {
            Some(v) => Some(v),
            None => if attrs.last().0 == key {
                Some(attrs.last().1)
            } else {
                None
            },
        }
    }
}

/// The first child element with that name.
pub open spec fn child_element(children: Seq<XmlNodeView>, key: Seq<char>) -> Option<XmlElementView>
    decreases children.len(),
{
    if children.len() == 0 {
        None
    } else {
        match child_element(children.drop_last(), key) {
            Some(e) => Some(e),
            None => match children.last() {
                XmlNodeView::Element(e) => if e.name == key {
                    Some(e)
                } else {
                    None
                },
                XmlNodeView::Text(_) => None,
            },
        }
    }
}

/// The child elements, in order, leaving texts out.
pub open spec fn element_children(children: Seq<XmlNodeView>) -> Seq<XmlElementView>
    decreases children.len(),
{
    if children.len() == 0 {
        Seq::empty()
    } else {
        let rest = element_children(children.drop_last());
        match children.last() {
            XmlNodeView::Element(e) => rest.push(e),
            XmlNodeView::Text(_) => rest,
        }
    }
}

/// The child elements with that name, in order.
pub open spec fn children_named(children: Seq<XmlNodeView>, key: Seq<char>) -> Seq<XmlElementView>
    decreases children.len(),
{
    if children.len() == 0 {
        Seq::empty()
    } else {
        let rest = children_named(children.drop_last(), key);
        match children.last() {
            XmlNodeView::Element(e) => if e.name == key {
                rest.push(e)
            } else {
                rest
            },
            XmlNodeView::Text(_) => rest,
        }
    }
}

/// The first text child, or the empty text when there is none.
pub open spec fn first_text(children: Seq<XmlNodeView>) -> Seq<char>
    decreases children.len(),
{
    if children.len() == 0 {
        Seq::empty()
    } else {
        match children[0] {
            XmlNodeView::Text(t) => t,
            XmlNodeView::Element(_) => first_text(children.drop_first()),
        }
    }
}

/// Every text child, concatenated; `None` when there is none.
pub open spec fn all_text(children: Seq<XmlNodeView>) -> Option<Seq<char>>
    decreases children.len(),
{
    if children.len() == 0 {
        None
    } else {
        let rest = all_text(children.drop_last());
        match children.last() {
            XmlNodeView::Text(t) => match rest {
                Some(r) => Some(r + t),
                None => Some(t),
            },
            XmlNodeView::Element(_) => rest,
        }
    }
}

/// Elements seen as nodes.
pub open spec fn element_nodes(elements: Seq<XmlElementView>) -> Seq<XmlNodeView> {
    elements.map_values(|c: XmlElementView| XmlNodeView::Element(c))
}

/// Appending an element appends its node.
pub broadcast proof fn lemma_element_nodes_push(elements: Seq<XmlElementView>, e: XmlElementView)
    ensures
        #[trigger] element_nodes(elements.push(e)) == element_nodes(elements).push(XmlNodeView::Element(e)),
{
    assert(element_nodes(elements.push(e)) =~= element_nodes(elements).push(XmlNodeView::Element(e)));
}

/// The nodes of two sequences of elements are the nodes of the first, then of the second.
pub broadcast proof fn lemma_element_nodes_concat(a: Seq<XmlElementView>, b: Seq<XmlElementView>)
    ensures
        #[trigger] element_nodes(a + b) == element_nodes(a) + element_nodes(b),
{
    assert(element_nodes(a + b) =~= element_nodes(a) + element_nodes(b));
}

/// The attribute found after an append: the one found before, else the appended one.
pub broadcast proof fn lemma_attr_value_push(attrs: Seq<(Seq<char>, Seq<char>)>, a: (Seq<char>, Seq<char>), key: Seq<char>)
    ensures
        #[trigger] attr_value(attrs.push(a), key) == match attr_value(attrs, key) {
            Some(v) => Some(v),
            None => if a.0 == key {
                Some(a.1)
            } else {
                None
            },
        },
{
    assert(attrs.push(a).drop_last() =~= attrs);
}

/// The attribute found in two sequences: the one found in the first, else in the second.
pub broadcast proof fn lemma_attr_value_concat(a: Seq<(Seq<char>, Seq<char>)>, b: Seq<(Seq<char>, Seq<char>)>, key: Seq<char>)
    ensures
        #[trigger] attr_value(a + b, key) == match attr_value(a, key) {
            Some(v) => Some(v),
            None => attr_value(b, key),
        },
    decreases b.len(),
{
    if b.len() == 0 {
        assert(a + b =~= a);
    } else {
        assert((a + b).drop_last() =~= a + b.drop_last());
        lemma_attr_value_concat(a, b.drop_last(), key);
    }
}

/// The child found after an append: the one found before, else the appended node if it
/// is an element of that name.
pub broadcast proof fn lemma_child_element_push(children: Seq<XmlNodeView>, n: XmlNodeView, key: Seq<char>)
    ensures
        #[trigger] child_element(children.push(n), key) == match child_element(children, key) {
            Some(e) => Some(e),
            None => match n {
                XmlNodeView::Element(e) => if e.name == key {
                    Some(e)
                } else {
                    None
                },
                XmlNodeView::Text(_) => None,
            },
        },
{
    assert(children.push(n).drop_last() =~= children);
}

/// The child found in two sequences: the one found in the first, else in the second.
pub broadcast proof fn lemma_child_element_concat(a: Seq<XmlNodeView>, b: Seq<XmlNodeView>, key: Seq<char>)
    ensures
        #[trigger] child_element(a + b, key) == match child_element(a, key) {
            Some(e) => Some(e),
            None => child_element(b, key),
        },
    decreases b.len(),
{
    if b.len() == 0 {
        assert(a + b =~= a);
    } else {
        assert((a + b).drop_last() =~= a + b.drop_last());
        lemma_child_element_concat(a, b.drop_last(), key);
    }
}

/// The elements among nodes made of elements are those elements.
pub proof fn lemma_element_children_of_nodes(elements: Seq<XmlElementView>)
    ensures
        element_children(element_nodes(elements)) == elements,
    decreases elements.len(),
{
    if elements.len() > 0 {
        assert(element_nodes(elements).drop_last() =~= element_nodes(elements.drop_last()));
        lemma_element_children_of_nodes(elements.drop_last());
        assert(elements.drop_last().push(elements.last()) =~= elements);
    } else {
        assert(element_nodes(elements) =~= Seq::<XmlNodeView>::empty());
    }
}

/// The elements of one name among nodes made of elements of that name are those elements.
pub proof fn lemma_children_named_of_nodes(elements: Seq<XmlElementView>, key: Seq<char>)
    requires
        forall|i: int| 0 <= i < elements.len() ==> #[trigger] elements[i].name == key,
    ensures
        children_named(element_nodes(elements), key) == elements,
    decreases elements.len(),
{
    if elements.len() > 0 {
        assert(element_nodes(elements).drop_last() =~= element_nodes(elements.drop_last()));
        lemma_children_named_of_nodes(elements.drop_last(), key);
        assert(elements.drop_last().push(elements.last()) =~= elements);
        assert(elements[elements.len() - 1].name == key);
    } else {
        assert(element_nodes(elements) =~= Seq::<XmlNodeView>::empty());
    }
}

/// The text of a value in an element, in a style.
pub open spec fn lookup(e: XmlElementView, key: Seq<char>, style: ValueStyle) -> Option<Seq<char>> {
    match style {
        ValueStyle::Attribute => attr_value(e.attributes, key),
        ValueStyle::Child => match child_element(e.children, key) {
            Some(c) => Some(first_text(c.children)),
            None => None,
        },
    }
}

/// The error for a value missing from an element.
pub open spec fn missing(e: XmlElementView, key: Seq<char>, style: ValueStyle) -> ErrorView {
    match style {
        ValueStyle::Attribute => ErrorView::MissingAttribute(e.name, key),
        ValueStyle::Child => ErrorView::MissingChild(e.name, key),
    }
}

/// What reading a required value gives.
pub open spec fn spec_parse_value<T: XmlValue>(e: XmlElementView, key: Seq<char>, style: ValueStyle) -> Result<
    T,
    ErrorView,
> {
    match lookup(e, key, style) {
        Some(text) => T::spec_from_text(text),
        None => Err(missing(e, key, style)),
    }
}

/// What reading an optional value gives.
pub open spec fn spec_parse_opt_value<T: XmlValue>(e: XmlElementView, key: Seq<char>, style: ValueStyle) -> Result<
    Option<T>,
    ErrorView,
> {
    match lookup(e, key, style) {
        Some(text) => match T::spec_from_text(text) {
            Ok(v) => Ok(Some(v)),
            Err(err) => Err(err),
        },
        None => Ok(None),
    }
}

/// What reading a required text gives.
pub open spec fn spec_text_value(e: XmlElementView, key: Seq<char>, style: ValueStyle) -> Result<
    Seq<char>,
    ErrorView,
> {
    match lookup(e, key, style) {
        Some(text) => Ok(text),
        None => Err(missing(e, key, style)),
    }
}

/// The views of the nodes are the nodes seen one by one.
pub proof fn lemma_nodes_view(nodes: Seq<XmlNode>)
    ensures
        nodes_view(nodes).len() == nodes.len(),
        forall|i: int| 0 <= i < nodes.len() ==> #[trigger] nodes_view(nodes)[i] == node_view(nodes[i]),
    decreases nodes.len(),
{
    if nodes.len() > 0 {
        lemma_nodes_view(nodes.drop_last());
    }
}

/// Finds the value of the first attribute with that name.
pub fn get_opt_attribute<'a>(e: &'a XmlElement, key: &str) -> (r: Option<&'a String>)
    ensures
        match attr_value(element_view(*e).attributes, key@) {
            Some(v) => r matches Some(s) && s@ == v,
            None => r is None,
        },
{
    let ghost attrs = element_view(*e).attributes;
    let mut i: usize = 0;
    assert(attrs.subrange(0, 0) =~= Seq::<(Seq<char>, Seq<char>)>::empty());
    while i < e.attributes.len()
        invariant
            i <= e.attributes@.len(),
            attrs == e.attributes@.map_values(|a: XmlAttribute| attribute_view(a)),
            attr_value(attrs.subrange(0, i as int), key@) is None,
        decreases e.attributes.len() - i,
    {
        assert(attrs.subrange(0, i + 1).drop_last() =~= attrs.subrange(0, i as int));
        assert(attrs.subrange(0, i + 1).last() == attribute_view(e.attributes@[i as int]));
        if str_eq(e.attributes[i].name.as_str(), key) {
            proof {
                lemma_attr_value_prefix(attrs, (i + 1) as int, key@);
            }
            return Some(&e.attributes[i].value);
        }
        i = i + 1;
    }
    assert(attrs.subrange(0, i as int) =~= attrs);
    None
}

proof fn lemma_attr_value_prefix(attrs: Seq<(Seq<char>, Seq<char>)>, k: int, key: Seq<char>)
    requires
        0 <= k <= attrs.len(),
        attr_value(attrs.subrange(0, k), key) is Some,
    ensures
        attr_value(attrs, key) == attr_value(attrs.subrange(0, k), key),
    decreases attrs.len() - k,
{
    if k == attrs.len() {
        assert(attrs.subrange(0, k) =~= attrs);
    } else {
        assert(attrs.subrange(0, k + 1).drop_last() =~= attrs.subrange(0, k));
        lemma_attr_value_prefix(attrs, k + 1, key);
    }
}

proof fn lemma_child_element_prefix(children: Seq<XmlNodeView>, k: int, key: Seq<char>)
    requires
        0 <= k <= children.len(),
        child_element(children.subrange(0, k), key) is Some,
    ensures
        child_element(children, key) == child_element(children.subrange(0, k), key),
    decreases children.len() - k,
{
    if k == children.len() {
        assert(children.subrange(0, k) =~= children);
    } else {
        assert(children.subrange(0, k + 1).drop_last() =~= children.subrange(0, k));
        lemma_child_element_prefix(children, k + 1, key);
    }
}

/// Finds the first child element with that name.
pub fn get_opt_children_element<'a>(e: &'a XmlElement, key: &str) -> (r: Option<&'a XmlElement>)
    ensures
        match child_element(element_view(*e).children, key@) {
            Some(c) => r matches Some(x) && element_view(*x) == c,
            None => r is None,
        },
{
    let ghost views = element_view(*e).children;
    proof {
        lemma_nodes_view(e.children@);
    }
    let mut i: usize = 0;
    assert(views.subrange(0, 0) =~= Seq::<XmlNodeView>::empty());
    while i < e.children.len()
        invariant
            i <= e.children@.len(),
            views == nodes_view(e.children@),
            views.len() == e.children@.len(),
            forall|j: int| 0 <= j < e.children@.len() ==> #[trigger] views[j] == node_view(e.children@[j]),
            child_element(views.subrange(0, i as int), key@) is None,
        decreases e.children.len() - i,
    {
        assert(views.subrange(0, i + 1).drop_last() =~= views.subrange(0, i as int));
        assert(views.subrange(0, i + 1).last() == views[i as int]);
        match &e.children[i] {
            XmlNode::Element(c) => {
                if str_eq(c.name.as_str(), key) {
                    proof {
                        lemma_child_element_prefix(views, (i + 1) as int, key@);
                    }
                    return Some(c);
                }
            },
            XmlNode::Text(_) => {},
        }
        i = i + 1;
    }
    assert(views.subrange(0, i as int) =~= views);
    None
}

/// The child elements with that name, in order.
pub fn get_all_children_element_with_name<'a>(e: &'a XmlElement, key: &str) -> (r: Vec<&'a XmlElement>)
    ensures
        r@.len() == children_named(element_view(*e).children, key@).len(),
        forall|j: int| 0 <= j < r@.len() ==> element_view(*r@[j]) == #[trigger] children_named(
            element_view(*e).children,
            key@,
        )[j],
{
    let ghost views = element_view(*e).children;
    proof {
        lemma_nodes_view(e.children@);
    }
    let mut r: Vec<&'a XmlElement> = Vec::new();
    let mut i: usize = 0;
    assert(views.subrange(0, 0) =~= Seq::<XmlNodeView>::empty());
    while i < e.children.len()
        invariant
            i <= e.children@.len(),
            views == nodes_view(e.children@),
            views.len() == e.children@.len(),
            forall|j: int| 0 <= j < e.children@.len() ==> #[trigger] views[j] == node_view(e.children@[j]),
            r@.len() == children_named(views.subrange(0, i as int), key@).len(),
            forall|j: int| 0 <= j < r@.len() ==> element_view(*r@[j]) == #[trigger] children_named(
                views.subrange(0, i as int),
                key@,
            )[j],
        decreases e.children.len() - i,
    {
        assert(views.subrange(0, i + 1).drop_last() =~= views.subrange(0, i as int));
        assert(views.subrange(0, i + 1).last() == views[i as int]);
        match &e.children[i] {
            XmlNode::Element(c) => {
                if str_eq(c.name.as_str(), key) {
                    r.push(c);
                }
            },
            XmlNode::Text(_) => {},
        }
        i = i + 1;
    }
    assert(views.subrange(0, i as int) =~= views);
    r
}

/// The child elements, in order.
pub fn get_element_children<'a>(e: &'a XmlElement) -> (r: Vec<&'a XmlElement>)
    ensures
        r@.len() == element_children(element_view(*e).children).len(),
        forall|j: int| 0 <= j < r@.len() ==> element_view(*r@[j]) == #[trigger] element_children(
            element_view(*e).children,
        )[j],
{
    let ghost views = element_view(*e).children;
    proof {
        lemma_nodes_view(e.children@);
    }
    let mut r: Vec<&'a XmlElement> = Vec::new();
    let mut i: usize = 0;
    assert(views.subrange(0, 0) =~= Seq::<XmlNodeView>::empty());
    while i < e.children.len()
        invariant
            i <= e.children@.len(),
            views == nodes_view(e.children@),
            views.len() == e.children@.len(),
            forall|j: int| 0 <= j < e.children@.len() ==> #[trigger] views[j] == node_view(e.children@[j]),
            r@.len() == element_children(views.subrange(0, i as int)).len(),
            forall|j: int| 0 <= j < r@.len() ==> element_view(*r@[j]) == #[trigger] element_children(
                views.subrange(0, i as int),
            )[j],
        decreases e.children.len() - i,
    {
        assert(views.subrange(0, i + 1).drop_last() =~= views.subrange(0, i as int));
        assert(views.subrange(0, i + 1).last() == views[i as int]);
        match &e.children[i] {
            XmlNode::Element(c) => {
                r.push(c);
            },
            XmlNode::Text(_) => {},
        }
        i = i + 1;
    }
    assert(views.subrange(0, i as int) =~= views);
    r
}

/// The first text child, or the empty text.
pub fn get_first_text(e: &XmlElement) -> (r: &str)
    ensures
        r@ == first_text(element_view(*e).children),
{
    let ghost views = element_view(*e).children;
    proof {
        lemma_nodes_view(e.children@);
    }
    let mut i: usize = 0;
    assert(views.subrange(0, views.len() as int) =~= views);
    while i < e.children.len()
        invariant
            i <= e.children@.len(),
            views.len() == e.children@.len(),
            forall|j: int| 0 <= j < e.children@.len() ==> #[trigger] views[j] == node_view(e.children@[j]),
            first_text(element_view(*e).children) == first_text(views.subrange(i as int, views.len() as int)),
            views == element_view(*e).children,
        decreases e.children.len() - i,
    {
        let ghost rest = views.subrange(i as int, views.len() as int);
        assert(rest.drop_first() =~= views.subrange(i + 1, views.len() as int));
        assert(rest[0] == views[i as int]);
        match &e.children[i] {
            XmlNode::Text(t) => {
                return t.as_str();
            },
            XmlNode::Element(_) => {},
        }
        i = i + 1;
    }
    proof {
        reveal_strlit("");
        assert(views.subrange(i as int, views.len() as int) =~= Seq::<XmlNodeView>::empty());
        assert(""@ =~= Seq::<char>::empty());
    }
    ""
}

/// Every text child concatenated; `None` when there is none.
pub fn get_text(e: &XmlElement) -> (r: Option<String>)
    ensures
        r.deep_view() == all_text(element_view(*e).children),
{
    let ghost views = element_view(*e).children;
    proof {
        lemma_nodes_view(e.children@);
    }
    let mut r: Option<String> = None;
    let mut i: usize = 0;
    assert(views.subrange(0, 0) =~= Seq::<XmlNodeView>::empty());
    while i < e.children.len()
        invariant
            i <= e.children@.len(),
            views == element_view(*e).children,
            views.len() == e.children@.len(),
            forall|j: int| 0 <= j < e.children@.len() ==> #[trigger] views[j] == node_view(e.children@[j]),
            r.deep_view() == all_text(views.subrange(0, i as int)),
        decreases e.children.len() - i,
    {
        assert(views.subrange(0, i + 1).drop_last() =~= views.subrange(0, i as int));
        assert(views.subrange(0, i + 1).last() == views[i as int]);
        match &e.children[i] {
            XmlNode::Text(t) => {
                r = match r {
                    Some(mut s) => {
                        vstd::string::StringExecFns::append(&mut s, t.as_str());
                        Some(s)
                    },
                    None => Some(t.clone()),
                };
            },
            XmlNode::Element(_) => {},
        }
        i = i + 1;
    }
    assert(views.subrange(0, i as int) =~= views);
    r
}

/// The text of a value in an element, in a style.
pub fn get_value<'a>(e: &'a XmlElement, key: &str, style: ValueStyle) -> (r: Option<&'a str>)
    ensures
        match lookup(element_view(*e), key@, style) {
            Some(v) => r matches Some(s) && s@ == v,
            None => r is None,
        },
{
    match style {
        ValueStyle::Attribute => match get_opt_attribute(e, key) {
            Some(v) => Some(v.as_str()),
            None => None,
        },
        ValueStyle::Child => match get_opt_children_element(e, key) {
            Some(c) => Some(get_first_text(c)),
            None => None,
        },
    }
}

/// The error for a value missing from an element.
pub fn missing_error(e: &XmlElement, key: &str, style: ValueStyle) -> (r: SerializationError)
    ensures
        r@ == missing(element_view(*e), key@, style),
{
    match style {
        ValueStyle::Attribute => SerializationError::MissingAttribute(e.name.clone(), owned_text(key)),
        ValueStyle::Child => SerializationError::MissingChild(e.name.clone(), owned_text(key)),
    }
}

/// Reads a required value.
pub fn parse_value<T: XmlValue>(e: &XmlElement, key: &str, style: ValueStyle) -> (r: Result<T, SerializationError>)
    ensures
        result_view(r) == spec_parse_value::<T>(element_view(*e), key@, style),
{
    match get_value(e, key, style) {
        Some(text) => T::from_text(text),
        None => Err(missing_error(e, key, style)),
    }
}

/// Reads an optional value.
pub fn parse_opt_value<T: XmlValue>(e: &XmlElement, key: &str, style: ValueStyle) -> (r: Result<
    Option<T>,
    SerializationError,
>)
    ensures
        result_view(r) == spec_parse_opt_value::<T>(element_view(*e), key@, style),
{
    match get_value(e, key, style) {
        Some(text) => match T::from_text(text) {
            Ok(v) => Ok(Some(v)),
            Err(err) => Err(err),
        },
        None => Ok(None),
    }
}

/// Reads a required text.
pub fn text_value(e: &XmlElement, key: &str, style: ValueStyle) -> (r: Result<String, SerializationError>)
    ensures
        match spec_text_value(element_view(*e), key@, style) {
            Ok(t) => r matches Ok(s) && s@ == t,
            Err(err) => r matches Err(f) && f@ == err,
        },
{
    match get_value(e, key, style) {
        Some(text) => Ok(owned_text(text)),
        None => Err(missing_error(e, key, style)),
    }
}

impl XmlElement {
    /// An element with no attribute and no child.
    pub fn new(name: &str) -> (r: Self)
        ensures
            element_view(r) == (XmlElementView { name: name@, attributes: Seq::empty(), children: Seq::empty() }),
    {
        let r = XmlElement { name: owned_text(name), attributes: Vec::new(), children: Vec::new() };
        assert(element_view(r).attributes =~= Seq::<(Seq<char>, Seq<char>)>::empty());
        assert(element_view(r).children =~= Seq::<XmlNodeView>::empty());
        r
    }

    /// Appends an attribute.
    pub fn push_attribute(&mut self, name: &str, value: String)
        ensures
            element_view(*final(self)) == (XmlElementView {
                attributes: element_view(*old(self)).attributes.push((name@, value@)),
                ..element_view(*old(self))
            }),
    {
        self.attributes.push(XmlAttribute { name: owned_text(name), value });
        assert(element_view(*self).attributes =~= element_view(*old(self)).attributes.push((name@, value@)));
    }

    /// Appends a child element.
    pub fn push_child(&mut self, child: XmlElement)
        ensures
            element_view(*final(self)) == (XmlElementView {
                children: element_view(*old(self)).children.push(XmlNodeView::Element(element_view(child))),
                ..element_view(*old(self))
            }),
    {
        let ghost c = child;
        self.children.push(XmlNode::Element(child));
        assert(self.children@.drop_last() =~= old(self).children@);
        assert(element_view(*self).children =~= element_view(*old(self)).children.push(
            XmlNodeView::Element(element_view(c)),
        ));
    }

    /// Appends a text.
    pub fn push_text(&mut self, text: String)
        ensures
            element_view(*final(self)) == (XmlElementView {
                children: element_view(*old(self)).children.push(XmlNodeView::Text(text@)),
                ..element_view(*old(self))
            }),
    {
        let ghost t = text;
        self.children.push(XmlNode::Text(text));
        assert(self.children@.drop_last() =~= old(self).children@);
        assert(element_view(*self).children =~= element_view(*old(self)).children.push(XmlNodeView::Text(t@)));
    }
}

/// Appends an attribute holding a value.
pub fn push_value<T: XmlValue>(e: &mut XmlElement, name: &str, value: &T)
    ensures
        element_view(*final(e)) == (XmlElementView {
            attributes: element_view(*old(e)).attributes.push((name@, value.spec_to_text())),
            ..element_view(*old(e))
        }),
{
    e.push_attribute(name, value.to_text());
}

/// Appends an attribute holding a value, if there is one.
pub fn push_opt_value<T: XmlValue>(e: &mut XmlElement, name: &str, value: &Option<T>)
    ensures
        element_view(*final(e)) == (XmlElementView {
            attributes: match value {
                Some(v) => element_view(*old(e)).attributes.push((name@, v.spec_to_text())),
                None => element_view(*old(e)).attributes,
            },
            ..element_view(*old(e))
        }),
{
    match value {
        Some(v) => push_value(e, name, v),
        None => {},
    }
}

} // verus!
