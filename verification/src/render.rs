//! The render plan: the DOM operations that materialise a DOM description,
//! in the order in which they are to be carried out. A node is built detached
//! from the page; the page changes only at the end of the plan, when the
//! container is emptied and the finished node is put into it. A plan that
//! fails before that leaves the page as it was.

use vstd::prelude::*;
use crate::tags::{discriminant_InternalAttr, discriminant_InternalHtml};
use crate::text::{decimal_text, spec_decimal};
use crate::values::{
    lemma_children_view, ElementView, InternalAttr, InternalAttrView, InternalHtml,
    InternalHtmlElementFields, InternalHtmlView, RocFunction,
};
use vstd::string::StringExecFns;

verus! {

/// One operation on the live DOM. Operations act on the element that was
/// opened last and is not closed yet; before any is opened, on the container.
#[derive(Clone, Debug, PartialEq, Eq)]
pub enum DomOp {
    /// Remove everything the container holds, whatever element is current.
    ClearChildren,
    /// Create a text node and append it to the current element.
    AppendText(String),
    /// Create an element with this tag, attached to nothing, and make it the
    /// current element.
    OpenElement(String),
    /// Set a DOM attribute of the current element.
    SetAttribute { name: String, value: String },
    /// If the current element is an input, set its live value.
    SetInputValue(String),
    /// If the current element is an input, set its live checked state.
    SetInputChecked(bool),
    /// Register a listener on the current element that calls the closure
    /// with the event and feeds the message it returns into the update cycle.
    AddEventListener { event_type: String, callback: RocFunction },
    /// Append the current element to its parent, which becomes current
    /// again: to the element opened before it or, if there is none, to the
    /// container.
    CloseElement,
}

/// A DOM operation as a mathematical value.
pub ghost enum DomOpView {
    ClearChildren,
    AppendText(Seq<char>),
    OpenElement(Seq<char>),
    SetAttribute { name: Seq<char>, value: Seq<char> },
    SetInputValue(Seq<char>),
    SetInputChecked(bool),
    AddEventListener { event_type: Seq<char>, callback: Seq<u8> },
    CloseElement,
}

impl DeepView for DomOp {
    type V = DomOpView;

    open spec fn deep_view(&self) -> DomOpView {
        match *self {
            DomOp::ClearChildren => DomOpView::ClearChildren,
            DomOp::AppendText(text) => DomOpView::AppendText(text@),
            DomOp::OpenElement(tag) => DomOpView::OpenElement(tag@),
            DomOp::SetAttribute { name, value } => DomOpView::SetAttribute {
                name: name@,
                value: value@,
            },
            DomOp::SetInputValue(value) => DomOpView::SetInputValue(value@),
            DomOp::SetInputChecked(checked) => DomOpView::SetInputChecked(checked),
            DomOp::AddEventListener { event_type, callback } => DomOpView::AddEventListener {
                event_type: event_type@,
                callback: callback@,
            },
            DomOp::CloseElement => DomOpView::CloseElement,
        }
    }
}

/// The operations of an attribute that carries a text.
pub open spec fn spec_text_attribute(name: Seq<char>, value: Seq<char>) -> Seq<DomOpView> {
    seq![DomOpView::SetAttribute { name, value }]
}

/// The operations of a boolean attribute: present with an empty value when
/// set, absent otherwise.
pub open spec fn spec_flag_attribute(name: Seq<char>, on: bool) -> Seq<DomOpView> {
    if on {
        seq![DomOpView::SetAttribute { name, value: Seq::<char>::empty() }]
    } else {
        Seq::<DomOpView>::empty()
    }
}

/// The operations that apply one attribute to the current element.
pub open spec fn spec_attribute_ops(attr: InternalAttrView) -> Seq<DomOpView> {
    match attr {
        InternalAttrView::Id(v) => spec_text_attribute("id"@, v),
        InternalAttrView::Class(v) => spec_text_attribute("class"@, v),
        InternalAttrView::Value(v) => seq![
            DomOpView::SetAttribute { name: "value"@, value: v },
            DomOpView::SetInputValue(v),
        ],
        InternalAttrView::Placeholder(v) => spec_text_attribute("placeholder"@, v),
        InternalAttrView::Type(v) => spec_text_attribute("type"@, v),
        InternalAttrView::Name(v) => spec_text_attribute("name"@, v),
        InternalAttrView::Href(v) => spec_text_attribute("href"@, v),
        InternalAttrView::Src(v) => spec_text_attribute("src"@, v),
        InternalAttrView::Alt(v) => spec_text_attribute("alt"@, v),
        InternalAttrView::Title(v) => spec_text_attribute("title"@, v),
        InternalAttrView::Style(v) => spec_text_attribute("style"@, v),
        InternalAttrView::Autocomplete(v) => spec_text_attribute("autocomplete"@, v),
        InternalAttrView::Tabindex(v) => spec_text_attribute("tabindex"@, spec_decimal(v)),
        InternalAttrView::Disabled(on) => spec_flag_attribute("disabled"@, on),
        InternalAttrView::Checked(on) => if on {
            seq![
                DomOpView::SetAttribute { name: "checked"@, value: Seq::<char>::empty() },
                DomOpView::SetInputChecked(true),
            ]
        } else {
            Seq::<DomOpView>::empty()
        },
        InternalAttrView::Selected(on) => spec_flag_attribute("selected"@, on),
        InternalAttrView::Hidden(on) => spec_flag_attribute("hidden"@, on),
        InternalAttrView::Readonly(on) => spec_flag_attribute("readonly"@, on),
        InternalAttrView::Required(on) => spec_flag_attribute("required"@, on),
        InternalAttrView::Multiple(on) => spec_flag_attribute("multiple"@, on),
        InternalAttrView::DataAttribute(pair) => spec_text_attribute("data-"@ + pair.f0, pair.f1),
        InternalAttrView::Attribute(pair) => spec_text_attribute(pair.f0, pair.f1),
        InternalAttrView::OnEvent(event) => seq![
            DomOpView::AddEventListener { event_type: event.event_type, callback: event.callback },
        ],
    }
}

/// The operations of a list of attributes: those of each, in order.
pub open spec fn spec_attrs_ops(attrs: Seq<InternalAttrView>) -> Seq<DomOpView>
    decreases attrs.len(),
{
    if attrs.len() == 0 {
        Seq::<DomOpView>::empty()
    } else {
        spec_attrs_ops(attrs.drop_last()) + spec_attribute_ops(attrs.last())
    }
}

/// The operations that build one node under the current element.
pub open spec fn spec_node_ops(node: InternalHtmlView) -> Seq<DomOpView>
    decreases node,
{
    match node {
        InternalHtmlView::Text(text) => seq![DomOpView::AppendText(text)],
        InternalHtmlView::Element(fields) => spec_element_ops(fields),
    }
}

/// The operations that build an element: open it, apply its attributes,
/// build its children in order, and append it to its parent.
pub open spec fn spec_element_ops(fields: ElementView) -> Seq<DomOpView>
    decreases fields,
{
    seq![DomOpView::OpenElement(fields.tag)] + spec_attrs_ops(fields.attrs) + spec_children_ops(
        fields.children,
    ) + seq![DomOpView::CloseElement]
}

/// The operations that build a list of nodes, one after the other.
pub open spec fn spec_children_ops(children: Seq<InternalHtmlView>) -> Seq<DomOpView>
    decreases children,
{
    if children.len() == 0 {
        Seq::<DomOpView>::empty()
    } else {
        spec_children_ops(children.drop_last()) + spec_node_ops(children.last())
    }
}

/// How many elements are open after `ops` have been carried out with
/// `depth` elements open before them; `None` if the operations close an
/// element that is not open, or touch an attribute or a listener while no
/// element is open.
pub open spec fn spec_depth_after(ops: Seq<DomOpView>, depth: int) -> Option<int>
    decreases ops.len(),
{
    if ops.len() == 0 {
        Some(depth)
    } else {
        match spec_depth_after(ops.drop_last(), depth) {
            None => None,
            Some(open) => match ops.last() {
                DomOpView::OpenElement(_) => Some(open + 1),
                DomOpView::CloseElement => if open > 0 {
                    Some(open - 1)
                } else {
                    None
                },
                DomOpView::ClearChildren => Some(open),
                DomOpView::AppendText(_) => Some(open),
                _ => if open > 0 {
                    Some(open)
                } else {
                    None
                },
            },
        }
    }
}

/// Carrying out two plans one after the other leaves open what the second
/// leaves open, started where the first ended.
pub proof fn lemma_depth_after_concat(first: Seq<DomOpView>, second: Seq<DomOpView>, depth: int)
    ensures
        spec_depth_after(first + second, depth) == match spec_depth_after(first, depth) {
            Some(open) => spec_depth_after(second, open),
            None => None,
        },
    decreases second.len(),
{
    if second.len() == 0 {
        assert(first + second =~= first);
    } else {
        lemma_depth_after_concat(first, second.drop_last(), depth);
        assert((first + second).drop_last() =~= first + second.drop_last());
        assert((first + second).last() == second.last());
    }
}

/// Applying an attribute inside an open element opens and closes nothing.
proof fn lemma_attribute_keeps_depth(attr: InternalAttrView, depth: int)
    requires
        depth > 0,
    ensures
        spec_depth_after(spec_attribute_ops(attr), depth) == Some(depth),
{
    let ops = spec_attribute_ops(attr);
    reveal_with_fuel(spec_depth_after, 3);
    if ops.len() == 2 {
        assert(ops.drop_last().len() == 1);
        assert(ops.drop_last().drop_last().len() == 0);
    } else if ops.len() == 1 {
        assert(ops.drop_last().len() == 0);
    }
}

/// Applying a list of attributes inside an open element opens and closes
/// nothing.
proof fn lemma_attrs_keep_depth(attrs: Seq<InternalAttrView>, depth: int)
    requires
        depth > 0,
    ensures
        spec_depth_after(spec_attrs_ops(attrs), depth) == Some(depth),
    decreases attrs.len(),
{
    if attrs.len() > 0 {
        lemma_attrs_keep_depth(attrs.drop_last(), depth);
        lemma_attribute_keeps_depth(attrs.last(), depth);
        lemma_depth_after_concat(
            spec_attrs_ops(attrs.drop_last()),
            spec_attribute_ops(attrs.last()),
            depth,
        );
    }
}

/// The plan of a node is balanced: it closes every element it opens and no
/// other, and applies attributes and listeners only inside an element it has
/// opened. Carried out with any number of elements open, it leaves as many
/// open.
pub proof fn lemma_node_plan_is_balanced(node: InternalHtmlView, depth: int)
    requires
        depth >= 0,
    ensures
        spec_depth_after(spec_node_ops(node), depth) == Some(depth),
    decreases node, 1int,
{
    match node {
        InternalHtmlView::Text(text) => {
            reveal_with_fuel(spec_depth_after, 2);
            assert(spec_node_ops(node).drop_last().len() == 0);
        },
        InternalHtmlView::Element(fields) => {
            let open = seq![DomOpView::OpenElement(fields.tag)];
            let attrs = spec_attrs_ops(fields.attrs);
            let children = spec_children_ops(fields.children);
            let close = seq![DomOpView::CloseElement];
            reveal_with_fuel(spec_depth_after, 2);
            assert(open.drop_last().len() == 0);
            assert(close.drop_last().len() == 0);
            assert(spec_depth_after(open, depth) == Some(depth + 1));
            assert(spec_depth_after(close, depth + 1) == Some(depth));
            lemma_attrs_keep_depth(fields.attrs, depth + 1);
            lemma_children_plan_is_balanced(fields.children, depth + 1);
            lemma_depth_after_concat(open, attrs, depth);
            lemma_depth_after_concat(open + attrs, children, depth);
            lemma_depth_after_concat(open + attrs + children, close, depth);
        },
    }
}

/// The plan of a list of nodes is balanced.
pub proof fn lemma_children_plan_is_balanced(children: Seq<InternalHtmlView>, depth: int)
    requires
        depth >= 0,
    ensures
        spec_depth_after(spec_children_ops(children), depth) == Some(depth),
    decreases children, 0int,
{
    if children.len() > 0 {
        lemma_children_plan_is_balanced(children.drop_last(), depth);
        lemma_node_plan_is_balanced(children.last(), depth);
        lemma_depth_after_concat(
            spec_children_ops(children.drop_last()),
            spec_node_ops(children.last()),
            depth,
        );
    }
}

/// The plan of a whole render: the operations of the node, with the clearing
/// of the container put directly before the last of them, which is the one
/// that puts the node into the container.
pub open spec fn spec_render_plan(node: InternalHtmlView) -> Seq<DomOpView> {
    let ops = spec_node_ops(node);
    ops.drop_last() + seq![DomOpView::ClearChildren] + seq![ops.last()]
}

/// Whether an operation, carried out with `open` elements open, changes what
/// the container holds: the clearing does, an appended text does when no
/// element is open, and a close does when it closes the outermost element.
pub open spec fn spec_touches_container(op: DomOpView, open: int) -> bool {
    match op {
        DomOpView::ClearChildren => true,
        DomOpView::AppendText(_) => open == 0,
        DomOpView::CloseElement => open == 1,
        _ => false,
    }
}

/// Whether `ops`, carried out with `depth` elements open before them, can
/// all be carried out and none of them changes what the container holds.
pub open spec fn spec_detached(ops: Seq<DomOpView>, depth: int) -> bool
    decreases ops.len(),
{
    ops.len() == 0 || (spec_detached(ops.drop_last(), depth) && match spec_depth_after(
        ops.drop_last(),
        depth,
    ) {
        Some(open) => !spec_touches_container(ops.last(), open) && spec_depth_after(ops, depth)
            is Some,
        None => false,
    })
}

/// Two plans that leave the container alone, the second started where the
/// first ended, leave it alone when carried out one after the other.
proof fn lemma_detached_concat(first: Seq<DomOpView>, second: Seq<DomOpView>, depth: int, mid: int)
    requires
        spec_detached(first, depth),
        spec_depth_after(first, depth) == Some(mid),
        spec_detached(second, mid),
    ensures
        spec_detached(first + second, depth),
    decreases second.len(),
{
    if second.len() == 0 {
        assert(first + second =~= first);
    } else {
        lemma_detached_concat(first, second.drop_last(), depth, mid);
        lemma_depth_after_concat(first, second.drop_last(), depth);
        lemma_depth_after_concat(first, second, depth);
        assert((first + second).drop_last() =~= first + second.drop_last());
        assert((first + second).last() == second.last());
    }
}

/// Operations that leave the container alone keep at least one element open
/// once one is open, and open one first if none is.
proof fn lemma_detached_keeps_open(ops: Seq<DomOpView>, depth: int)
    requires
        depth >= 0,
        spec_detached(ops, depth),
        ops.len() >= 1 || depth >= 1,
    ensures
        spec_depth_after(ops, depth) matches Some(open) && open >= 1,
    decreases ops.len(),
{
    if ops.len() > 0 {
        let before = ops.drop_last();
        if before.len() >= 1 || depth >= 1 {
            lemma_detached_keeps_open(before, depth);
        }
    }
}

/// In a plan that leaves the container alone, every operation finds its
/// predecessors carried out and does not change the container; every one but
/// the first finds at least one element open.
proof fn lemma_detached_at(ops: Seq<DomOpView>, depth: int, i: int)
    requires
        depth >= 0,
        spec_detached(ops, depth),
        0 <= i < ops.len(),
    ensures
        spec_depth_after(ops.take(i), depth) matches Some(open) && !spec_touches_container(
            ops[i],
            open,
        ) && (i >= 1 || depth >= 1 ==> open >= 1),
    decreases ops.len(),
{
    if i == ops.len() - 1 {
        assert(ops.take(i) =~= ops.drop_last());
        if i >= 1 || depth >= 1 {
            lemma_detached_keeps_open(ops.drop_last(), depth);
        }
    } else {
        lemma_detached_at(ops.drop_last(), depth, i);
        assert(ops.take(i) =~= ops.drop_last().take(i));
    }
}

/// Applying an attribute inside an open element leaves the container alone.
proof fn lemma_attribute_detached(attr: InternalAttrView, depth: int)
    requires
        depth > 0,
    ensures
        spec_detached(spec_attribute_ops(attr), depth),
{
    let ops = spec_attribute_ops(attr);
    reveal_with_fuel(spec_depth_after, 3);
    reveal_with_fuel(spec_detached, 3);
    if ops.len() == 2 {
        assert(ops.drop_last().len() == 1);
        assert(ops.drop_last().drop_last().len() == 0);
    } else if ops.len() == 1 {
        assert(ops.drop_last().len() == 0);
    }
}

/// Applying a list of attributes inside an open element leaves the
/// container alone.
proof fn lemma_attrs_detached(attrs: Seq<InternalAttrView>, depth: int)
    requires
        depth > 0,
    ensures
        spec_detached(spec_attrs_ops(attrs), depth),
    decreases attrs.len(),
{
    if attrs.len() > 0 {
        lemma_attrs_detached(attrs.drop_last(), depth);
        lemma_attrs_keep_depth(attrs.drop_last(), depth);
        lemma_attribute_detached(attrs.last(), depth);
        lemma_detached_concat(
            spec_attrs_ops(attrs.drop_last()),
            spec_attribute_ops(attrs.last()),
            depth,
            depth,
        );
    }
}

/// The operations of an element but the last: it is opened, its attributes
/// are applied and its children are built.
pub open spec fn spec_element_body_ops(fields: ElementView) -> Seq<DomOpView> {
    seq![DomOpView::OpenElement(fields.tag)] + spec_attrs_ops(fields.attrs) + spec_children_ops(
        fields.children,
    )
}

/// Opening an element, applying its attributes and building its children
/// leaves the container alone, however many elements are open, and leaves
/// one more element open.
proof fn lemma_element_body_detached(fields: ElementView, depth: int)
    requires
        depth >= 0,
    ensures
        spec_detached(spec_element_body_ops(fields), depth),
        spec_depth_after(spec_element_body_ops(fields), depth) == Some(depth + 1),
    decreases fields, 0int,
{
    let open = seq![DomOpView::OpenElement(fields.tag)];
    let attrs = spec_attrs_ops(fields.attrs);
    let children = spec_children_ops(fields.children);
    reveal_with_fuel(spec_depth_after, 2);
    reveal_with_fuel(spec_detached, 2);
    assert(open.drop_last().len() == 0);
    assert(spec_depth_after(open, depth) == Some(depth + 1));
    assert(spec_detached(open, depth));
    lemma_attrs_detached(fields.attrs, depth + 1);
    lemma_attrs_keep_depth(fields.attrs, depth + 1);
    lemma_children_detached(fields.children, depth + 1);
    lemma_children_plan_is_balanced(fields.children, depth + 1);
    lemma_depth_after_concat(open, attrs, depth);
    lemma_detached_concat(open, attrs, depth, depth + 1);
    lemma_depth_after_concat(open + attrs, children, depth);
    lemma_detached_concat(open + attrs, children, depth, depth + 1);
}

/// Building a node inside an open element leaves the container alone.
proof fn lemma_node_detached(node: InternalHtmlView, depth: int)
    requires
        depth >= 1,
    ensures
        spec_detached(spec_node_ops(node), depth),
    decreases node, 1int,
{
    match node {
        InternalHtmlView::Text(text) => {
            reveal_with_fuel(spec_depth_after, 2);
            reveal_with_fuel(spec_detached, 2);
            assert(spec_node_ops(node).drop_last().len() == 0);
        },
        InternalHtmlView::Element(fields) => {
            let body = spec_element_body_ops(fields);
            let close = seq![DomOpView::CloseElement];
            lemma_element_body_detached(fields, depth);
            reveal_with_fuel(spec_depth_after, 2);
            reveal_with_fuel(spec_detached, 2);
            assert(close.drop_last().len() == 0);
            assert(spec_detached(close, depth + 1));
            lemma_detached_concat(body, close, depth, depth + 1);
        },
    }
}

/// Building a list of nodes inside an open element leaves the container
/// alone.
proof fn lemma_children_detached(children: Seq<InternalHtmlView>, depth: int)
    requires
        depth >= 1,
    ensures
        spec_detached(spec_children_ops(children), depth),
    decreases children, 0int,
{
    if children.len() > 0 {
        lemma_children_detached(children.drop_last(), depth);
        lemma_children_plan_is_balanced(children.drop_last(), depth);
        lemma_node_detached(children.last(), depth);
        lemma_detached_concat(
            spec_children_ops(children.drop_last()),
            spec_node_ops(children.last()),
            depth,
            depth,
        );
    }
}

/// The plan of a node is not empty. That of a text is the one operation
/// that appends it; that of an element ends with the operation that closes
/// it, behind the operations that open it, apply its attributes and build
/// its children.
pub proof fn lemma_node_ops_shape(node: InternalHtmlView)
    ensures
        spec_node_ops(node).len() >= 1,
        node matches InternalHtmlView::Text(text) ==> spec_node_ops(node) == seq![
            DomOpView::AppendText(text),
        ],
        node matches InternalHtmlView::Element(fields) ==> spec_node_ops(node).drop_last()
            == spec_element_body_ops(fields) && spec_node_ops(node).last()
            == DomOpView::CloseElement && spec_node_ops(node)[0] == DomOpView::OpenElement(
            fields.tag,
        ),
{
    match node {
        InternalHtmlView::Text(text) => {},
        InternalHtmlView::Element(fields) => {
            assert(spec_node_ops(node).drop_last() =~= spec_element_body_ops(fields));
        },
    }
}

/// The plan of a whole render starts and ends with no element open.
pub proof fn lemma_render_plan_is_balanced(node: InternalHtmlView)
    ensures
        spec_depth_after(spec_render_plan(node), 0) == Some(0int),
{
    let ops = spec_node_ops(node);
    let clear = seq![DomOpView::ClearChildren];
    let last = seq![ops.last()];
    lemma_node_ops_shape(node);
    reveal_with_fuel(spec_depth_after, 2);
    assert(clear.drop_last().len() == 0);
    assert(last.drop_last().len() == 0);
    match node {
        InternalHtmlView::Text(text) => {
            assert(ops.drop_last() =~= Seq::<DomOpView>::empty());
        },
        InternalHtmlView::Element(fields) => {
            lemma_element_body_detached(fields, 0);
        },
    }
    lemma_depth_after_concat(ops.drop_last(), clear, 0);
    lemma_depth_after_concat(ops.drop_last() + clear, last, 0);
}

/// A render leaves the page as it was until the new node is finished: the
/// clearing of the container is the last operation but one, and no operation
/// before it changes what the container holds. The first of them, if there
/// is any, opens the root; every later one acts with at least one element
/// open. A plan that fails before the clearing therefore fails with the
/// previous render still in place.
pub proof fn lemma_container_untouched_until_cleared(node: InternalHtmlView, i: int)
    requires
        0 <= i < spec_node_ops(node).len() - 1,
    ensures
        spec_render_plan(node).len() == spec_node_ops(node).len() + 1,
        spec_render_plan(node)[spec_node_ops(node).len() - 1] == DomOpView::ClearChildren,
        spec_render_plan(node).last() == spec_node_ops(node).last(),
        spec_render_plan(node)[i] == spec_node_ops(node)[i],
        i == 0 ==> spec_render_plan(node)[i] is OpenElement,
        spec_depth_after(spec_render_plan(node).take(i), 0) matches Some(open)
            && !spec_touches_container(spec_render_plan(node)[i], open) && (i >= 1 ==> open >= 1),
{
    let ops = spec_node_ops(node);
    let plan = spec_render_plan(node);
    lemma_node_ops_shape(node);
    match node {
        InternalHtmlView::Text(text) => {},
        InternalHtmlView::Element(fields) => {
            let body = spec_element_body_ops(fields);
            lemma_element_body_detached(fields, 0);
            lemma_detached_at(body, 0, i);
            assert(plan.take(i) =~= body.take(i));
            assert(plan[i] == body[i]);
        },
    }
}

/// Collects the render plan of one render pass.
#[derive(Clone, Debug, PartialEq, Eq)]
pub struct DomBuilder {
    pub ops: Vec<DomOp>,
}

impl DomBuilder {
    /// The plan so far, as a mathematical value.
    pub open spec fn plan(self) -> Seq<DomOpView> {
        self.ops.deep_view()
    }

    /// A builder with an empty plan.
    pub fn new() -> (r: Self)
        ensures
            r.plan() == Seq::<DomOpView>::empty(),
    {
        let r = DomBuilder { ops: Vec::new() };
        assert(r.plan() =~= Seq::<DomOpView>::empty());
        r
    }

    /// Appends one operation to the plan.
    fn push_op(&mut self, op: DomOp)
        ensures
            final(self).plan() == old(self).plan().push(op.deep_view()),
    {
        self.ops.push(op);
        assert(final(self).plan() =~= old(self).plan().push(op.deep_view()));
    }

    /// Appends the operation that sets a text attribute.
    fn push_text_attribute(&mut self, name: &str, value: &String)
        ensures
            final(self).plan() == old(self).plan() + spec_text_attribute(name@, value@),
    {
        self.push_op(DomOp::SetAttribute { name: name.to_owned(), value: value.clone() });
        assert(final(self).plan() =~= old(self).plan() + spec_text_attribute(name@, value@));
    }

    /// Appends the operation of a boolean attribute, if it is set.
    fn push_flag_attribute(&mut self, name: &str, on: bool)
        ensures
            final(self).plan() == old(self).plan() + spec_flag_attribute(name@, on),
    {
        if on {
            self.push_op(DomOp::SetAttribute { name: name.to_owned(), value: String::new() });
        }
        assert(final(self).plan() =~= old(self).plan() + spec_flag_attribute(name@, on));
    }

    /// Plans a render of `html` into the container. The node is built
    /// detached from the page; the container is emptied directly before the
    /// last operation, which puts the finished node into it.
    pub fn build_dom(&mut self, html: &InternalHtml)
        ensures
            final(self).plan() == old(self).plan() + spec_node_ops(html@).drop_last()
                + seq![DomOpView::ClearChildren] + seq![spec_node_ops(html@).last()],
            final(self).plan() == old(self).plan() + spec_render_plan(html@),
    {
        self.build_node(html);
        let ghost built = self.plan();
        proof {
            lemma_node_ops_shape(html@);
        }
        // Clear existing content only now that the new content is at hand:
        // the clearing goes in front of the operation that attaches it.
        let attach = self.ops.pop();
        assert(self.plan() =~= built.drop_last());
        self.push_op(DomOp::ClearChildren);
        if let Some(op) = attach {
            assert(op.deep_view() == built.last());
            self.push_op(op);
        }
        assert(final(self).plan() =~= old(self).plan() + spec_node_ops(html@).drop_last()
            + seq![DomOpView::ClearChildren] + seq![spec_node_ops(html@).last()]);
        assert(final(self).plan() =~= old(self).plan() + spec_render_plan(html@));
    }

    /// Plans one node under the current element.
    pub fn build_node(&mut self, node: &InternalHtml)
        ensures
            final(self).plan() == old(self).plan() + spec_node_ops(node@),
        decreases *node, 1int,
    {
        match node.discriminant() {
            discriminant_InternalHtml::Text => {
                let text_content = node.get_Text_f0();
                self.push_op(DomOp::AppendText(text_content.clone()));
                assert(final(self).plan() =~= old(self).plan() + spec_node_ops(node@));
            },
            discriminant_InternalHtml::Element => {
                let element_data = node.get_Element_fields();
                assert(node.payload->Element_0.fields == *element_data);
                self.build_element(element_data);
            },
        }
    }

    /// Plans an element: it is created, its attributes are applied in
    /// order, its children are built in order, and it is appended.
    pub fn build_element(&mut self, element_data: &InternalHtmlElementFields)
        ensures
            final(self).plan() == old(self).plan() + spec_element_ops(element_data@),
        decreases *element_data, 0int,
    {
        let attrs = &element_data.attrs;
        let children = &element_data.children;

        // Create the element
        self.push_op(DomOp::OpenElement(element_data.tag.clone()));
        let ghost opened = self.plan();

        // Apply attributes and event listeners
        let mut i: usize = 0;
        while i < attrs.len()
            invariant
                i <= attrs@.len(),
                self.plan() == opened + spec_attrs_ops(element_data@.attrs.subrange(0, i as int)),
                attrs == &element_data.attrs,
            decreases attrs@.len() - i,
        {
            self.apply_attribute(&attrs[i]);
            proof {
                let next = element_data@.attrs.subrange(0, i + 1);
                assert(next.drop_last() =~= element_data@.attrs.subrange(0, i as int));
                assert(next.last() == attrs@[i as int]@);
                assert(self.plan() =~= opened + spec_attrs_ops(next));
            }
            i = i + 1;
        }
        assert(element_data@.attrs.subrange(0, i as int) =~= element_data@.attrs);
        let ghost attributed = self.plan();

        // Add children recursively
        proof {
            lemma_children_view(children@);
        }
        let mut j: usize = 0;
        while j < children.len()
            invariant
                j <= children@.len(),
                children == &element_data.children,
                element_data@.children.len() == children@.len(),
                self.plan() == attributed + spec_children_ops(
                    element_data@.children.subrange(0, j as int),
                ),
            decreases children@.len() - j,
        {
            self.build_node(&children[j]);
            proof {
                lemma_children_view(children@);
                let next = element_data@.children.subrange(0, j + 1);
                assert(next.drop_last() =~= element_data@.children.subrange(0, j as int));
                assert(next.last() == children@[j as int]@);
                assert(self.plan() =~= attributed + spec_children_ops(next));
            }
            j = j + 1;
        }
        assert(element_data@.children.subrange(0, j as int) =~= element_data@.children);

        self.push_op(DomOp::CloseElement);
        assert(final(self).plan() =~= old(self).plan() + spec_element_ops(element_data@));
    }

    /// Plans the application of one attribute to the current element: a text
    /// or number attribute sets the DOM attribute of its name, a boolean one
    /// sets it, empty, only when true, `value` and `checked` also set the
    /// live property of an input, and an event handler registers a listener.
    pub fn apply_attribute(&mut self, attr: &InternalAttr)
        ensures
            final(self).plan() == old(self).plan() + spec_attribute_ops(attr@),
    {
        match attr.discriminant() {
            discriminant_InternalAttr::Id => {
                self.push_text_attribute("id", attr.borrow_Id());
            },
            discriminant_InternalAttr::Class => {
                self.push_text_attribute("class", attr.borrow_Class());
            },
            discriminant_InternalAttr::Value => {
                let value = attr.borrow_Value();
                self.push_text_attribute("value", value);
                // Also set the property for input elements
                self.push_op(DomOp::SetInputValue(value.clone()));
            },
            discriminant_InternalAttr::Placeholder => {
                self.push_text_attribute("placeholder", attr.borrow_Placeholder());
            },
            discriminant_InternalAttr::Type => {
                self.push_text_attribute("type", attr.borrow_Type());
            },
            discriminant_InternalAttr::Name => {
                self.push_text_attribute("name", attr.borrow_Name());
            },
            discriminant_InternalAttr::Href => {
                self.push_text_attribute("href", attr.borrow_Href());
            },
            discriminant_InternalAttr::Src => {
                self.push_text_attribute("src", attr.borrow_Src());
            },
            discriminant_InternalAttr::Alt => {
                self.push_text_attribute("alt", attr.borrow_Alt());
            },
            discriminant_InternalAttr::Title => {
                self.push_text_attribute("title", attr.borrow_Title());
            },
            discriminant_InternalAttr::Style => {
                self.push_text_attribute("style", attr.borrow_Style());
            },
            discriminant_InternalAttr::Autocomplete => {
                self.push_text_attribute("autocomplete", attr.borrow_Autocomplete());
            },
            discriminant_InternalAttr::Tabindex => {
                let value = decimal_text(attr.borrow_Tabindex());
                self.push_text_attribute("tabindex", &value);
            },
            // Boolean attributes
            discriminant_InternalAttr::Disabled => {
                self.push_flag_attribute("disabled", attr.borrow_Disabled());
            },
            discriminant_InternalAttr::Checked => {
                if attr.borrow_Checked() {
                    self.push_flag_attribute("checked", true);
                    self.push_op(DomOp::SetInputChecked(true));
                }
            },
            discriminant_InternalAttr::Selected => {
                self.push_flag_attribute("selected", attr.borrow_Selected());
            },
            discriminant_InternalAttr::Hidden => {
                self.push_flag_attribute("hidden", attr.borrow_Hidden());
            },
            discriminant_InternalAttr::Readonly => {
                self.push_flag_attribute("readonly", attr.borrow_Readonly());
            },
            discriminant_InternalAttr::Required => {
                self.push_flag_attribute("required", attr.borrow_Required());
            },
            discriminant_InternalAttr::Multiple => {
                self.push_flag_attribute("multiple", attr.borrow_Multiple());
            },
            // Data attributes
            discriminant_InternalAttr::DataAttribute => {
                let data_attr = attr.borrow_DataAttribute();
                let key = "data-".to_owned().concat(data_attr.f0.as_str());
                self.push_text_attribute(key.as_str(), &data_attr.f1);
            },
            // Custom attributes
            discriminant_InternalAttr::Attribute => {
                let custom_attr = attr.borrow_Attribute();
                self.push_text_attribute(custom_attr.f0.as_str(), &custom_attr.f1);
            },
            // Event handlers
            discriminant_InternalAttr::OnEvent => {
                let event = attr.borrow_OnEvent();
                let event_type = event.event_type();
                let callback = event.event_callback();
                self.push_op(DomOp::AddEventListener { event_type, callback });
            },
        }
        assert(final(self).plan() =~= old(self).plan() + spec_attribute_ops(attr@));
    }
}

} // verus!
