//! The typed form of the values that guest code hands to the hosts. Each
//! tagged union is a sum type here: its discriminant is read off the variant,
//! and a payload can only be borrowed as the variant it is.

use vstd::prelude::*;
use vstd::std_specs::cmp::PartialEqSpecImpl;
use crate::layout::{
    closure_size_fits, on_event_size, record_size, spec_on_event_size, spec_record_size,
    PointerWidth,
};
use crate::model::{BoxedValue, Model};
use crate::tags::{discriminant_InternalAttr, discriminant_InternalHtml, discriminant_U1};

verus! {

/// A tag union with the single tag `NoOp`, which has no payload.
#[derive(Clone, Copy, Debug, PartialEq, Eq, PartialOrd, Ord, Hash, Structural)]
pub struct U2();

impl U2 {
    /// The tag named NoOp.
    pub fn NoOp() -> (r: Self)
        ensures
            r == U2(),
    {
        U2()
    }

    /// Other `into_` methods return a payload; the NoOp tag has none.
    pub fn into_NoOp(self) -> (r: ())
        ensures
            r == (),
    {
        ()
    }

    /// Other `as_` methods return a payload; the NoOp tag has none.
    pub fn as_NoOp(&self) -> (r: ())
        ensures
            r == (),
    {
        ()
    }
}

/// What a fixed-layout result union holds.
#[derive(Debug, Eq, PartialOrd, Ord, Hash)]
pub enum union_U1 {
    ErrPayload(U2),
    OkPayload(String),
}

/// A fixed-layout result union: nothing, or a message for the backend.
#[derive(Debug, Eq, PartialOrd, Ord, Hash)]
pub struct U1 {
    pub payload: union_U1,
}

/// A fixed-layout result union as a mathematical value.
pub ghost enum U1View {
    ErrPayload,
    OkPayload(Seq<char>),
}

impl View for union_U1 {
    type V = U1View;

    open spec fn view(&self) -> U1View {
        match *self {
            union_U1::ErrPayload(_) => U1View::ErrPayload,
            union_U1::OkPayload(text) => U1View::OkPayload(text@),
        }
    }
}

impl View for U1 {
    type V = U1View;

    open spec fn view(&self) -> U1View {
        self.payload@
    }
}

impl Clone for union_U1 {
    fn clone(&self) -> (r: Self)
        ensures
            r@ == self@,
    {
        match self {
            union_U1::ErrPayload(payload) => union_U1::ErrPayload(*payload),
            union_U1::OkPayload(payload) => union_U1::OkPayload(payload.clone()),
        }
    }
}

impl Clone for U1 {
    fn clone(&self) -> (r: Self)
        ensures
            r@ == self@,
    {
        U1 { payload: self.payload.clone() }
    }
}

impl PartialEq for union_U1 {
    fn eq(&self, other: &Self) -> (r: bool) {
        match (self, other) {
            (union_U1::ErrPayload(_), union_U1::ErrPayload(_)) => true,
            (union_U1::OkPayload(mine), union_U1::OkPayload(theirs)) => *mine == *theirs,
            _ => false,
        }
    }
}

impl PartialEqSpecImpl for union_U1 {
    open spec fn obeys_eq_spec() -> bool {
        true
    }

    open spec fn eq_spec(&self, other: &Self) -> bool {
        self@ == other@
    }
}

impl PartialEq for U1 {
    fn eq(&self, other: &Self) -> (r: bool) {
        self.payload == other.payload
    }
}

impl PartialEqSpecImpl for U1 {
    open spec fn obeys_eq_spec() -> bool {
        true
    }

    open spec fn eq_spec(&self, other: &Self) -> bool {
        self@ == other@
    }
}

impl U1 {
    /// Which variant this union holds.
    pub open spec fn spec_discriminant(self) -> discriminant_U1 {
        match self.payload {
            union_U1::ErrPayload(_) => discriminant_U1::ErrTag,
            union_U1::OkPayload(_) => discriminant_U1::OkTag,
        }
    }

    /// Which variant this union holds. This never includes a payload.
    pub fn discriminant(&self) -> (r: discriminant_U1)
        ensures
            r == self.spec_discriminant(),
    {
        match &self.payload {
            union_U1::ErrPayload(_) => discriminant_U1::ErrTag,
            union_U1::OkPayload(_) => discriminant_U1::OkTag,
        }
    }

    /// The payload of the `Err` variant, taken out of the union.
    pub fn unwrap_Err(self) -> (r: U2)
        requires
            self.spec_discriminant() == discriminant_U1::ErrTag,
        ensures
            self.payload == union_U1::ErrPayload(r),
    {
        match self.payload {
            union_U1::ErrPayload(payload) => payload,
            union_U1::OkPayload(_) => vstd::pervasive::unreached(),
        }
    }

    /// The payload of the `Err` variant.
    pub fn borrow_Err(&self) -> (r: U2)
        requires
            self.spec_discriminant() == discriminant_U1::ErrTag,
        ensures
            self.payload == union_U1::ErrPayload(r),
    {
        match &self.payload {
            union_U1::ErrPayload(payload) => *payload,
            union_U1::OkPayload(_) => vstd::pervasive::unreached(),
        }
    }

    /// The payload of the `Err` variant, to be changed in place.
    pub fn borrow_mut_Err(&mut self) -> (r: &mut U2)
        requires
            old(self).spec_discriminant() == discriminant_U1::ErrTag,
        ensures
            old(self).payload == union_U1::ErrPayload(*r),
            final(self).payload == union_U1::ErrPayload(*final(r)),
    {
        match &mut self.payload {
            union_U1::ErrPayload(payload) => payload,
            union_U1::OkPayload(_) => vstd::pervasive::unreached(),
        }
    }

    /// Whether this union holds the `Err` variant.
    pub fn is_Err(&self) -> (r: bool)
        ensures
            r == (self.spec_discriminant() == discriminant_U1::ErrTag),
    {
        match &self.payload {
            union_U1::ErrPayload(_) => true,
            union_U1::OkPayload(_) => false,
        }
    }

    /// The payload of the `Ok` variant, taken out of the union.
    pub fn unwrap_Ok(self) -> (r: String)
        requires
            self.spec_discriminant() == discriminant_U1::OkTag,
        ensures
            self.payload == union_U1::OkPayload(r),
    {
        match self.payload {
            union_U1::OkPayload(payload) => payload,
            union_U1::ErrPayload(_) => vstd::pervasive::unreached(),
        }
    }

    /// The payload of the `Ok` variant.
    pub fn borrow_Ok(&self) -> (r: &String)
        requires
            self.spec_discriminant() == discriminant_U1::OkTag,
        ensures
            self.payload == union_U1::OkPayload(*r),
    {
        match &self.payload {
            union_U1::OkPayload(payload) => payload,
            union_U1::ErrPayload(_) => vstd::pervasive::unreached(),
        }
    }

    /// The payload of the `Ok` variant, to be changed in place.
    pub fn borrow_mut_Ok(&mut self) -> (r: &mut String)
        requires
            old(self).spec_discriminant() == discriminant_U1::OkTag,
        ensures
            old(self).payload == union_U1::OkPayload(*r),
            final(self).payload == union_U1::OkPayload(*final(r)),
    {
        match &mut self.payload {
            union_U1::OkPayload(payload) => payload,
            union_U1::ErrPayload(_) => vstd::pervasive::unreached(),
        }
    }

    /// Whether this union holds the `Ok` variant.
    pub fn is_Ok(&self) -> (r: bool)
        ensures
            r == (self.spec_discriminant() == discriminant_U1::OkTag),
    {
        match &self.payload {
            union_U1::OkPayload(_) => true,
            union_U1::ErrPayload(_) => false,
        }
    }

    /// The union that holds the `Err` variant with this payload.
    pub fn new_Err(payload: U2) -> (r: Self)
        ensures
            r.payload == union_U1::ErrPayload(payload),
            r.spec_discriminant() == discriminant_U1::ErrTag,
    {
        U1 { payload: union_U1::ErrPayload(payload) }
    }

    /// The union that holds the `Ok` variant with this payload.
    pub fn new_Ok(payload: String) -> (r: Self)
        ensures
            r.payload == union_U1::OkPayload(payload),
            r.spec_discriminant() == discriminant_U1::OkTag,
    {
        U1 { payload: union_U1::OkPayload(payload) }
    }
}

/// A payload read from a union is the payload the union was built with, and
/// the union's discriminant is that of the variant it was built as.
pub proof fn lemma_u1_borrow_returns_written(union: U1, written: String, read: String)
    requires
        union.payload == union_U1::OkPayload(written),
        union.payload == union_U1::OkPayload(read),
    ensures
        read == written,
        union.spec_discriminant() == discriminant_U1::OkTag,
        union.spec_discriminant() != discriminant_U1::ErrTag,
{
}

/// What the frontend's update entry point returns, with a fixed-layout union.
#[derive(Clone, Debug, PartialEq, Eq)]
pub struct R1 {
    pub model: BoxedValue,
    pub to_backend: U1,
}

/// What the frontend's update entry point returned: the new model, taken
/// over by the host, and, if the guest produced one, a message for the
/// backend.
#[derive(Debug, PartialEq, Eq)]
pub struct UpdateResult {
    pub model: Model,
    pub to_backend: Result<String, ()>,
}

/// A key and a value: the payload of a custom or a data attribute.
#[derive(Debug, PartialEq, Eq)]
pub struct InternalAttr_Attribute {
    pub f0: String,
    pub f1: String,
}

/// A key and a value as a mathematical value.
pub ghost struct AttributeView {
    pub f0: Seq<char>,
    pub f1: Seq<char>,
}

impl View for InternalAttr_Attribute {
    type V = AttributeView;

    open spec fn view(&self) -> AttributeView {
        AttributeView { f0: self.f0@, f1: self.f1@ }
    }
}

impl Clone for InternalAttr_Attribute {
    fn clone(&self) -> (r: Self)
        ensures
            r@ == self@,
    {
        InternalAttr_Attribute { f0: self.f0.clone(), f1: self.f1.clone() }
    }
}

/// What an event record says of the element an event was aimed at.
#[derive(Clone, Debug, PartialEq, Eq)]
pub struct R3 {
    pub id: String,
    pub tagName: String,
    pub value: String,
    pub checked: bool,
}

/// A target descriptor as a mathematical value.
pub ghost struct R3View {
    pub id: Seq<char>,
    pub tagName: Seq<char>,
    pub value: Seq<char>,
    pub checked: bool,
}

impl View for R3 {
    type V = R3View;

    open spec fn view(&self) -> R3View {
        R3View { id: self.id@, tagName: self.tagName@, value: self.value@, checked: self.checked }
    }
}

impl R3View {
    /// The descriptor of no element: empty texts, not checked.
    pub open spec fn empty() -> R3View {
        R3View {
            id: Seq::<char>::empty(),
            tagName: Seq::<char>::empty(),
            value: Seq::<char>::empty(),
            checked: false,
        }
    }
}

impl Default for R3 {
    /// The descriptor of no element: empty texts, not checked.
    fn default() -> (r: Self)
        ensures
            r@ == R3View::empty(),
    {
        R3 { id: String::new(), tagName: String::new(), value: String::new(), checked: false }
    }
}

/// The fixed-shape record that a DOM event is handed to guest code as.
#[derive(Clone, Debug, PartialEq, Eq)]
pub struct InternalEvent {
    pub button: i32,
    pub clientX: i32,
    pub clientY: i32,
    pub code: String,
    pub currentTarget: R3,
    pub eventType: String,
    pub key: String,
    pub target: R3,
    pub altKey: bool,
    pub ctrlKey: bool,
    pub metaKey: bool,
    pub preventDefault: bool,
    pub shiftKey: bool,
    pub stopPropagation: bool,
}

/// An event record as a mathematical value.
pub ghost struct InternalEventView {
    pub button: int,
    pub clientX: int,
    pub clientY: int,
    pub code: Seq<char>,
    pub currentTarget: R3View,
    pub eventType: Seq<char>,
    pub key: Seq<char>,
    pub target: R3View,
    pub altKey: bool,
    pub ctrlKey: bool,
    pub metaKey: bool,
    pub preventDefault: bool,
    pub shiftKey: bool,
    pub stopPropagation: bool,
}

impl View for InternalEvent {
    type V = InternalEventView;

    open spec fn view(&self) -> InternalEventView {
        InternalEventView {
            button: self.button as int,
            clientX: self.clientX as int,
            clientY: self.clientY as int,
            code: self.code@,
            currentTarget: self.currentTarget@,
            eventType: self.eventType@,
            key: self.key@,
            target: self.target@,
            altKey: self.altKey,
            ctrlKey: self.ctrlKey,
            metaKey: self.metaKey,
            preventDefault: self.preventDefault,
            shiftKey: self.shiftKey,
            stopPropagation: self.stopPropagation,
        }
    }
}

/// A guest closure: the bytes of its captured environment.
#[derive(Debug, PartialEq, Eq)]
pub struct RocFunction {
    pub closure_data: Vec<u8>,
}

impl View for RocFunction {
    type V = Seq<u8>;

    open spec fn view(&self) -> Seq<u8> {
        self.closure_data@
    }
}

impl Clone for RocFunction {
    fn clone(&self) -> (r: Self)
        ensures
            r@ == self@,
    {
        RocFunction { closure_data: self.closure_data.clone() }
    }
}

/// The payload of an event-handler attribute: the event it listens for and
/// the closure to call when it fires.
#[derive(Debug, PartialEq, Eq)]
pub struct InternalAttr_OnEvent {
    pub event_type: String,
    pub callback: RocFunction,
}

/// An event-handler payload as a mathematical value.
pub ghost struct OnEventView {
    pub event_type: Seq<char>,
    pub callback: Seq<u8>,
}

impl View for InternalAttr_OnEvent {
    type V = OnEventView;

    open spec fn view(&self) -> OnEventView {
        OnEventView { event_type: self.event_type@, callback: self.callback@ }
    }
}

impl Clone for InternalAttr_OnEvent {
    fn clone(&self) -> (r: Self)
        ensures
            r@ == self@,
    {
        InternalAttr_OnEvent { event_type: self.event_type.clone(), callback: self.callback.clone() }
    }
}

impl InternalAttr_OnEvent {
    /// Size in bytes of this payload in the memory of this machine, for a
    /// guest build whose event closures take `closure_data_size` bytes.
    pub fn size(closure_data_size: usize) -> (r: usize)
        requires
            closure_size_fits(closure_data_size),
        ensures
            r == spec_on_event_size(PointerWidth::spec_native(), closure_data_size as int),
    {
        on_event_size(PointerWidth::native(), closure_data_size)
    }

    /// The name of the event to listen for.
    pub fn event_type(&self) -> (r: String)
        ensures
            r@ == self.event_type@,
    {
        self.event_type.clone()
    }

    /// The closure to call when the event fires, copied so that it outlives
    /// the description it came from.
    pub fn event_callback(&self) -> (r: RocFunction)
        ensures
            r@ == self.callback@,
    {
        self.callback.clone()
    }
}

/// What an attribute record holds.
#[derive(Debug, PartialEq, Eq)]
pub enum union_InternalAttr {
    Alt(String),
    Attribute(InternalAttr_Attribute),
    Autocomplete(String),
    Checked(bool),
    Class(String),
    DataAttribute(InternalAttr_Attribute),
    Disabled(bool),
    Hidden(bool),
    Href(String),
    Id(String),
    Multiple(bool),
    Name(String),
    OnEvent(InternalAttr_OnEvent),
    Placeholder(String),
    Readonly(bool),
    Required(bool),
    Selected(bool),
    Src(String),
    Style(String),
    Tabindex(i32),
    Title(String),
    Type(String),
    Value(String),
}

/// An attribute as a mathematical value.
pub ghost enum InternalAttrView {
    Alt(Seq<char>),
    Attribute(AttributeView),
    Autocomplete(Seq<char>),
    Checked(bool),
    Class(Seq<char>),
    DataAttribute(AttributeView),
    Disabled(bool),
    Hidden(bool),
    Href(Seq<char>),
    Id(Seq<char>),
    Multiple(bool),
    Name(Seq<char>),
    OnEvent(OnEventView),
    Placeholder(Seq<char>),
    Readonly(bool),
    Required(bool),
    Selected(bool),
    Src(Seq<char>),
    Style(Seq<char>),
    Tabindex(int),
    Title(Seq<char>),
    Type(Seq<char>),
    Value(Seq<char>),
}

impl View for union_InternalAttr {
    type V = InternalAttrView;

    open spec fn view(&self) -> InternalAttrView {
        match *self {
            union_InternalAttr::Alt(payload) => InternalAttrView::Alt(payload@),
            union_InternalAttr::Attribute(payload) => InternalAttrView::Attribute(payload@),
            union_InternalAttr::Autocomplete(payload) => InternalAttrView::Autocomplete(payload@),
            union_InternalAttr::Checked(payload) => InternalAttrView::Checked(payload),
            union_InternalAttr::Class(payload) => InternalAttrView::Class(payload@),
            union_InternalAttr::DataAttribute(payload) => InternalAttrView::DataAttribute(payload@),
            union_InternalAttr::Disabled(payload) => InternalAttrView::Disabled(payload),
            union_InternalAttr::Hidden(payload) => InternalAttrView::Hidden(payload),
            union_InternalAttr::Href(payload) => InternalAttrView::Href(payload@),
            union_InternalAttr::Id(payload) => InternalAttrView::Id(payload@),
            union_InternalAttr::Multiple(payload) => InternalAttrView::Multiple(payload),
            union_InternalAttr::Name(payload) => InternalAttrView::Name(payload@),
            union_InternalAttr::OnEvent(payload) => InternalAttrView::OnEvent(payload@),
            union_InternalAttr::Placeholder(payload) => InternalAttrView::Placeholder(payload@),
            union_InternalAttr::Readonly(payload) => InternalAttrView::Readonly(payload),
            union_InternalAttr::Required(payload) => InternalAttrView::Required(payload),
            union_InternalAttr::Selected(payload) => InternalAttrView::Selected(payload),
            union_InternalAttr::Src(payload) => InternalAttrView::Src(payload@),
            union_InternalAttr::Style(payload) => InternalAttrView::Style(payload@),
            union_InternalAttr::Tabindex(payload) => InternalAttrView::Tabindex(payload as int),
            union_InternalAttr::Title(payload) => InternalAttrView::Title(payload@),
            union_InternalAttr::Type(payload) => InternalAttrView::Type(payload@),
            union_InternalAttr::Value(payload) => InternalAttrView::Value(payload@),
        }
    }
}

impl Clone for union_InternalAttr {
    fn clone(&self) -> (r: Self)
        ensures
            r@ == self@,
    {
        match self {
            union_InternalAttr::Alt(payload) => union_InternalAttr::Alt(payload.clone()),
            union_InternalAttr::Attribute(payload) => union_InternalAttr::Attribute(payload.clone()),
            union_InternalAttr::Autocomplete(payload) => union_InternalAttr::Autocomplete(payload.clone()),
            union_InternalAttr::Checked(payload) => union_InternalAttr::Checked(*payload),
            union_InternalAttr::Class(payload) => union_InternalAttr::Class(payload.clone()),
            union_InternalAttr::DataAttribute(payload) => union_InternalAttr::DataAttribute(payload.clone()),
            union_InternalAttr::Disabled(payload) => union_InternalAttr::Disabled(*payload),
            union_InternalAttr::Hidden(payload) => union_InternalAttr::Hidden(*payload),
            union_InternalAttr::Href(payload) => union_InternalAttr::Href(payload.clone()),
            union_InternalAttr::Id(payload) => union_InternalAttr::Id(payload.clone()),
            union_InternalAttr::Multiple(payload) => union_InternalAttr::Multiple(*payload),
            union_InternalAttr::Name(payload) => union_InternalAttr::Name(payload.clone()),
            union_InternalAttr::OnEvent(payload) => union_InternalAttr::OnEvent(payload.clone()),
            union_InternalAttr::Placeholder(payload) => union_InternalAttr::Placeholder(payload.clone()),
            union_InternalAttr::Readonly(payload) => union_InternalAttr::Readonly(*payload),
            union_InternalAttr::Required(payload) => union_InternalAttr::Required(*payload),
            union_InternalAttr::Selected(payload) => union_InternalAttr::Selected(*payload),
            union_InternalAttr::Src(payload) => union_InternalAttr::Src(payload.clone()),
            union_InternalAttr::Style(payload) => union_InternalAttr::Style(payload.clone()),
            union_InternalAttr::Tabindex(payload) => union_InternalAttr::Tabindex(*payload),
            union_InternalAttr::Title(payload) => union_InternalAttr::Title(payload.clone()),
            union_InternalAttr::Type(payload) => union_InternalAttr::Type(payload.clone()),
            union_InternalAttr::Value(payload) => union_InternalAttr::Value(payload.clone()),
        }
    }
}

/// One attribute of an element, as the guest's view describes it.
#[derive(Debug, PartialEq, Eq)]
pub struct InternalAttr {
    pub payload: union_InternalAttr,
}

impl View for InternalAttr {
    type V = InternalAttrView;

    open spec fn view(&self) -> InternalAttrView {
        self.payload@
    }
}

impl Clone for InternalAttr {
    fn clone(&self) -> (r: Self)
        ensures
            r@ == self@,
    {
        InternalAttr { payload: self.payload.clone() }
    }
}

impl InternalAttr {
    /// Which variant this attribute holds.
    pub open spec fn spec_discriminant(self) -> discriminant_InternalAttr {
        match self.payload {
            union_InternalAttr::Alt(_) => discriminant_InternalAttr::Alt,
            union_InternalAttr::Attribute(_) => discriminant_InternalAttr::Attribute,
            union_InternalAttr::Autocomplete(_) => discriminant_InternalAttr::Autocomplete,
            union_InternalAttr::Checked(_) => discriminant_InternalAttr::Checked,
            union_InternalAttr::Class(_) => discriminant_InternalAttr::Class,
            union_InternalAttr::DataAttribute(_) => discriminant_InternalAttr::DataAttribute,
            union_InternalAttr::Disabled(_) => discriminant_InternalAttr::Disabled,
            union_InternalAttr::Hidden(_) => discriminant_InternalAttr::Hidden,
            union_InternalAttr::Href(_) => discriminant_InternalAttr::Href,
            union_InternalAttr::Id(_) => discriminant_InternalAttr::Id,
            union_InternalAttr::Multiple(_) => discriminant_InternalAttr::Multiple,
            union_InternalAttr::Name(_) => discriminant_InternalAttr::Name,
            union_InternalAttr::OnEvent(_) => discriminant_InternalAttr::OnEvent,
            union_InternalAttr::Placeholder(_) => discriminant_InternalAttr::Placeholder,
            union_InternalAttr::Readonly(_) => discriminant_InternalAttr::Readonly,
            union_InternalAttr::Required(_) => discriminant_InternalAttr::Required,
            union_InternalAttr::Selected(_) => discriminant_InternalAttr::Selected,
            union_InternalAttr::Src(_) => discriminant_InternalAttr::Src,
            union_InternalAttr::Style(_) => discriminant_InternalAttr::Style,
            union_InternalAttr::Tabindex(_) => discriminant_InternalAttr::Tabindex,
            union_InternalAttr::Title(_) => discriminant_InternalAttr::Title,
            union_InternalAttr::Type(_) => discriminant_InternalAttr::Type,
            union_InternalAttr::Value(_) => discriminant_InternalAttr::Value,
        }
    }

    /// Size in bytes of one attribute record in the memory of this machine,
    /// for a guest build whose event closures take `closure_data_size` bytes.
    pub fn size(closure_data_size: usize) -> (r: usize)
        requires
            closure_size_fits(closure_data_size),
        ensures
            r == spec_record_size(PointerWidth::spec_native(), closure_data_size as int),
    {
        record_size(PointerWidth::native(), closure_data_size)
    }

    /// Which variant this attribute holds. This never includes a payload.
    pub fn discriminant(&self) -> (r: discriminant_InternalAttr)
        ensures
            r == self.spec_discriminant(),
    {
        match &self.payload {
            union_InternalAttr::Alt(_) => discriminant_InternalAttr::Alt,
            union_InternalAttr::Attribute(_) => discriminant_InternalAttr::Attribute,
            union_InternalAttr::Autocomplete(_) => discriminant_InternalAttr::Autocomplete,
            union_InternalAttr::Checked(_) => discriminant_InternalAttr::Checked,
            union_InternalAttr::Class(_) => discriminant_InternalAttr::Class,
            union_InternalAttr::DataAttribute(_) => discriminant_InternalAttr::DataAttribute,
            union_InternalAttr::Disabled(_) => discriminant_InternalAttr::Disabled,
            union_InternalAttr::Hidden(_) => discriminant_InternalAttr::Hidden,
            union_InternalAttr::Href(_) => discriminant_InternalAttr::Href,
            union_InternalAttr::Id(_) => discriminant_InternalAttr::Id,
            union_InternalAttr::Multiple(_) => discriminant_InternalAttr::Multiple,
            union_InternalAttr::Name(_) => discriminant_InternalAttr::Name,
            union_InternalAttr::OnEvent(_) => discriminant_InternalAttr::OnEvent,
            union_InternalAttr::Placeholder(_) => discriminant_InternalAttr::Placeholder,
            union_InternalAttr::Readonly(_) => discriminant_InternalAttr::Readonly,
            union_InternalAttr::Required(_) => discriminant_InternalAttr::Required,
            union_InternalAttr::Selected(_) => discriminant_InternalAttr::Selected,
            union_InternalAttr::Src(_) => discriminant_InternalAttr::Src,
            union_InternalAttr::Style(_) => discriminant_InternalAttr::Style,
            union_InternalAttr::Tabindex(_) => discriminant_InternalAttr::Tabindex,
            union_InternalAttr::Title(_) => discriminant_InternalAttr::Title,
            union_InternalAttr::Type(_) => discriminant_InternalAttr::Type,
            union_InternalAttr::Value(_) => discriminant_InternalAttr::Value,
        }
    }

    /// The payload of the `Alt` variant.
    pub fn borrow_Alt(&self) -> (r: &String)
        requires
            self.spec_discriminant() == discriminant_InternalAttr::Alt,
        ensures
            self.payload == union_InternalAttr::Alt(*r),
    {
        match &self.payload {
            union_InternalAttr::Alt(payload) => payload,
            _ => vstd::pervasive::unreached(),
        }
    }

    /// The payload of the `Autocomplete` variant.
    pub fn borrow_Autocomplete(&self) -> (r: &String)
        requires
            self.spec_discriminant() == discriminant_InternalAttr::Autocomplete,
        ensures
            self.payload == union_InternalAttr::Autocomplete(*r),
    {
        match &self.payload {
            union_InternalAttr::Autocomplete(payload) => payload,
            _ => vstd::pervasive::unreached(),
        }
    }

    /// The payload of the `Class` variant.
    pub fn borrow_Class(&self) -> (r: &String)
        requires
            self.spec_discriminant() == discriminant_InternalAttr::Class,
        ensures
            self.payload == union_InternalAttr::Class(*r),
    {
        match &self.payload {
            union_InternalAttr::Class(payload) => payload,
            _ => vstd::pervasive::unreached(),
        }
    }

    /// The payload of the `Href` variant.
    pub fn borrow_Href(&self) -> (r: &String)
        requires
            self.spec_discriminant() == discriminant_InternalAttr::Href,
        ensures
            self.payload == union_InternalAttr::Href(*r),
    {
        match &self.payload {
            union_InternalAttr::Href(payload) => payload,
            _ => vstd::pervasive::unreached(),
        }
    }

    /// The payload of the `Id` variant.
    pub fn borrow_Id(&self) -> (r: &String)
        requires
            self.spec_discriminant() == discriminant_InternalAttr::Id,
        ensures
            self.payload == union_InternalAttr::Id(*r),
    {
        match &self.payload {
            union_InternalAttr::Id(payload) => payload,
            _ => vstd::pervasive::unreached(),
        }
    }

    /// The payload of the `Name` variant.
    pub fn borrow_Name(&self) -> (r: &String)
        requires
            self.spec_discriminant() == discriminant_InternalAttr::Name,
        ensures
            self.payload == union_InternalAttr::Name(*r),
    {
        match &self.payload {
            union_InternalAttr::Name(payload) => payload,
            _ => vstd::pervasive::unreached(),
        }
    }

    /// The payload of the `Placeholder` variant.
    pub fn borrow_Placeholder(&self) -> (r: &String)
        requires
            self.spec_discriminant() == discriminant_InternalAttr::Placeholder,
        ensures
            self.payload == union_InternalAttr::Placeholder(*r),
    {
        match &self.payload {
            union_InternalAttr::Placeholder(payload) => payload,
            _ => vstd::pervasive::unreached(),
        }
    }

    /// The payload of the `Src` variant.
    pub fn borrow_Src(&self) -> (r: &String)
        requires
            self.spec_discriminant() == discriminant_InternalAttr::Src,
        ensures
            self.payload == union_InternalAttr::Src(*r),
    {
        match &self.payload {
            union_InternalAttr::Src(payload) => payload,
            _ => vstd::pervasive::unreached(),
        }
    }

    /// The payload of the `Style` variant.
    pub fn borrow_Style(&self) -> (r: &String)
        requires
            self.spec_discriminant() == discriminant_InternalAttr::Style,
        ensures
            self.payload == union_InternalAttr::Style(*r),
    {
        match &self.payload {
            union_InternalAttr::Style(payload) => payload,
            _ => vstd::pervasive::unreached(),
        }
    }

    /// The payload of the `Title` variant.
    pub fn borrow_Title(&self) -> (r: &String)
        requires
            self.spec_discriminant() == discriminant_InternalAttr::Title,
        ensures
            self.payload == union_InternalAttr::Title(*r),
    {
        match &self.payload {
            union_InternalAttr::Title(payload) => payload,
            _ => vstd::pervasive::unreached(),
        }
    }

    /// The payload of the `Type` variant.
    pub fn borrow_Type(&self) -> (r: &String)
        requires
            self.spec_discriminant() == discriminant_InternalAttr::Type,
        ensures
            self.payload == union_InternalAttr::Type(*r),
    {
        match &self.payload {
            union_InternalAttr::Type(payload) => payload,
            _ => vstd::pervasive::unreached(),
        }
    }

    /// The payload of the `Value` variant.
    pub fn borrow_Value(&self) -> (r: &String)
        requires
            self.spec_discriminant() == discriminant_InternalAttr::Value,
        ensures
            self.payload == union_InternalAttr::Value(*r),
    {
        match &self.payload {
            union_InternalAttr::Value(payload) => payload,
            _ => vstd::pervasive::unreached(),
        }
    }

    /// The payload of the `Checked` variant.
    pub fn borrow_Checked(&self) -> (r: bool)
        requires
            self.spec_discriminant() == discriminant_InternalAttr::Checked,
        ensures
            self.payload == union_InternalAttr::Checked(r),
    {
        match &self.payload {
            union_InternalAttr::Checked(payload) => *payload,
            _ => vstd::pervasive::unreached(),
        }
    }

    /// The payload of the `Disabled` variant.
    pub fn borrow_Disabled(&self) -> (r: bool)
        requires
            self.spec_discriminant() == discriminant_InternalAttr::Disabled,
        ensures
            self.payload == union_InternalAttr::Disabled(r),
    {
        match &self.payload {
            union_InternalAttr::Disabled(payload) => *payload,
            _ => vstd::pervasive::unreached(),
        }
    }

    /// The payload of the `Hidden` variant.
    pub fn borrow_Hidden(&self) -> (r: bool)
        requires
            self.spec_discriminant() == discriminant_InternalAttr::Hidden,
        ensures
            self.payload == union_InternalAttr::Hidden(r),
    {
        match &self.payload {
            union_InternalAttr::Hidden(payload) => *payload,
            _ => vstd::pervasive::unreached(),
        }
    }

    /// The payload of the `Multiple` variant.
    pub fn borrow_Multiple(&self) -> (r: bool)
        requires
            self.spec_discriminant() == discriminant_InternalAttr::Multiple,
        ensures
            self.payload == union_InternalAttr::Multiple(r),
    {
        match &self.payload {
            union_InternalAttr::Multiple(payload) => *payload,
            _ => vstd::pervasive::unreached(),
        }
    }

    /// The payload of the `Readonly` variant.
    pub fn borrow_Readonly(&self) -> (r: bool)
        requires
            self.spec_discriminant() == discriminant_InternalAttr::Readonly,
        ensures
            self.payload == union_InternalAttr::Readonly(r),
    {
        match &self.payload {
            union_InternalAttr::Readonly(payload) => *payload,
            _ => vstd::pervasive::unreached(),
        }
    }

    /// The payload of the `Required` variant.
    pub fn borrow_Required(&self) -> (r: bool)
        requires
            self.spec_discriminant() == discriminant_InternalAttr::Required,
        ensures
            self.payload == union_InternalAttr::Required(r),
    {
        match &self.payload {
            union_InternalAttr::Required(payload) => *payload,
            _ => vstd::pervasive::unreached(),
        }
    }

    /// The payload of the `Selected` variant.
    pub fn borrow_Selected(&self) -> (r: bool)
        requires
            self.spec_discriminant() == discriminant_InternalAttr::Selected,
        ensures
            self.payload == union_InternalAttr::Selected(r),
    {
        match &self.payload {
            union_InternalAttr::Selected(payload) => *payload,
            _ => vstd::pervasive::unreached(),
        }
    }

    /// The payload of the `Tabindex` variant.
    pub fn borrow_Tabindex(&self) -> (r: i32)
        requires
            self.spec_discriminant() == discriminant_InternalAttr::Tabindex,
        ensures
            self.payload == union_InternalAttr::Tabindex(r),
    {
        match &self.payload {
            union_InternalAttr::Tabindex(payload) => *payload,
            _ => vstd::pervasive::unreached(),
        }
    }

    /// The payload of the `Attribute` variant.
    pub fn borrow_Attribute(&self) -> (r: &InternalAttr_Attribute)
        requires
            self.spec_discriminant() == discriminant_InternalAttr::Attribute,
        ensures
            self.payload == union_InternalAttr::Attribute(*r),
    {
        match &self.payload {
            union_InternalAttr::Attribute(payload) => payload,
            _ => vstd::pervasive::unreached(),
        }
    }

    /// The payload of the `DataAttribute` variant.
    pub fn borrow_DataAttribute(&self) -> (r: &InternalAttr_Attribute)
        requires
            self.spec_discriminant() == discriminant_InternalAttr::DataAttribute,
        ensures
            self.payload == union_InternalAttr::DataAttribute(*r),
    {
        match &self.payload {
            union_InternalAttr::DataAttribute(payload) => payload,
            _ => vstd::pervasive::unreached(),
        }
    }

    /// The payload of the `OnEvent` variant.
    pub fn borrow_OnEvent(&self) -> (r: &InternalAttr_OnEvent)
        requires
            self.spec_discriminant() == discriminant_InternalAttr::OnEvent,
        ensures
            self.payload == union_InternalAttr::OnEvent(*r),
    {
        match &self.payload {
            union_InternalAttr::OnEvent(payload) => payload,
            _ => vstd::pervasive::unreached(),
        }
    }

    /// The payload of the `Alt` variant, to be changed in place.
    pub fn borrow_mut_Alt(&mut self) -> (r: &mut String)
        requires
            old(self).spec_discriminant() == discriminant_InternalAttr::Alt,
        ensures
            old(self).payload == union_InternalAttr::Alt(*r),
            final(self).payload == union_InternalAttr::Alt(*final(r)),
    {
        match &mut self.payload {
            union_InternalAttr::Alt(payload) => payload,
            _ => vstd::pervasive::unreached(),
        }
    }

    /// The payload of the `Autocomplete` variant, to be changed in place.
    pub fn borrow_mut_Autocomplete(&mut self) -> (r: &mut String)
        requires
            old(self).spec_discriminant() == discriminant_InternalAttr::Autocomplete,
        ensures
            old(self).payload == union_InternalAttr::Autocomplete(*r),
            final(self).payload == union_InternalAttr::Autocomplete(*final(r)),
    {
        match &mut self.payload {
            union_InternalAttr::Autocomplete(payload) => payload,
            _ => vstd::pervasive::unreached(),
        }
    }

    /// The payload of the `Class` variant, to be changed in place.
    pub fn borrow_mut_Class(&mut self) -> (r: &mut String)
        requires
            old(self).spec_discriminant() == discriminant_InternalAttr::Class,
        ensures
            old(self).payload == union_InternalAttr::Class(*r),
            final(self).payload == union_InternalAttr::Class(*final(r)),
    {
        match &mut self.payload {
            union_InternalAttr::Class(payload) => payload,
            _ => vstd::pervasive::unreached(),
        }
    }

    /// The payload of the `Href` variant, to be changed in place.
    pub fn borrow_mut_Href(&mut self) -> (r: &mut String)
        requires
            old(self).spec_discriminant() == discriminant_InternalAttr::Href,
        ensures
            old(self).payload == union_InternalAttr::Href(*r),
            final(self).payload == union_InternalAttr::Href(*final(r)),
    {
        match &mut self.payload {
            union_InternalAttr::Href(payload) => payload,
            _ => vstd::pervasive::unreached(),
        }
    }

    /// The payload of the `Id` variant, to be changed in place.
    pub fn borrow_mut_Id(&mut self) -> (r: &mut String)
        requires
            old(self).spec_discriminant() == discriminant_InternalAttr::Id,
        ensures
            old(self).payload == union_InternalAttr::Id(*r),
            final(self).payload == union_InternalAttr::Id(*final(r)),
    {
        match &mut self.payload {
            union_InternalAttr::Id(payload) => payload,
            _ => vstd::pervasive::unreached(),
        }
    }

    /// The payload of the `Name` variant, to be changed in place.
    pub fn borrow_mut_Name(&mut self) -> (r: &mut String)
        requires
            old(self).spec_discriminant() == discriminant_InternalAttr::Name,
        ensures
            old(self).payload == union_InternalAttr::Name(*r),
            final(self).payload == union_InternalAttr::Name(*final(r)),
    {
        match &mut self.payload {
            union_InternalAttr::Name(payload) => payload,
            _ => vstd::pervasive::unreached(),
        }
    }

    /// The payload of the `Placeholder` variant, to be changed in place.
    pub fn borrow_mut_Placeholder(&mut self) -> (r: &mut String)
        requires
            old(self).spec_discriminant() == discriminant_InternalAttr::Placeholder,
        ensures
            old(self).payload == union_InternalAttr::Placeholder(*r),
            final(self).payload == union_InternalAttr::Placeholder(*final(r)),
    {
        match &mut self.payload {
            union_InternalAttr::Placeholder(payload) => payload,
            _ => vstd::pervasive::unreached(),
        }
    }

    /// The payload of the `Src` variant, to be changed in place.
    pub fn borrow_mut_Src(&mut self) -> (r: &mut String)
        requires
            old(self).spec_discriminant() == discriminant_InternalAttr::Src,
        ensures
            old(self).payload == union_InternalAttr::Src(*r),
            final(self).payload == union_InternalAttr::Src(*final(r)),
    {
        match &mut self.payload {
            union_InternalAttr::Src(payload) => payload,
            _ => vstd::pervasive::unreached(),
        }
    }

    /// The payload of the `Style` variant, to be changed in place.
    pub fn borrow_mut_Style(&mut self) -> (r: &mut String)
        requires
            old(self).spec_discriminant() == discriminant_InternalAttr::Style,
        ensures
            old(self).payload == union_InternalAttr::Style(*r),
            final(self).payload == union_InternalAttr::Style(*final(r)),
    {
        match &mut self.payload {
            union_InternalAttr::Style(payload) => payload,
            _ => vstd::pervasive::unreached(),
        }
    }

    /// The payload of the `Title` variant, to be changed in place.
    pub fn borrow_mut_Title(&mut self) -> (r: &mut String)
        requires
            old(self).spec_discriminant() == discriminant_InternalAttr::Title,
        ensures
            old(self).payload == union_InternalAttr::Title(*r),
            final(self).payload == union_InternalAttr::Title(*final(r)),
    {
        match &mut self.payload {
            union_InternalAttr::Title(payload) => payload,
            _ => vstd::pervasive::unreached(),
        }
    }

    /// The payload of the `Type` variant, to be changed in place.
    pub fn borrow_mut_Type(&mut self) -> (r: &mut String)
        requires
            old(self).spec_discriminant() == discriminant_InternalAttr::Type,
        ensures
            old(self).payload == union_InternalAttr::Type(*r),
            final(self).payload == union_InternalAttr::Type(*final(r)),
    {
        match &mut self.payload {
            union_InternalAttr::Type(payload) => payload,
            _ => vstd::pervasive::unreached(),
        }
    }

    /// The payload of the `Value` variant, to be changed in place.
    pub fn borrow_mut_Value(&mut self) -> (r: &mut String)
        requires
            old(self).spec_discriminant() == discriminant_InternalAttr::Value,
        ensures
            old(self).payload == union_InternalAttr::Value(*r),
            final(self).payload == union_InternalAttr::Value(*final(r)),
    {
        match &mut self.payload {
            union_InternalAttr::Value(payload) => payload,
            _ => vstd::pervasive::unreached(),
        }
    }

    /// The payload of the `Checked` variant, to be changed in place.
    pub fn borrow_mut_Checked(&mut self) -> (r: &mut bool)
        requires
            old(self).spec_discriminant() == discriminant_InternalAttr::Checked,
        ensures
            old(self).payload == union_InternalAttr::Checked(*r),
            final(self).payload == union_InternalAttr::Checked(*final(r)),
    {
        match &mut self.payload {
            union_InternalAttr::Checked(payload) => payload,
            _ => vstd::pervasive::unreached(),
        }
    }

    /// The payload of the `Disabled` variant, to be changed in place.
    pub fn borrow_mut_Disabled(&mut self) -> (r: &mut bool)
        requires
            old(self).spec_discriminant() == discriminant_InternalAttr::Disabled,
        ensures
            old(self).payload == union_InternalAttr::Disabled(*r),
            final(self).payload == union_InternalAttr::Disabled(*final(r)),
    {
        match &mut self.payload {
            union_InternalAttr::Disabled(payload) => payload,
            _ => vstd::pervasive::unreached(),
        }
    }

    /// The payload of the `Hidden` variant, to be changed in place.
    pub fn borrow_mut_Hidden(&mut self) -> (r: &mut bool)
        requires
            old(self).spec_discriminant() == discriminant_InternalAttr::Hidden,
        ensures
            old(self).payload == union_InternalAttr::Hidden(*r),
            final(self).payload == union_InternalAttr::Hidden(*final(r)),
    {
        match &mut self.payload {
            union_InternalAttr::Hidden(payload) => payload,
            _ => vstd::pervasive::unreached(),
        }
    }

    /// The payload of the `Multiple` variant, to be changed in place.
    pub fn borrow_mut_Multiple(&mut self) -> (r: &mut bool)
        requires
            old(self).spec_discriminant() == discriminant_InternalAttr::Multiple,
        ensures
            old(self).payload == union_InternalAttr::Multiple(*r),
            final(self).payload == union_InternalAttr::Multiple(*final(r)),
    {
        match &mut self.payload {
            union_InternalAttr::Multiple(payload) => payload,
            _ => vstd::pervasive::unreached(),
        }
    }

    /// The payload of the `Readonly` variant, to be changed in place.
    pub fn borrow_mut_Readonly(&mut self) -> (r: &mut bool)
        requires
            old(self).spec_discriminant() == discriminant_InternalAttr::Readonly,
        ensures
            old(self).payload == union_InternalAttr::Readonly(*r),
            final(self).payload == union_InternalAttr::Readonly(*final(r)),
    {
        match &mut self.payload {
            union_InternalAttr::Readonly(payload) => payload,
            _ => vstd::pervasive::unreached(),
        }
    }

    /// The payload of the `Required` variant, to be changed in place.
    pub fn borrow_mut_Required(&mut self) -> (r: &mut bool)
        requires
            old(self).spec_discriminant() == discriminant_InternalAttr::Required,
        ensures
            old(self).payload == union_InternalAttr::Required(*r),
            final(self).payload == union_InternalAttr::Required(*final(r)),
    {
        match &mut self.payload {
            union_InternalAttr::Required(payload) => payload,
            _ => vstd::pervasive::unreached(),
        }
    }

    /// The payload of the `Selected` variant, to be changed in place.
    pub fn borrow_mut_Selected(&mut self) -> (r: &mut bool)
        requires
            old(self).spec_discriminant() == discriminant_InternalAttr::Selected,
        ensures
            old(self).payload == union_InternalAttr::Selected(*r),
            final(self).payload == union_InternalAttr::Selected(*final(r)),
    {
        match &mut self.payload {
            union_InternalAttr::Selected(payload) => payload,
            _ => vstd::pervasive::unreached(),
        }
    }

    /// The payload of the `Tabindex` variant, to be changed in place.
    pub fn borrow_mut_Tabindex(&mut self) -> (r: &mut i32)
        requires
            old(self).spec_discriminant() == discriminant_InternalAttr::Tabindex,
        ensures
            old(self).payload == union_InternalAttr::Tabindex(*r),
            final(self).payload == union_InternalAttr::Tabindex(*final(r)),
    {
        match &mut self.payload {
            union_InternalAttr::Tabindex(payload) => payload,
            _ => vstd::pervasive::unreached(),
        }
    }

    /// The payload of the `Attribute` variant, to be changed in place.
    pub fn borrow_mut_Attribute(&mut self) -> (r: &mut InternalAttr_Attribute)
        requires
            old(self).spec_discriminant() == discriminant_InternalAttr::Attribute,
        ensures
            old(self).payload == union_InternalAttr::Attribute(*r),
            final(self).payload == union_InternalAttr::Attribute(*final(r)),
    {
        match &mut self.payload {
            union_InternalAttr::Attribute(payload) => payload,
            _ => vstd::pervasive::unreached(),
        }
    }

    /// The payload of the `DataAttribute` variant, to be changed in place.
    pub fn borrow_mut_DataAttribute(&mut self) -> (r: &mut InternalAttr_Attribute)
        requires
            old(self).spec_discriminant() == discriminant_InternalAttr::DataAttribute,
        ensures
            old(self).payload == union_InternalAttr::DataAttribute(*r),
            final(self).payload == union_InternalAttr::DataAttribute(*final(r)),
    {
        match &mut self.payload {
            union_InternalAttr::DataAttribute(payload) => payload,
            _ => vstd::pervasive::unreached(),
        }
    }

    /// The payload of the `OnEvent` variant, to be changed in place.
    pub fn borrow_mut_OnEvent(&mut self) -> (r: &mut InternalAttr_OnEvent)
        requires
            old(self).spec_discriminant() == discriminant_InternalAttr::OnEvent,
        ensures
            old(self).payload == union_InternalAttr::OnEvent(*r),
            final(self).payload == union_InternalAttr::OnEvent(*final(r)),
    {
        match &mut self.payload {
            union_InternalAttr::OnEvent(payload) => payload,
            _ => vstd::pervasive::unreached(),
        }
    }
}

/// The discriminant of an attribute names the variant of its payload, and of
/// its view, for every variant: a payload borrowed after a matching
/// discriminant check is the one the attribute was built with.
pub proof fn lemma_attr_discriminant_names_payload(attr: InternalAttr)
    ensures
        attr.spec_discriminant() == discriminant_InternalAttr::Alt <==> attr.payload is Alt,
        attr.payload is Alt <==> attr@ is Alt,
        attr.spec_discriminant() == discriminant_InternalAttr::Attribute <==> attr.payload is Attribute,
        attr.payload is Attribute <==> attr@ is Attribute,
        attr.spec_discriminant() == discriminant_InternalAttr::Autocomplete <==> attr.payload is Autocomplete,
        attr.payload is Autocomplete <==> attr@ is Autocomplete,
        attr.spec_discriminant() == discriminant_InternalAttr::Checked <==> attr.payload is Checked,
        attr.payload is Checked <==> attr@ is Checked,
        attr.spec_discriminant() == discriminant_InternalAttr::Class <==> attr.payload is Class,
        attr.payload is Class <==> attr@ is Class,
        attr.spec_discriminant() == discriminant_InternalAttr::DataAttribute <==> attr.payload is DataAttribute,
        attr.payload is DataAttribute <==> attr@ is DataAttribute,
        attr.spec_discriminant() == discriminant_InternalAttr::Disabled <==> attr.payload is Disabled,
        attr.payload is Disabled <==> attr@ is Disabled,
        attr.spec_discriminant() == discriminant_InternalAttr::Hidden <==> attr.payload is Hidden,
        attr.payload is Hidden <==> attr@ is Hidden,
        attr.spec_discriminant() == discriminant_InternalAttr::Href <==> attr.payload is Href,
        attr.payload is Href <==> attr@ is Href,
        attr.spec_discriminant() == discriminant_InternalAttr::Id <==> attr.payload is Id,
        attr.payload is Id <==> attr@ is Id,
        attr.spec_discriminant() == discriminant_InternalAttr::Multiple <==> attr.payload is Multiple,
        attr.payload is Multiple <==> attr@ is Multiple,
        attr.spec_discriminant() == discriminant_InternalAttr::Name <==> attr.payload is Name,
        attr.payload is Name <==> attr@ is Name,
        attr.spec_discriminant() == discriminant_InternalAttr::OnEvent <==> attr.payload is OnEvent,
        attr.payload is OnEvent <==> attr@ is OnEvent,
        attr.spec_discriminant() == discriminant_InternalAttr::Placeholder <==> attr.payload is Placeholder,
        attr.payload is Placeholder <==> attr@ is Placeholder,
        attr.spec_discriminant() == discriminant_InternalAttr::Readonly <==> attr.payload is Readonly,
        attr.payload is Readonly <==> attr@ is Readonly,
        attr.spec_discriminant() == discriminant_InternalAttr::Required <==> attr.payload is Required,
        attr.payload is Required <==> attr@ is Required,
        attr.spec_discriminant() == discriminant_InternalAttr::Selected <==> attr.payload is Selected,
        attr.payload is Selected <==> attr@ is Selected,
        attr.spec_discriminant() == discriminant_InternalAttr::Src <==> attr.payload is Src,
        attr.payload is Src <==> attr@ is Src,
        attr.spec_discriminant() == discriminant_InternalAttr::Style <==> attr.payload is Style,
        attr.payload is Style <==> attr@ is Style,
        attr.spec_discriminant() == discriminant_InternalAttr::Tabindex <==> attr.payload is Tabindex,
        attr.payload is Tabindex <==> attr@ is Tabindex,
        attr.spec_discriminant() == discriminant_InternalAttr::Title <==> attr.payload is Title,
        attr.payload is Title <==> attr@ is Title,
        attr.spec_discriminant() == discriminant_InternalAttr::Type <==> attr.payload is Type,
        attr.payload is Type <==> attr@ is Type,
        attr.spec_discriminant() == discriminant_InternalAttr::Value <==> attr.payload is Value,
        attr.payload is Value <==> attr@ is Value,
{
}

/// The fields of an element: its attributes, its children in order, its tag.
#[derive(Debug, PartialEq, Eq)]
pub struct InternalHtmlElementFields {
    pub attrs: Vec<InternalAttr>,
    pub children: Vec<InternalHtml>,
    pub tag: String,
}

/// The payload of an element node.
#[derive(Debug, PartialEq, Eq)]
pub struct InternalHtml_Element {
    pub fields: InternalHtmlElementFields,
}

/// The payload of a text node.
#[derive(Clone, Debug, PartialEq, Eq)]
pub struct InternalHtml_Text {
    pub f0: String,
}

/// What a node of the DOM description holds.
#[derive(Debug, PartialEq, Eq)]
pub enum union_InternalHtml {
    Element(InternalHtml_Element),
    Text(InternalHtml_Text),
}

/// A node of the DOM description that the guest's view returns.
#[derive(Debug, PartialEq, Eq)]
pub struct InternalHtml {
    pub payload: union_InternalHtml,
}

/// A node of the DOM description as a mathematical value.
pub ghost enum InternalHtmlView {
    Element(ElementView),
    Text(Seq<char>),
}

/// The fields of an element as a mathematical value.
pub ghost struct ElementView {
    pub attrs: Seq<InternalAttrView>,
    pub children: Seq<InternalHtmlView>,
    pub tag: Seq<char>,
}

/// The attributes of an element as mathematical values.
pub open spec fn attrs_view(attrs: Seq<InternalAttr>) -> Seq<InternalAttrView> {
    attrs.map_values(|attr: InternalAttr| attr@)
}

/// A node as a mathematical value.
pub open spec fn html_view(node: InternalHtml) -> InternalHtmlView
    decreases node,
{
    match node.payload {
        union_InternalHtml::Text(text) => InternalHtmlView::Text(text.f0@),
        union_InternalHtml::Element(element) => InternalHtmlView::Element(
            fields_view(element.fields),
        ),
    }
}

/// The fields of an element as a mathematical value.
pub open spec fn fields_view(fields: InternalHtmlElementFields) -> ElementView
    decreases fields,
{
    ElementView {
        attrs: attrs_view(fields.attrs@),
        children: children_view(fields.children@),
        tag: fields.tag@,
    }
}

/// A list of nodes as mathematical values, in order.
pub open spec fn children_view(children: Seq<InternalHtml>) -> Seq<InternalHtmlView>
    decreases children,
{
    if children.len() == 0 {
        Seq::<InternalHtmlView>::empty()
    } else {
        children_view(children.drop_last()).push(html_view(children.last()))
    }
}

/// The view of a list of nodes has the view of each node at its place.
pub proof fn lemma_children_view(children: Seq<InternalHtml>)
    ensures
        children_view(children).len() == children.len(),
        forall|i: int|
            0 <= i < children.len() ==> #[trigger] children_view(children)[i] == html_view(
                children[i],
            ),
    decreases children.len(),
{
    if children.len() > 0 {
        lemma_children_view(children.drop_last());
    }
}

impl View for InternalHtml_Text {
    type V = Seq<char>;

    open spec fn view(&self) -> Seq<char> {
        self.f0@
    }
}

impl View for InternalHtmlElementFields {
    type V = ElementView;

    open spec fn view(&self) -> ElementView {
        fields_view(*self)
    }
}

impl View for InternalHtml_Element {
    type V = ElementView;

    open spec fn view(&self) -> ElementView {
        fields_view(self.fields)
    }
}

impl View for InternalHtml {
    type V = InternalHtmlView;

    open spec fn view(&self) -> InternalHtmlView {
        html_view(*self)
    }
}

/// Copies a node and everything below it.
fn clone_node(node: &InternalHtml) -> (r: InternalHtml)
    ensures
        r@ == node@,
    decreases *node, 1int,
{
    match &node.payload {
        union_InternalHtml::Text(text) => InternalHtml {
            payload: union_InternalHtml::Text(InternalHtml_Text { f0: text.f0.clone() }),
        },
        union_InternalHtml::Element(element) => {
            let fields = clone_fields(&element.fields);
            InternalHtml { payload: union_InternalHtml::Element(InternalHtml_Element { fields }) }
        },
    }
}

/// Copies the fields of an element and everything below them.
fn clone_fields(fields: &InternalHtmlElementFields) -> (r: InternalHtmlElementFields)
    ensures
        r@ == fields@,
    decreases *fields, 0int,
{
    let mut attrs: Vec<InternalAttr> = Vec::new();
    let mut i: usize = 0;
    while i < fields.attrs.len()
        invariant
            i <= fields.attrs@.len(),
            attrs@.len() == i,
            forall|k: int| 0 <= k < i ==> (#[trigger] attrs@[k])@ == fields.attrs@[k]@,
        decreases fields.attrs@.len() - i,
    {
        attrs.push(fields.attrs[i].clone());
        i = i + 1;
    }
    assert(attrs_view(attrs@) =~= attrs_view(fields.attrs@));

    let mut children: Vec<InternalHtml> = Vec::new();
    let mut j: usize = 0;
    while j < fields.children.len()
        invariant
            j <= fields.children@.len(),
            children@.len() == j,
            forall|k: int| 0 <= k < j ==> html_view(#[trigger] children@[k]) == html_view(
                fields.children@[k],
            ),
        decreases fields.children@.len() - j,
    {
        children.push(clone_node(&fields.children[j]));
        j = j + 1;
    }
    proof {
        lemma_children_view(children@);
        lemma_children_view(fields.children@);
        assert(children_view(children@) =~= children_view(fields.children@));
    }
    InternalHtmlElementFields { attrs, children, tag: fields.tag.clone() }
}

impl Clone for InternalHtmlElementFields {
    fn clone(&self) -> (r: Self)
        ensures
            r@ == self@,
    {
        clone_fields(self)
    }
}

impl Clone for InternalHtml_Element {
    fn clone(&self) -> (r: Self)
        ensures
            r@ == self@,
    {
        InternalHtml_Element { fields: clone_fields(&self.fields) }
    }
}

impl Clone for InternalHtml {
    fn clone(&self) -> (r: Self)
        ensures
            r@ == self@,
    {
        clone_node(self)
    }
}

impl InternalHtml {
    /// Which variant this node holds.
    pub open spec fn spec_discriminant(self) -> discriminant_InternalHtml {
        match self.payload {
            union_InternalHtml::Element(_) => discriminant_InternalHtml::Element,
            union_InternalHtml::Text(_) => discriminant_InternalHtml::Text,
        }
    }

    /// Which variant this node holds.
    pub fn discriminant(&self) -> (r: discriminant_InternalHtml)
        ensures
            r == self.spec_discriminant(),
    {
        match &self.payload {
            union_InternalHtml::Element(_) => discriminant_InternalHtml::Element,
            union_InternalHtml::Text(_) => discriminant_InternalHtml::Text,
        }
    }

    /// Whether this node is an element.
    pub fn is_Element(&self) -> (r: bool)
        ensures
            r == (self.spec_discriminant() == discriminant_InternalHtml::Element),
    {
        match &self.payload {
            union_InternalHtml::Element(_) => true,
            union_InternalHtml::Text(_) => false,
        }
    }

    /// The element node with these fields.
    pub fn Element(f0: InternalHtmlElementFields) -> (r: Self)
        ensures
            r.payload == union_InternalHtml::Element(InternalHtml_Element { fields: f0 }),
            r.spec_discriminant() == discriminant_InternalHtml::Element,
    {
        InternalHtml { payload: union_InternalHtml::Element(InternalHtml_Element { fields: f0 }) }
    }

    /// The fields of an element node.
    pub fn get_Element_fields(&self) -> (r: &InternalHtmlElementFields)
        requires
            self.spec_discriminant() == discriminant_InternalHtml::Element,
        ensures
            self.payload == union_InternalHtml::Element(InternalHtml_Element { fields: *r }),
    {
        match &self.payload {
            union_InternalHtml::Element(element) => &element.fields,
            union_InternalHtml::Text(_) => vstd::pervasive::unreached(),
        }
    }

    /// The fields of an element node, to be changed in place.
    pub fn get_Element_fields_mut(&mut self) -> (r: &mut InternalHtmlElementFields)
        requires
            old(self).spec_discriminant() == discriminant_InternalHtml::Element,
        ensures
            old(self).payload == union_InternalHtml::Element(InternalHtml_Element { fields: *r }),
            final(self).payload == union_InternalHtml::Element(
                InternalHtml_Element { fields: *final(r) },
            ),
    {
        match &mut self.payload {
            union_InternalHtml::Element(element) => &mut element.fields,
            union_InternalHtml::Text(_) => vstd::pervasive::unreached(),
        }
    }

    /// The payload of an element node, taken out of the node.
    pub fn get_Element(self) -> (r: InternalHtml_Element)
        requires
            self.spec_discriminant() == discriminant_InternalHtml::Element,
        ensures
            self.payload == union_InternalHtml::Element(r),
    {
        match self.payload {
            union_InternalHtml::Element(element) => element,
            union_InternalHtml::Text(_) => vstd::pervasive::unreached(),
        }
    }

    /// Whether this node is a text node.
    pub fn is_Text(&self) -> (r: bool)
        ensures
            r == (self.spec_discriminant() == discriminant_InternalHtml::Text),
    {
        match &self.payload {
            union_InternalHtml::Text(_) => true,
            union_InternalHtml::Element(_) => false,
        }
    }

    /// The text node with this text.
    pub fn Text(f0: String) -> (r: Self)
        ensures
            r.payload == union_InternalHtml::Text(InternalHtml_Text { f0 }),
            r.spec_discriminant() == discriminant_InternalHtml::Text,
    {
        InternalHtml { payload: union_InternalHtml::Text(InternalHtml_Text { f0 }) }
    }

    /// The text of a text node.
    pub fn get_Text_f0(&self) -> (r: &String)
        requires
            self.spec_discriminant() == discriminant_InternalHtml::Text,
        ensures
            self.payload == union_InternalHtml::Text(InternalHtml_Text { f0: *r }),
    {
        match &self.payload {
            union_InternalHtml::Text(text) => &text.f0,
            union_InternalHtml::Element(_) => vstd::pervasive::unreached(),
        }
    }

    /// The payload of a text node, taken out of the node.
    pub fn get_Text(self) -> (r: InternalHtml_Text)
        requires
            self.spec_discriminant() == discriminant_InternalHtml::Text,
        ensures
            self.payload == union_InternalHtml::Text(r),
    {
        match self.payload {
            union_InternalHtml::Text(text) => text,
            union_InternalHtml::Element(_) => vstd::pervasive::unreached(),
        }
    }
}

} // verus!
