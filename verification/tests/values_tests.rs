use galena::layout::{on_event_size, record_size, PointerWidth};
use galena::model::BoxedValue;
use galena::tags::{discriminant_InternalAttr, discriminant_InternalHtml, discriminant_U1};
use galena::values::{
    union_InternalAttr, union_InternalHtml, union_U1, InternalAttr, InternalAttr_Attribute,
    InternalAttr_OnEvent, InternalHtml, InternalHtmlElementFields, InternalHtml_Element,
    InternalHtml_Text, RocFunction, R1, R3, U1, U2,
};

fn attr(payload: union_InternalAttr) -> InternalAttr {
    InternalAttr { payload }
}

fn on_event(name: &str, closure: &[u8]) -> InternalAttr_OnEvent {
    InternalAttr_OnEvent {
        event_type: name.to_string(),
        callback: RocFunction { closure_data: closure.to_vec() },
    }
}

#[test]
fn no_op_has_no_payload() {
    let tag = U2::NoOp();
    assert_eq!(tag, U2());
    assert_eq!(tag.as_NoOp(), ());
    assert_eq!(tag.into_NoOp(), ());
}

#[test]
fn u1_ok_round_trip() {
    let union = U1::new_Ok("to backend".to_string());
    assert_eq!(union.discriminant(), discriminant_U1::OkTag);
    assert!(union.is_Ok());
    assert!(!union.is_Err());
    assert_eq!(union.borrow_Ok(), "to backend");
    assert_eq!(union.unwrap_Ok(), "to backend");
}

#[test]
fn u1_err_round_trip() {
    let mut union = U1::new_Err(U2());
    assert_eq!(union.discriminant(), discriminant_U1::ErrTag);
    assert!(union.is_Err());
    assert!(!union.is_Ok());
    assert_eq!(union.borrow_Err(), U2());
    assert_eq!(*union.borrow_mut_Err(), U2());
    assert_eq!(union.unwrap_Err(), U2());
}

#[test]
fn u1_borrow_mut_changes_the_payload_in_place() {
    let mut union = U1::new_Ok("a".to_string());
    union.borrow_mut_Ok().push('b');
    assert_eq!(union.payload, union_U1::OkPayload("ab".to_string()));
    assert_eq!(union.discriminant(), discriminant_U1::OkTag);
}

#[test]
fn r1_holds_model_and_message() {
    let r1 = R1 { model: BoxedValue { address: 64 }, to_backend: U1::new_Ok("m".to_string()) };
    assert_eq!(r1.model.address, 64);
    assert_eq!(r1.clone(), r1);
}

#[test]
fn default_descriptor_is_empty() {
    let d = R3::default();
    assert_eq!(d.id, "");
    assert_eq!(d.tagName, "");
    assert_eq!(d.value, "");
    assert!(!d.checked);
}

#[test]
fn attr_discriminant_of_every_variant() {
    let pair = InternalAttr_Attribute { f0: "k".to_string(), f1: "v".to_string() };
    let s = || "s".to_string();
    let cases = vec![
        (union_InternalAttr::Alt(s()), discriminant_InternalAttr::Alt),
        (union_InternalAttr::Attribute(pair.clone()), discriminant_InternalAttr::Attribute),
        (union_InternalAttr::Autocomplete(s()), discriminant_InternalAttr::Autocomplete),
        (union_InternalAttr::Checked(true), discriminant_InternalAttr::Checked),
        (union_InternalAttr::Class(s()), discriminant_InternalAttr::Class),
        (union_InternalAttr::DataAttribute(pair.clone()), discriminant_InternalAttr::DataAttribute),
        (union_InternalAttr::Disabled(false), discriminant_InternalAttr::Disabled),
        (union_InternalAttr::Hidden(true), discriminant_InternalAttr::Hidden),
        (union_InternalAttr::Href(s()), discriminant_InternalAttr::Href),
        (union_InternalAttr::Id(s()), discriminant_InternalAttr::Id),
        (union_InternalAttr::Multiple(true), discriminant_InternalAttr::Multiple),
        (union_InternalAttr::Name(s()), discriminant_InternalAttr::Name),
        (union_InternalAttr::OnEvent(on_event("click", &[1])), discriminant_InternalAttr::OnEvent),
        (union_InternalAttr::Placeholder(s()), discriminant_InternalAttr::Placeholder),
        (union_InternalAttr::Readonly(true), discriminant_InternalAttr::Readonly),
        (union_InternalAttr::Required(true), discriminant_InternalAttr::Required),
        (union_InternalAttr::Selected(true), discriminant_InternalAttr::Selected),
        (union_InternalAttr::Src(s()), discriminant_InternalAttr::Src),
        (union_InternalAttr::Style(s()), discriminant_InternalAttr::Style),
        (union_InternalAttr::Tabindex(3), discriminant_InternalAttr::Tabindex),
        (union_InternalAttr::Title(s()), discriminant_InternalAttr::Title),
        (union_InternalAttr::Type(s()), discriminant_InternalAttr::Type),
        (union_InternalAttr::Value(s()), discriminant_InternalAttr::Value),
    ];
    assert_eq!(cases.len(), 23);
    for (index, (payload, tag)) in cases.into_iter().enumerate() {
        assert_eq!(attr(payload).discriminant(), tag);
        assert_eq!(tag.to_byte() as usize, index);
    }
}

#[test]
fn borrow_returns_what_was_written_text_variants() {
    assert_eq!(attr(union_InternalAttr::Alt("a".into())).borrow_Alt(), "a");
    assert_eq!(attr(union_InternalAttr::Autocomplete("b".into())).borrow_Autocomplete(), "b");
    assert_eq!(attr(union_InternalAttr::Class("c".into())).borrow_Class(), "c");
    assert_eq!(attr(union_InternalAttr::Href("d".into())).borrow_Href(), "d");
    assert_eq!(attr(union_InternalAttr::Id("e".into())).borrow_Id(), "e");
    assert_eq!(attr(union_InternalAttr::Name("f".into())).borrow_Name(), "f");
    assert_eq!(attr(union_InternalAttr::Placeholder("g".into())).borrow_Placeholder(), "g");
    assert_eq!(attr(union_InternalAttr::Src("h".into())).borrow_Src(), "h");
    assert_eq!(attr(union_InternalAttr::Style("i".into())).borrow_Style(), "i");
    assert_eq!(attr(union_InternalAttr::Title("j".into())).borrow_Title(), "j");
    assert_eq!(attr(union_InternalAttr::Type("k".into())).borrow_Type(), "k");
    assert_eq!(attr(union_InternalAttr::Value("l".into())).borrow_Value(), "l");
}

#[test]
fn borrow_returns_what_was_written_flag_and_number_variants() {
    for on in [false, true] {
        assert_eq!(attr(union_InternalAttr::Checked(on)).borrow_Checked(), on);
        assert_eq!(attr(union_InternalAttr::Disabled(on)).borrow_Disabled(), on);
        assert_eq!(attr(union_InternalAttr::Hidden(on)).borrow_Hidden(), on);
        assert_eq!(attr(union_InternalAttr::Multiple(on)).borrow_Multiple(), on);
        assert_eq!(attr(union_InternalAttr::Readonly(on)).borrow_Readonly(), on);
        assert_eq!(attr(union_InternalAttr::Required(on)).borrow_Required(), on);
        assert_eq!(attr(union_InternalAttr::Selected(on)).borrow_Selected(), on);
    }
    for n in [i32::MIN, -1, 0, 5, i32::MAX] {
        assert_eq!(attr(union_InternalAttr::Tabindex(n)).borrow_Tabindex(), n);
    }
}

#[test]
fn borrow_returns_what_was_written_composite_variants() {
    let pair = InternalAttr_Attribute { f0: "role".to_string(), f1: "button".to_string() };
    assert_eq!(attr(union_InternalAttr::Attribute(pair.clone())).borrow_Attribute(), &pair);
    assert_eq!(attr(union_InternalAttr::DataAttribute(pair.clone())).borrow_DataAttribute(), &pair);
    let event = on_event("click", &[9, 8, 7]);
    assert_eq!(attr(union_InternalAttr::OnEvent(event.clone())).borrow_OnEvent(), &event);
}

#[test]
fn borrow_mut_changes_text_variants_in_place() {
    let mut a = attr(union_InternalAttr::Alt("x".into()));
    a.borrow_mut_Alt().push('!');
    assert_eq!(a.payload, union_InternalAttr::Alt("x!".into()));
    let mut a = attr(union_InternalAttr::Autocomplete("x".into()));
    *a.borrow_mut_Autocomplete() = "off".into();
    assert_eq!(a.payload, union_InternalAttr::Autocomplete("off".into()));
    let mut a = attr(union_InternalAttr::Class("x".into()));
    *a.borrow_mut_Class() = "y".into();
    assert_eq!(a.payload, union_InternalAttr::Class("y".into()));
    let mut a = attr(union_InternalAttr::Href("x".into()));
    *a.borrow_mut_Href() = "y".into();
    assert_eq!(a.payload, union_InternalAttr::Href("y".into()));
    let mut a = attr(union_InternalAttr::Id("x".into()));
    *a.borrow_mut_Id() = "y".into();
    assert_eq!(a.payload, union_InternalAttr::Id("y".into()));
    let mut a = attr(union_InternalAttr::Name("x".into()));
    *a.borrow_mut_Name() = "y".into();
    assert_eq!(a.payload, union_InternalAttr::Name("y".into()));
    let mut a = attr(union_InternalAttr::Placeholder("x".into()));
    *a.borrow_mut_Placeholder() = "y".into();
    assert_eq!(a.payload, union_InternalAttr::Placeholder("y".into()));
    let mut a = attr(union_InternalAttr::Src("x".into()));
    *a.borrow_mut_Src() = "y".into();
    assert_eq!(a.payload, union_InternalAttr::Src("y".into()));
    let mut a = attr(union_InternalAttr::Style("x".into()));
    *a.borrow_mut_Style() = "y".into();
    assert_eq!(a.payload, union_InternalAttr::Style("y".into()));
    let mut a = attr(union_InternalAttr::Title("x".into()));
    *a.borrow_mut_Title() = "y".into();
    assert_eq!(a.payload, union_InternalAttr::Title("y".into()));
    let mut a = attr(union_InternalAttr::Type("x".into()));
    *a.borrow_mut_Type() = "y".into();
    assert_eq!(a.payload, union_InternalAttr::Type("y".into()));
    let mut a = attr(union_InternalAttr::Value("x".into()));
    *a.borrow_mut_Value() = "y".into();
    assert_eq!(a.payload, union_InternalAttr::Value("y".into()));
}

#[test]
fn borrow_mut_changes_other_variants_in_place() {
    let mut a = attr(union_InternalAttr::Checked(false));
    *a.borrow_mut_Checked() = true;
    assert_eq!(a.payload, union_InternalAttr::Checked(true));
    let mut a = attr(union_InternalAttr::Disabled(false));
    *a.borrow_mut_Disabled() = true;
    assert_eq!(a.payload, union_InternalAttr::Disabled(true));
    let mut a = attr(union_InternalAttr::Hidden(false));
    *a.borrow_mut_Hidden() = true;
    assert_eq!(a.payload, union_InternalAttr::Hidden(true));
    let mut a = attr(union_InternalAttr::Multiple(false));
    *a.borrow_mut_Multiple() = true;
    assert_eq!(a.payload, union_InternalAttr::Multiple(true));
    let mut a = attr(union_InternalAttr::Readonly(false));
    *a.borrow_mut_Readonly() = true;
    assert_eq!(a.payload, union_InternalAttr::Readonly(true));
    let mut a = attr(union_InternalAttr::Required(false));
    *a.borrow_mut_Required() = true;
    assert_eq!(a.payload, union_InternalAttr::Required(true));
    let mut a = attr(union_InternalAttr::Selected(false));
    *a.borrow_mut_Selected() = true;
    assert_eq!(a.payload, union_InternalAttr::Selected(true));
    let mut a = attr(union_InternalAttr::Tabindex(1));
    *a.borrow_mut_Tabindex() = -4;
    assert_eq!(a.payload, union_InternalAttr::Tabindex(-4));
    let pair = InternalAttr_Attribute { f0: "k".to_string(), f1: "v".to_string() };
    let mut a = attr(union_InternalAttr::Attribute(pair.clone()));
    a.borrow_mut_Attribute().f1 = "w".to_string();
    assert_eq!(a.borrow_Attribute().f1, "w");
    let mut a = attr(union_InternalAttr::DataAttribute(pair));
    a.borrow_mut_DataAttribute().f0 = "j".to_string();
    assert_eq!(a.borrow_DataAttribute().f0, "j");
    let mut a = attr(union_InternalAttr::OnEvent(on_event("click", &[1])));
    a.borrow_mut_OnEvent().event_type = "input".to_string();
    assert_eq!(a.borrow_OnEvent().event_type, "input");
    assert_eq!(a.discriminant(), discriminant_InternalAttr::OnEvent);
}

#[test]
fn record_sizes_on_this_machine() {
    let width = PointerWidth::native();
    for closure in [0usize, 1, 8, 20, 100] {
        assert_eq!(InternalAttr::size(closure), record_size(width, closure));
        assert_eq!(InternalAttr_OnEvent::size(closure), on_event_size(width, closure));
        assert_eq!(InternalAttr::size(closure), InternalAttr::size(closure));
    }
}

#[test]
fn on_event_hands_out_copies() {
    let event = on_event("keydown", &[1, 2, 3, 4]);
    assert_eq!(event.event_type(), "keydown");
    let callback = event.event_callback();
    assert_eq!(callback.closure_data, vec![1, 2, 3, 4]);
    assert_eq!(callback, event.callback);
}

#[test]
fn text_node_round_trip() {
    let node = InternalHtml::Text("hello".to_string());
    assert_eq!(node.discriminant(), discriminant_InternalHtml::Text);
    assert!(node.is_Text());
    assert!(!node.is_Element());
    assert_eq!(node.get_Text_f0(), "hello");
    assert_eq!(node.get_Text(), InternalHtml_Text { f0: "hello".to_string() });
}

#[test]
fn element_node_round_trip() {
    let fields = || InternalHtmlElementFields {
        attrs: vec![attr(union_InternalAttr::Id("main".into()))],
        children: vec![InternalHtml::Text("x".to_string())],
        tag: "div".to_string(),
    };
    let mut node = InternalHtml::Element(fields());
    assert_eq!(node.discriminant(), discriminant_InternalHtml::Element);
    assert!(node.is_Element());
    assert!(!node.is_Text());
    assert_eq!(node.get_Element_fields(), &fields());
    node.get_Element_fields_mut().tag = "span".to_string();
    assert_eq!(node.get_Element_fields().tag, "span");
    assert_eq!(node.get_Element_fields().children.len(), 1);
    let element = node.get_Element();
    assert_eq!(element.fields.attrs, fields().attrs);
}

#[test]
fn node_payloads() {
    let text = InternalHtml::Text("t".to_string());
    assert_eq!(text.payload, union_InternalHtml::Text(InternalHtml_Text { f0: "t".to_string() }));
    let fields = InternalHtmlElementFields { attrs: vec![], children: vec![], tag: "p".into() };
    let element = InternalHtml::Element(InternalHtmlElementFields {
        attrs: vec![],
        children: vec![],
        tag: "p".into(),
    });
    assert_eq!(element.payload, union_InternalHtml::Element(InternalHtml_Element { fields }));
}

#[test]
fn clones_are_equal_to_what_they_copy() {
    let event = on_event("click", &[1, 2, 3]);
    assert_eq!(event.clone(), event);
    let pair = InternalAttr_Attribute { f0: "k".to_string(), f1: "v".to_string() };
    assert_eq!(pair.clone(), pair);
    let tree = InternalHtml::Element(InternalHtmlElementFields {
        attrs: vec![
            attr(union_InternalAttr::Id("main".into())),
            attr(union_InternalAttr::Tabindex(-3)),
            attr(union_InternalAttr::Checked(true)),
            attr(union_InternalAttr::DataAttribute(pair)),
            attr(union_InternalAttr::OnEvent(event)),
        ],
        children: vec![
            InternalHtml::Text("one".to_string()),
            InternalHtml::Element(InternalHtmlElementFields {
                attrs: vec![attr(union_InternalAttr::Class("inner".into()))],
                children: vec![InternalHtml::Text("two".to_string())],
                tag: "span".to_string(),
            }),
        ],
        tag: "div".to_string(),
    });
    let copy = tree.clone();
    assert_eq!(copy, tree);
    assert_eq!(copy.get_Element_fields().clone(), *tree.get_Element_fields());
    for attribute in &tree.get_Element_fields().attrs {
        assert_eq!(&attribute.clone(), attribute);
    }
}

#[test]
fn a_clone_does_not_share_with_its_source() {
    let mut tree = InternalHtml::Element(InternalHtmlElementFields {
        attrs: vec![],
        children: vec![InternalHtml::Text("one".to_string())],
        tag: "div".to_string(),
    });
    let copy = tree.clone();
    tree.get_Element_fields_mut().tag = "p".to_string();
    assert_eq!(copy.get_Element_fields().tag, "div");
    assert_eq!(tree.get_Element_fields().tag, "p");
}

#[test]
fn u1_equality_compares_tag_then_payload() {
    assert_eq!(U1::new_Ok("a".to_string()), U1::new_Ok("a".to_string()));
    assert_ne!(U1::new_Ok("a".to_string()), U1::new_Ok("b".to_string()));
    assert_ne!(U1::new_Ok(String::new()), U1::new_Err(U2()));
    assert_eq!(U1::new_Err(U2()), U1::new_Err(U2()));
    assert_eq!(U1::new_Ok("a".to_string()).clone(), U1::new_Ok("a".to_string()));
    assert_eq!(U1::new_Err(U2()).clone(), U1::new_Err(U2()));
}

#[test]
fn u1_order_is_by_tag_then_payload() {
    assert!(U1::new_Err(U2()) < U1::new_Ok(String::new()));
    assert!(U1::new_Ok("a".to_string()) < U1::new_Ok("b".to_string()));
    assert!(U1::new_Ok("b".to_string()) > U1::new_Ok("a".to_string()));
    assert_eq!(
        U1::new_Ok("a".to_string()).cmp(&U1::new_Ok("a".to_string())),
        std::cmp::Ordering::Equal
    );
}
