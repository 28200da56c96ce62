//! From a fired DOM event to the fixed-shape record that guest code takes.

use vstd::prelude::*;
use crate::values::{InternalEvent, InternalEventView, R3, R3View};

verus! {

/// The live state of an input element.
#[derive(Clone, Debug, PartialEq, Eq)]
pub struct InputState {
    pub value: String,
    pub checked: bool,
}

/// What the host reads off an element that an event was aimed at.
#[derive(Clone, Debug, PartialEq, Eq)]
pub struct ElementInfo {
    /// The `id` attribute, if the element has one.
    pub id: Option<String>,
    /// The tag name as the DOM reports it.
    pub tag_name: String,
    /// The live state, if the element is an input.
    pub input: Option<InputState>,
}

/// What an event was aimed at.
#[derive(Clone, Debug, PartialEq, Eq)]
pub enum EventTargetInfo {
    /// An element of the document.
    Element(ElementInfo),
    /// Something that is not an element, such as the window.
    Other,
}

/// What the host reads off a keyboard event.
#[derive(Clone, Debug, PartialEq, Eq)]
pub struct KeyboardInfo {
    pub key: String,
    pub code: String,
    pub alt_key: bool,
    pub ctrl_key: bool,
    pub shift_key: bool,
    pub meta_key: bool,
}

/// What the host reads off a mouse event.
#[derive(Clone, Copy, Debug, PartialEq, Eq, Structural)]
pub struct MouseInfo {
    pub button: i16,
    pub client_x: i32,
    pub client_y: i32,
    pub alt_key: bool,
    pub ctrl_key: bool,
    pub shift_key: bool,
    pub meta_key: bool,
}

/// A fired DOM event, as plain values.
#[derive(Clone, Debug, PartialEq, Eq)]
pub struct WebEvent {
    pub event_type: String,
    pub target: Option<EventTargetInfo>,
    pub current_target: Option<EventTargetInfo>,
    /// Present if the event is a keyboard event.
    pub keyboard: Option<KeyboardInfo>,
    /// Present if the event is a mouse event.
    pub mouse: Option<MouseInfo>,
}

/// The lower-case form of a text, as `str::to_lowercase` gives it.
pub uninterp spec fn lowercase_text(text: Seq<char>) -> Seq<char>;

/// Calls `str::to_lowercase`. The contract names the result: the lower-case
/// form is a function of the text alone, by the Unicode tables that the
/// standard library carries.
#[verifier::external_body]
fn to_lowercase(text: &str) -> (r: String)
    ensures
        r@ == lowercase_text(text@),
{
    text.to_lowercase()
}

/// The descriptor of an event target: of an element its id (empty without
/// one), its tag name in lower case and, for an input, its live value and
/// checked state; of anything else the empty descriptor.
pub open spec fn spec_target_info(target: Option<EventTargetInfo>) -> R3View {
    match target {
        Some(EventTargetInfo::Element(element)) => R3View {
            id: match element.id {
                Some(id) => id@,
                None => Seq::<char>::empty(),
            },
            tagName: lowercase_text(element.tag_name@),
            value: match element.input {
                Some(input) => input.value@,
                None => Seq::<char>::empty(),
            },
            checked: match element.input {
                Some(input) => input.checked,
                None => false,
            },
        },
        _ => R3View::empty(),
    }
}

/// The event record of a fired event. Key and code come from a keyboard
/// event; button and coordinates from a mouse event; the modifier flags from
/// the mouse event if there is one, else from the keyboard event. The host
/// honours neither flag of the guest, so both are false.
pub open spec fn spec_convert_event(event: WebEvent) -> InternalEventView {
    InternalEventView {
        eventType: event.event_type@,
        target: spec_target_info(event.target),
        currentTarget: spec_target_info(event.current_target),
        key: match event.keyboard {
            Some(keyboard) => keyboard.key@,
            None => Seq::<char>::empty(),
        },
        code: match event.keyboard {
            Some(keyboard) => keyboard.code@,
            None => Seq::<char>::empty(),
        },
        button: match event.mouse {
            Some(mouse) => mouse.button as int,
            None => 0,
        },
        clientX: match event.mouse {
            Some(mouse) => mouse.client_x as int,
            None => 0,
        },
        clientY: match event.mouse {
            Some(mouse) => mouse.client_y as int,
            None => 0,
        },
        altKey: match (event.mouse, event.keyboard) {
            (Some(mouse), _) => mouse.alt_key,
            (None, Some(keyboard)) => keyboard.alt_key,
            (None, None) => false,
        },
        ctrlKey: match (event.mouse, event.keyboard) {
            (Some(mouse), _) => mouse.ctrl_key,
            (None, Some(keyboard)) => keyboard.ctrl_key,
            (None, None) => false,
        },
        shiftKey: match (event.mouse, event.keyboard) {
            (Some(mouse), _) => mouse.shift_key,
            (None, Some(keyboard)) => keyboard.shift_key,
            (None, None) => false,
        },
        metaKey: match (event.mouse, event.keyboard) {
            (Some(mouse), _) => mouse.meta_key,
            (None, Some(keyboard)) => keyboard.meta_key,
            (None, None) => false,
        },
        preventDefault: false,
        stopPropagation: false,
    }
}

/// Describes the target of an event for guest code.
pub fn get_target_info(target: Option<&EventTargetInfo>) -> (r: R3)
    ensures
        r@ == spec_target_info(
            match target {
                Some(info) => Some(*info),
                None => None,
            },
        ),
{
    if let Some(target) = target {
        if let EventTargetInfo::Element(element) = target {
            let id = match &element.id {
                Some(id) => id.clone(),
                None => String::new(),
            };
            let tag_name = to_lowercase(element.tag_name.as_str());

            let (value, checked) = if let Some(input) = &element.input {
                (input.value.clone(), input.checked)
            } else {
                (String::new(), false)
            };

            R3 { id, tagName: tag_name, value, checked }
        } else {
            R3::default()
        }
    } else {
        R3::default()
    }
}

/// Converts a fired DOM event into the record that guest code takes.
pub fn convert_web_event_to_internal(event: &WebEvent) -> (r: InternalEvent)
    ensures
        r@ == spec_convert_event(*event),
{
    // Get target information
    let target = get_target_info(event.target.as_ref());
    let current_target = get_target_info(event.current_target.as_ref());

    // Handle keyboard events
    let (key, code) = if let Some(keyboard_event) = &event.keyboard {
        (keyboard_event.key.clone(), keyboard_event.code.clone())
    } else {
        (String::new(), String::new())
    };

    // Handle mouse events
    let (button, client_x, client_y, alt_key, ctrl_key, shift_key, meta_key) = if let Some(
        mouse_event,
    ) = &event.mouse {
        (
            mouse_event.button,
            mouse_event.client_x,
            mouse_event.client_y,
            mouse_event.alt_key,
            mouse_event.ctrl_key,
            mouse_event.shift_key,
            mouse_event.meta_key,
        )
    } else if let Some(keyboard_event) = &event.keyboard {
        (
            0i16,
            0i32,
            0i32,
            keyboard_event.alt_key,
            keyboard_event.ctrl_key,
            keyboard_event.shift_key,
            keyboard_event.meta_key,
        )
    } else {
        (0i16, 0i32, 0i32, false, false, false, false)
    };

    InternalEvent {
        eventType: event.event_type.clone(),
        target,
        currentTarget: current_target,
        key,
        code,
        button: button as i32,
        clientX: client_x,
        clientY: client_y,
        altKey: alt_key,
        ctrlKey: ctrl_key,
        shiftKey: shift_key,
        metaKey: meta_key,
        preventDefault: false,
        stopPropagation: false,
    }
}

} // verus!
