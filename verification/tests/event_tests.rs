use galena::event::{
    convert_web_event_to_internal, get_target_info, ElementInfo, EventTargetInfo, InputState,
    KeyboardInfo, MouseInfo, WebEvent,
};
use galena::values::{InternalEvent, R3};

fn input_element() -> EventTargetInfo {
    EventTargetInfo::Element(ElementInfo {
        id: Some("name".to_string()),
        tag_name: "INPUT".to_string(),
        input: Some(InputState { value: "Ada".to_string(), checked: true }),
    })
}

fn plain_event(event_type: &str) -> WebEvent {
    WebEvent {
        event_type: event_type.to_string(),
        target: None,
        current_target: None,
        keyboard: None,
        mouse: None,
    }
}

fn empty_target() -> R3 {
    R3 { id: String::new(), tagName: String::new(), value: String::new(), checked: false }
}

#[test]
fn no_target_gives_the_empty_descriptor() {
    assert_eq!(get_target_info(None), empty_target());
}

#[test]
fn a_target_that_is_no_element_gives_the_empty_descriptor() {
    assert_eq!(get_target_info(Some(&EventTargetInfo::Other)), empty_target());
}

#[test]
fn input_target_reports_live_state_and_lower_case_tag() {
    assert_eq!(
        get_target_info(Some(&input_element())),
        R3 {
            id: "name".to_string(),
            tagName: "input".to_string(),
            value: "Ada".to_string(),
            checked: true,
        }
    );
}

#[test]
fn element_without_id_or_input_state() {
    let div = EventTargetInfo::Element(ElementInfo {
        id: None,
        tag_name: "DIV".to_string(),
        input: None,
    });
    assert_eq!(
        get_target_info(Some(&div)),
        R3 { id: String::new(), tagName: "div".to_string(), value: String::new(), checked: false }
    );
}

#[test]
fn tag_names_are_lowered_beyond_ascii() {
    let odd = EventTargetInfo::Element(ElementInfo {
        id: None,
        tag_name: "X-ÄB".to_string(),
        input: None,
    });
    assert_eq!(get_target_info(Some(&odd)).tagName, "x-äb");
}

#[test]
fn plain_event_has_zeroes_and_false_flags() {
    let record = convert_web_event_to_internal(&plain_event("change"));
    assert_eq!(
        record,
        InternalEvent {
            button: 0,
            clientX: 0,
            clientY: 0,
            code: String::new(),
            currentTarget: empty_target(),
            eventType: "change".to_string(),
            key: String::new(),
            target: empty_target(),
            altKey: false,
            ctrlKey: false,
            metaKey: false,
            preventDefault: false,
            shiftKey: false,
            stopPropagation: false,
        }
    );
}

#[test]
fn mouse_event_carries_button_coordinates_and_modifiers() {
    let mut event = plain_event("click");
    event.target = Some(input_element());
    event.current_target = Some(EventTargetInfo::Other);
    event.mouse = Some(MouseInfo {
        button: 2,
        client_x: 120,
        client_y: -4,
        alt_key: true,
        ctrl_key: false,
        shift_key: true,
        meta_key: false,
    });
    let record = convert_web_event_to_internal(&event);
    assert_eq!(record.eventType, "click");
    assert_eq!(record.button, 2);
    assert_eq!(record.clientX, 120);
    assert_eq!(record.clientY, -4);
    assert!(record.altKey);
    assert!(!record.ctrlKey);
    assert!(record.shiftKey);
    assert!(!record.metaKey);
    assert_eq!(record.key, "");
    assert_eq!(record.code, "");
    assert_eq!(record.target.tagName, "input");
    assert_eq!(record.target.value, "Ada");
    assert_eq!(record.currentTarget, empty_target());
    assert!(!record.preventDefault);
    assert!(!record.stopPropagation);
}

#[test]
fn negative_button_is_widened_with_its_sign() {
    let mut event = plain_event("mousemove");
    event.mouse = Some(MouseInfo {
        button: -1,
        client_x: 0,
        client_y: 0,
        alt_key: false,
        ctrl_key: false,
        shift_key: false,
        meta_key: false,
    });
    assert_eq!(convert_web_event_to_internal(&event).button, -1);
}

#[test]
fn keyboard_event_carries_key_code_and_modifiers() {
    let mut event = plain_event("keydown");
    event.keyboard = Some(KeyboardInfo {
        key: "Enter".to_string(),
        code: "NumpadEnter".to_string(),
        alt_key: false,
        ctrl_key: true,
        shift_key: false,
        meta_key: true,
    });
    let record = convert_web_event_to_internal(&event);
    assert_eq!(record.key, "Enter");
    assert_eq!(record.code, "NumpadEnter");
    assert_eq!(record.button, 0);
    assert_eq!(record.clientX, 0);
    assert_eq!(record.clientY, 0);
    assert!(!record.altKey);
    assert!(record.ctrlKey);
    assert!(!record.shiftKey);
    assert!(record.metaKey);
}

#[test]
fn mouse_modifiers_win_over_keyboard_modifiers() {
    let mut event = plain_event("click");
    event.keyboard = Some(KeyboardInfo {
        key: "a".to_string(),
        code: "KeyA".to_string(),
        alt_key: true,
        ctrl_key: true,
        shift_key: true,
        meta_key: true,
    });
    event.mouse = Some(MouseInfo {
        button: 1,
        client_x: 3,
        client_y: 4,
        alt_key: false,
        ctrl_key: false,
        shift_key: false,
        meta_key: false,
    });
    let record = convert_web_event_to_internal(&event);
    assert_eq!(record.key, "a");
    assert_eq!(record.code, "KeyA");
    assert_eq!(record.button, 1);
    assert!(!record.altKey && !record.ctrlKey && !record.shiftKey && !record.metaKey);
}
