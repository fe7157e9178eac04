use water_controller_relay::input::{
    parse_input_line, ButtonInput, ControllerInput, ControllerValue,
};
use water_controller_relay::message::{encode_frame, ButtonInputMessage, ControllerInputMessage};

#[test]
fn test_button_input_message_serialization() {
    let button = ButtonInput { is_pushed: true };

    let message = ButtonInputMessage::new(&button);
    let json = message.to_json();

    assert_eq!(json, r#"{"type":"button-input","isPushed":true}"#);
}

#[test]
fn test_controller_input_message_serialization() {
    let controller = ControllerInput {
        left: ControllerValue::Noinput(0),
        right: ControllerValue::Low(1),
        up: ControllerValue::High(1),
        down: ControllerValue::Middle(1),
    };

    let message = ControllerInputMessage::new(&controller);
    let json = message.to_json();

    assert_eq!(
        json,
        r#"{"type":"controller-input","left":0,"right":1,"up":2,"down":2}"#
    );
}

#[test]
fn test_controller_value_to_int_conversion() {
    let noinput = ControllerValue::Noinput(0);
    let low = ControllerValue::Low(1);
    let middle = ControllerValue::Middle(1);
    let high = ControllerValue::High(1);

    let noinput_int = ControllerInputMessage::value_to_int(&noinput);
    let low_int = ControllerInputMessage::value_to_int(&low);
    let middle_int = ControllerInputMessage::value_to_int(&middle);
    let high_int = ControllerInputMessage::value_to_int(&high);

    assert_eq!(noinput_int, 0);
    assert_eq!(low_int, 1);
    assert_eq!(middle_int, 2);
    assert_eq!(high_int, 2);
}

#[test]
fn zero_line_encodes_to_both_messages() {
    let frame = parse_input_line("0,0,0,0,0,0,0,0,0").unwrap();
    let (button, controller) = encode_frame(&frame);
    assert_eq!(button, r#"{"type":"button-input","isPushed":false}"#);
    assert_eq!(
        controller,
        r#"{"type":"controller-input","left":0,"right":0,"up":0,"down":0}"#
    );
}

#[test]
fn mixed_line_encodes_levels_by_direction() {
    let frame = parse_input_line("1,1,0,1,1,1,0,1,1").unwrap();
    let (button, controller) = encode_frame(&frame);
    assert_eq!(button, r#"{"type":"button-input","isPushed":true}"#);
    assert_eq!(
        controller,
        r#"{"type":"controller-input","left":2,"right":2,"up":1,"down":1}"#
    );
}

#[test]
fn encoding_twice_gives_identical_text() {
    let frame = parse_input_line("1,1,1,0,0,1,0,1,0").unwrap();
    let first = encode_frame(&frame);
    let second = encode_frame(&frame.clone());
    assert_eq!(first, second);
    assert_eq!(
        first.1,
        r#"{"type":"controller-input","left":1,"right":0,"up":2,"down":1}"#
    );
}

#[test]
fn type_tag_is_escaped_as_a_json_string() {
    let message = ButtonInputMessage {
        message_type: "a\"b\\c\nd\u{1}".to_string(),
        is_pushed: false,
    };
    assert_eq!(
        message.to_json(),
        r#"{"type":"a\"b\\c\nd\u0001","isPushed":false}"#
    );
}

#[test]
fn levels_are_written_in_decimal() {
    let message = ControllerInputMessage {
        message_type: "controller-input".to_string(),
        left: -12,
        right: 1234567,
        up: i32::MIN,
        down: i32::MAX,
    };
    assert_eq!(
        message.to_json(),
        r#"{"type":"controller-input","left":-12,"right":1234567,"up":-2147483648,"down":2147483647}"#
    );
}
