use water_controller_relay::input::{
    parse_input_line, ControllerValue, ParseInputError, FIELD_COUNT,
};

#[test]
fn parse_zero_line() {
    let line = "0,0,0,0,0,0,0,0,0";
    let input = parse_input_line(line).unwrap();

    assert!(!input.button.is_pushed);
    assert_eq!(input.controller.up, ControllerValue::Noinput(0));
    assert_eq!(input.controller.right, ControllerValue::Noinput(0));
    assert_eq!(input.controller.down, ControllerValue::Noinput(0));
    assert_eq!(input.controller.left, ControllerValue::Noinput(0));
}

#[test]
fn parse_mixed_levels() {
    let line = "1,1,0,1,1,1,0,1,1";
    let input = parse_input_line(line).unwrap();

    assert!(input.button.is_pushed);
    assert_eq!(input.controller.up, ControllerValue::Low(1));
    assert_eq!(input.controller.right, ControllerValue::High(1));
    assert_eq!(input.controller.down, ControllerValue::Low(1));
    assert_eq!(input.controller.left, ControllerValue::High(1));
}

#[test]
fn invalid_button_value_rejected() {
    let line = "2,0,0,0,0,0,0,0,0";
    let err = parse_input_line(line).unwrap_err();
    match err {
        ParseInputError::InvalidButtonValue(value) => assert_eq!(value, 2),
        other => panic!("unexpected error: {other:?}"),
    }
}

#[test]
fn invalid_field_count() {
    let line = "0,0,0";
    let err = parse_input_line(line).unwrap_err();
    match err {
        ParseInputError::FieldCount { expected, actual } => {
            assert_eq!(expected, FIELD_COUNT);
            assert_eq!(actual, 3);
        }
        other => panic!("unexpected error variant: {other:?}"),
    }
}

#[test]
fn invalid_controller_value_is_rejected() {
    let line = "0,0,0,0,2,0,0,0,0";
    let err = parse_input_line(line).unwrap_err();
    match err {
        ParseInputError::InvalidControllerValue { index, value } => {
            assert_eq!(index, 4);
            assert_eq!(value, 2);
        }
        other => panic!("unexpected error variant: {other:?}"),
    }
}

#[test]
fn invalid_controller_combination_is_rejected() {
    let line = "0,0,0,0,1,0,0,0,0";
    let err = parse_input_line(line).unwrap_err();
    match err {
        ParseInputError::InvalidControllerCombination {
            low_index,
            high_index,
            low_value,
            high_value,
        } => {
            assert_eq!(low_index, 3);
            assert_eq!(high_index, 4);
            assert_eq!(low_value, 0);
            assert_eq!(high_value, 1);
        }
        other => panic!("unexpected error variant: {other:?}"),
    }
}

fn field_count_of(line: &str) -> (usize, usize) {
    match parse_input_line(line) {
        Err(ParseInputError::FieldCount { expected, actual }) => (expected, actual),
        other => panic!("expected a field-count error, got {other:?}"),
    }
}

#[test]
fn empty_and_blank_lines_have_no_fields() {
    assert_eq!(field_count_of(""), (9, 0));
    assert_eq!(field_count_of("   \t "), (9, 0));
    assert_eq!(field_count_of("\r\n"), (9, 0));
}

#[test]
fn field_count_reports_exact_count() {
    assert_eq!(field_count_of("0"), (9, 1));
    assert_eq!(field_count_of("0,0,0,0,0,0,0,0"), (9, 8));
    assert_eq!(field_count_of("0,0,0,0,0,0,0,0,0,0"), (9, 10));
    assert_eq!(field_count_of("0,0,0,0,0,0,0,0,0,"), (9, 10));
    assert_eq!(field_count_of(",,"), (9, 3));
}

#[test]
fn surrounding_white_space_is_ignored() {
    let input = parse_input_line("  1, 1 ,0,1,1,1,0, 1,1\r\n").unwrap();
    assert!(input.button.is_pushed);
    assert_eq!(input.controller.up, ControllerValue::Low(1));
    assert_eq!(input.controller.left, ControllerValue::High(1));
}

#[test]
fn signed_integers_are_accepted() {
    let input = parse_input_line("+1,-0,0,+0,0,1,0,0,0").unwrap();
    assert!(input.button.is_pushed);
    assert_eq!(input.controller.up, ControllerValue::Noinput(0));
    assert_eq!(input.controller.down, ControllerValue::Low(1));
}

#[test]
fn non_integer_field_is_reported_with_index_and_text() {
    match parse_input_line("0,0,0,x1 ,0,0,0,0,0") {
        Err(ParseInputError::ParseInt { index, value, .. }) => {
            assert_eq!(index, 3);
            assert_eq!(value, "x1");
        }
        other => panic!("unexpected result: {other:?}"),
    }
    match parse_input_line("0,0,0,0,0,0,0,0,  ,") {
        Err(ParseInputError::FieldCount { actual, .. }) => assert_eq!(actual, 10),
        other => panic!("unexpected result: {other:?}"),
    }
    match parse_input_line("0,0,0,0,0,0,0,0, ;") {
        Err(ParseInputError::ParseInt { index, value, .. }) => {
            assert_eq!(index, 8);
            assert_eq!(value, ";");
        }
        other => panic!("unexpected result: {other:?}"),
    }
}

#[test]
fn out_of_range_integer_is_a_parse_error() {
    match parse_input_line("99999999999,0,0,0,0,0,0,0,0") {
        Err(ParseInputError::ParseInt { index, value, .. }) => {
            assert_eq!(index, 0);
            assert_eq!(value, "99999999999");
        }
        other => panic!("unexpected result: {other:?}"),
    }
}

#[test]
fn invalid_button_value_carries_exact_value() {
    match parse_input_line("-7,0,0,0,0,0,0,0,0") {
        Err(ParseInputError::InvalidButtonValue(v)) => assert_eq!(v, -7),
        other => panic!("unexpected result: {other:?}"),
    }
}

#[test]
fn first_failure_from_the_left_wins() {
    match parse_input_line("2,0,0,0,0,0,0,0,x") {
        Err(ParseInputError::InvalidButtonValue(v)) => assert_eq!(v, 2),
        other => panic!("unexpected result: {other:?}"),
    }
    match parse_input_line("0,0,1,0,0,0,0,0,5") {
        Err(ParseInputError::InvalidControllerCombination { low_index, high_index, .. }) => {
            assert_eq!((low_index, high_index), (1, 2));
        }
        other => panic!("unexpected result: {other:?}"),
    }
    match parse_input_line("0,0,0,0,0,0,0,1,3") {
        Err(ParseInputError::InvalidControllerValue { index, value }) => {
            assert_eq!((index, value), (8, 3));
        }
        other => panic!("unexpected result: {other:?}"),
    }
}

#[test]
fn each_pair_reports_its_own_combination() {
    let cases = [
        ("0,0,1,0,0,0,0,0,0", 1, 2),
        ("0,0,0,0,1,0,0,0,0", 3, 4),
        ("0,0,0,0,0,0,1,0,0", 5, 6),
        ("0,0,0,0,0,0,0,0,1", 7, 8),
    ];
    for (line, low, high) in cases {
        match parse_input_line(line) {
            Err(ParseInputError::InvalidControllerCombination {
                low_index,
                high_index,
                low_value,
                high_value,
            }) => {
                assert_eq!((low_index, high_index, low_value, high_value), (low, high, 0, 1));
            }
            other => panic!("unexpected result for {line}: {other:?}"),
        }
    }
}

#[test]
fn every_well_formed_line_is_accepted() {
    for bits in 0u32..512 {
        let fields: Vec<u32> = (0..9).map(|i| (bits >> i) & 1).collect();
        let line = fields.iter().map(|v| v.to_string()).collect::<Vec<_>>().join(",");
        let consistent = (0..4).all(|k| !(fields[2 * k + 2] == 1 && fields[2 * k + 1] == 0));
        let result = parse_input_line(&line);
        if !consistent {
            assert!(matches!(
                result,
                Err(ParseInputError::InvalidControllerCombination { .. })
            ));
            continue;
        }
        let frame = result.unwrap();
        assert_eq!(frame.button.is_pushed, fields[0] == 1);
        let expect = |low: u32, high: u32| {
            if high == 1 {
                ControllerValue::High(1)
            } else if low == 1 {
                ControllerValue::Low(1)
            } else {
                ControllerValue::Noinput(0)
            }
        };
        assert_eq!(frame.controller.up, expect(fields[1], fields[2]));
        assert_eq!(frame.controller.right, expect(fields[3], fields[4]));
        assert_eq!(frame.controller.down, expect(fields[5], fields[6]));
        assert_eq!(frame.controller.left, expect(fields[7], fields[8]));
    }
}

#[test]
fn error_messages_name_the_rule_and_values() {
    let text = |line: &str| parse_input_line(line).unwrap_err().message();
    assert_eq!(text("0,0,0"), "expected 9 fields but got 3");
    assert_eq!(text(""), "expected 9 fields but got 0");
    assert_eq!(
        text("2,0,0,0,0,0,0,0,0"),
        "invalid button value: 2 (expected 0 or 1)"
    );
    assert_eq!(
        text("-3,0,0,0,0,0,0,0,0"),
        "invalid button value: -3 (expected 0 or 1)"
    );
    assert_eq!(
        text("0,0,0,0,2,0,0,0,0"),
        "invalid controller field #4 value: 2 (expected 0 or 1)"
    );
    assert_eq!(
        text("0,0,0,0,1,0,0,0,0"),
        "invalid controller combination (field #3=0, field #4=1): high=1 requires low=1"
    );
    let parse_int = text("0,0,0,x1,0,0,0,0,0");
    assert!(parse_int.starts_with("failed to parse field #3 ('x1'): "));
    assert!(parse_int.len() > "failed to parse field #3 ('x1'): ".len());
}

#[test]
fn only_integer_errors_have_a_source() {
    assert!(parse_input_line("0,0,0,x,0,0,0,0,0").unwrap_err().source().is_some());
    assert!(parse_input_line("0,0,0").unwrap_err().source().is_none());
    assert!(parse_input_line("5,0,0,0,0,0,0,0,0").unwrap_err().source().is_none());
}
