use bigdecimal::BigDecimal;
use chrono::{NaiveDate, TimeZone, Utc};
use std::str::FromStr;
use valid::display::{array_to_string, join, option_to_string};
use valid::{
    invalid_state, invalid_value, ConstraintViolation, Field, InvalidRelation, InvalidState,
    InvalidValue, ValidationError, Value,
};

#[test]
fn display_format_a_value_of_string() {
    let value = Value::String("some text".into());

    assert_eq!(value.to_text().unwrap(), "some text");
}

#[test]
fn display_format_a_value_of_integer() {
    let value = Value::Integer(42);

    assert_eq!(value.to_text().unwrap(), "42");
}

#[test]
fn display_format_a_value_of_long() {
    let value = Value::Long(-293_848_928_192);

    assert_eq!(value.to_text().unwrap(), "-293848928192");
}

#[test]
fn display_format_a_value_of_boolean() {
    let value = Value::Boolean(true);

    assert_eq!(value.to_text().unwrap(), "true");
}

#[test]
fn display_format_a_value_of_bigdecimal() {
    let value = Value::Decimal(BigDecimal::from_str("1280.77101").unwrap());

    assert_eq!(value.to_text().unwrap(), "1280.77101");
}

#[test]
fn display_format_a_value_of_date() {
    let value = Value::Date(NaiveDate::from_ymd_opt(2019, 8, 31).unwrap());

    assert_eq!(value.to_text().unwrap(), "2019-08-31");
}

#[test]
fn display_format_a_value_of_date_time() {
    let date_time = Utc.with_ymd_and_hms(2019, 8, 31, 12, 02, 59).unwrap();
    let value = Value::DateTime(date_time.timestamp(), date_time.timestamp_subsec_nanos());

    assert_eq!(value.to_text().unwrap(), "2019-08-31 12:02:59 UTC");
}

#[test]
fn a_point_in_time_with_a_fraction_of_a_second_shows_the_fraction() {
    let value = Value::DateTime(1_567_252_979, 500_000_000);

    assert_eq!(value.to_text().unwrap(), "2019-08-31 12:02:59.500 UTC");
}

#[test]
fn a_point_in_time_that_chrono_does_not_have_has_no_text() {
    assert_eq!(Value::DateTime(i64::MAX, 0).to_text(), None);
    assert_eq!(Value::DateTime(0, u32::MAX).to_text(), None);
}

#[test]
fn the_bits_of_a_float_have_no_text() {
    assert_eq!(Value::Float((-2.54f32).to_bits()).to_text(), None);
    assert_eq!(Value::Double(0.012_345_678_9f64.to_bits()).to_text(), None);

    let field = Field {
        name: "your message".into(),
        actual: Some(Value::Float(2.41f32.to_bits())),
        expected: Some(Value::Integer(1)),
    };
    assert_eq!(field.to_text(), None);

    let error = ValidationError {
        message: None,
        violations: vec![
            invalid_value("invalid-bound-min", "age", 12, 13),
            ConstraintViolation::Field(InvalidValue {
                code: "invalid-bound-exact".into(),
                field,
            }),
        ],
    };
    assert_eq!(error.to_text(), None);
}

#[test]
fn display_format_field_with_no_values() {
    let field = Field {
        name: "your message".into(),
        actual: None,
        expected: None,
    };

    assert_eq!(
        field.to_text().unwrap(),
        "field: your message, actual: (n.a.), expected: (n.a.)"
    );
}

#[test]
fn display_format_field_with_some_values_prints_the_values_without_some() {
    let field = Field {
        name: "your message".into(),
        actual: Some(Value::Integer(241)),
        expected: Some(Value::Boolean(false)),
    };

    assert_eq!(
        field.to_text().unwrap(),
        "field: your message, actual: 241, expected: false"
    );
}

#[test]
fn display_format_invalid_value_of_field_with_actual_and_expected_value() {
    let invalid_value = InvalidValue {
        code: "invalid-allowed-characters".into(),
        field: Field {
            name: "code".into(),
            actual: Some(Value::String("Wlske324$2Asd".into())),
            expected: Some(Value::String("letters and digits".into())),
        },
    };

    assert_eq!(
        invalid_value.to_text().unwrap(),
        "invalid-allowed-characters of code which is Wlske324$2Asd, expected to be letters and digits"
    );
}

#[test]
fn display_format_invalid_relation_of_percent_range() {
    let invalid_relation = InvalidRelation {
        code: "invalid-must-define-range-inclusive".into(),
        field1: Field {
            name: "percent_from".into(),
            actual: Some(Value::Integer(50)),
            expected: None,
        },
        field2: Field {
            name: "percent_to".into(),
            actual: Some(Value::Integer(20)),
            expected: None,
        },
    };

    assert_eq!(
        invalid_relation.to_text().unwrap(),
        "invalid-must-define-range-inclusive of percent_from which is 50 and percent_to which is 20"
    );
}

#[test]
fn the_text_of_an_invalid_state_lists_its_parameters() {
    let invalid_state = InvalidState {
        code: "invalid-username-is-unique".into(),
        params: vec![
            Field {
                name: "username".into(),
                actual: Some(Value::String("jon.doe".into())),
                expected: None,
            },
            Field {
                name: "attempt".into(),
                actual: Some(Value::Integer(2)),
                expected: Some(Value::Integer(1)),
            },
        ],
    };

    assert_eq!(
        invalid_state.to_text().unwrap(),
        "invalid-username-is-unique for parameters: field: username, actual: jon.doe, expected: (n.a.), field: attempt, actual: 2, expected: 1"
    );
    assert_eq!(
        ConstraintViolation::State(invalid_state.clone()).to_text(),
        invalid_state.to_text()
    );
}

#[test]
fn the_text_of_an_invalid_state_without_parameters_ends_after_the_colon() {
    let invalid_state = InvalidState {
        code: "invalid-unique-username".into(),
        params: vec![],
    };

    assert_eq!(
        invalid_state.to_text().unwrap(),
        "invalid-unique-username for parameters: "
    );
}

#[test]
fn the_text_of_a_validation_error_with_a_message_lists_the_violations_after_it() {
    let validation_error = ValidationError {
        message: Some("validating my form".into()),
        violations: vec![
            invalid_value("invalid-bound-max", "age", 131, 130),
            invalid_state("invalid-unique-username", vec![]),
        ],
    };

    assert_eq!(
        validation_error.to_text().unwrap(),
        "validating my form: invalid-bound-max of age which is 131, expected to be 130, invalid-unique-username for parameters: "
    );
}

#[test]
fn the_text_of_a_validation_error_without_a_message_lists_the_violations() {
    let validation_error = ValidationError {
        message: None,
        violations: vec![invalid_value("invalid-bound-min", "age", 12, 13)],
    };

    assert_eq!(
        validation_error.to_text().unwrap(),
        "invalid-bound-min of age which is 12, expected to be 13"
    );
}

#[test]
fn the_text_of_a_value_that_is_there_is_the_text_of_the_value() {
    assert_eq!(option_to_string(Some(&42)), "42");
    assert_eq!(option_to_string(Some(&"some text")), "some text");
    assert_eq!(option_to_string(Some(&-2.54f32)), "-2.54");
}

#[test]
fn the_text_of_a_value_that_is_not_there_says_so() {
    assert_eq!(option_to_string::<i32>(None), "(n.a.)");
}

#[test]
fn the_text_of_a_list_separates_its_items() {
    assert_eq!(array_to_string::<i32>(&[]), "");
    assert_eq!(array_to_string(&[1]), "1");
    assert_eq!(array_to_string(&[1, 2]), "1, 2");
    assert_eq!(array_to_string(&["a", "", "c"]), "a, , c");
    assert_eq!(join(&vec![]), "");
    assert_eq!(join(&vec!["a".to_string()]), "a");
    assert_eq!(
        join(&vec!["a".to_string(), "b".to_string(), "c".to_string()]),
        "a, b, c"
    );
}
