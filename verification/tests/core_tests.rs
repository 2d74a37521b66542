use std::borrow::Cow;
use valid::constraint::{Bound, NotEmpty};
use valid::{
    invalid_relation, invalid_state, invalid_value, Field, FieldName, InvalidState, RelatedFields,
    State, Validated, Validation, ValidationError, Value,
};

#[test]
fn unfortunately_we_can_construct_an_instance_of_validated_without_doing_any_validation() {
    let value: Validated<Bound<i32>, i32> = Validation::success(42).result().unwrap();

    assert_eq!(value.unwrap(), 42);

    let value: Validated<NotEmpty, String> =
        Validation::success("invalid".to_string()).result().unwrap();

    assert_eq!(value.unwrap(), "invalid");
}

#[test]
fn can_be_dereferenced_to_its_inner_value() {
    let validated: Validated<Bound<String>, _> =
        Validation::success("some validated text".to_string())
            .result()
            .unwrap();

    let inner_value: &str = &validated;

    assert_eq!(inner_value, "some validated text");
}

#[test]
fn can_convert_a_str_into_a_field_name_context() {
    let field_name: FieldName = "your_name".into();

    assert_eq!(field_name, FieldName("your_name".into()));
}

#[test]
fn can_dereference_a_fieldname_context_to_its_inner_value() {
    let field_name = FieldName("your_message".into());

    let inner_value: &str = &field_name;

    assert_eq!(inner_value, "your_message");
}

#[test]
fn can_unwrap_a_field_name_context_into_its_inner_value() {
    let field_name = FieldName("your_comment".into());

    let inner = field_name.unwrap();

    assert_eq!(inner, Cow::Borrowed("your_comment"));
}

#[test]
fn can_convert_a_tuple_of_str_into_a_related_fields_context() {
    let related_fields: RelatedFields = ("valid_from", "valid_until").into();

    assert_eq!(
        related_fields,
        RelatedFields("valid_from".into(), "valid_until".into())
    );
}

#[test]
fn can_get_a_reference_to_the_first_field_of_a_relatedfields_context() {
    let related_fields = RelatedFields("valid_from".into(), "valid_until".into());

    let first_field: &str = related_fields.first();

    assert_eq!(first_field, "valid_from");
}

#[test]
fn can_get_a_reference_to_the_second_field_of_a_relatedfields_context() {
    let related_fields = RelatedFields("valid_from".into(), "valid_until".into());

    let second_field: &str = related_fields.second();

    assert_eq!(second_field, "valid_until");
}

#[test]
fn can_unwrap_a_related_fields_context_into_a_tuple() {
    let related_fields = RelatedFields("password".into(), "password2".into());

    let inner_tuple = related_fields.unwrap();

    assert_eq!(
        inner_tuple,
        (Cow::Borrowed("password"), Cow::Borrowed("password2"))
    );
}

#[test]
fn can_convert_a_custom_value_into_a_state_context() {
    let state: State<Vec<_>> = vec![25, 50, 75].into();

    assert_eq!(state, State(vec![25, 50, 75]));
}

#[test]
fn can_dereference_a_state_context_to_its_inner_value() {
    let state: State<Vec<_>> = vec![25, 50, 75].into();

    let inner_value: &[_] = &state;

    assert_eq!(inner_value, &[25, 50, 75]);
}

#[test]
fn can_unwrap_a_state_context_into_its_inner_value() {
    let state: State<Vec<_>> = vec![25, 50, 75].into();

    let inner_value: Vec<_> = state.unwrap();

    assert_eq!(inner_value, vec![25, 50, 75]);
}

#[test]
fn get_the_result_of_a_successful_validation_without_a_message() {
    let validation: Validation<(), _> = Validation::success("valid text".to_string());

    let result = validation.result();

    assert_eq!(
        result,
        Validation::<(), _>::success("valid text".to_string()).result()
    );
    assert_eq!(result.unwrap().unwrap(), "valid text".to_string());
}

#[test]
fn get_the_result_of_a_failed_validation_without_a_message() {
    let validation: Validation<(), String> =
        Validation::failure(vec![invalid_state("invalid-unique-username", vec![])]);

    let result = validation.result();

    assert_eq!(
        result,
        Err(ValidationError {
            message: None,
            violations: vec![InvalidState {
                code: "invalid-unique-username".into(),
                params: vec![],
            }
            .into()]
        })
    );
}

#[test]
fn get_the_result_of_a_successful_validation_with_a_message() {
    let validation: Validation<(), _> = Validation::success("valid text".to_string());

    let result = validation.with_message("validating register new user command");

    assert_eq!(
        result,
        Validation::<(), _>::success("valid text".to_string()).result()
    );
    assert_eq!(result.unwrap().unwrap(), "valid text".to_string());
}

#[test]
fn get_the_result_of_a_failed_validation_with_a_message() {
    let validation: Validation<(), String> =
        Validation::failure(vec![invalid_state("invalid-unique-username", vec![])]);

    let result = validation.with_message("validating register new user command");

    assert_eq!(
        result,
        Err(ValidationError {
            message: Some("validating register new user command".into()),
            violations: vec![InvalidState {
                code: "invalid-unique-username".into(),
                params: vec![],
            }
            .into()]
        })
    );
}

#[test]
fn combine_a_successful_validation_with_another_value_that_needs_no_further_validation() {
    let validation: Validation<(), _> = Validation::success("valid text".to_string());

    let combined = validation.combine(42);

    assert_eq!(
        combined,
        Validation::success((42, "valid text".to_string()))
    );
}

fn reference_code() -> Field {
    Field {
        name: "reference_code".into(),
        actual: Some(Value::Integer(42)),
        expected: None,
    }
}

#[test]
fn combine_a_failed_validation_with_another_value_has_no_effect() {
    let validation: Validation<(), i32> =
        Validation::failure(vec![invalid_state("invalid-unique", vec![reference_code()])]);

    let combined = validation.combine("another value");

    assert_eq!(
        combined,
        Validation::failure(vec![invalid_state(
            "invalid-unique",
            vec![reference_code()]
        )])
    );
}

#[derive(Debug, PartialEq)]
struct RegisterUserForm {
    username: String,
    age: i32,
}

#[test]
fn map_the_values_of_a_successful_validation_into_a_custom_struct() {
    let validation: Validation<(), _> = Validation::success((42, "jane.doe".to_string()));

    let mapped: Validation<(), _> =
        validation.map(|(age, username)| RegisterUserForm { username, age });

    assert_eq!(
        mapped,
        Validation::success(RegisterUserForm {
            username: "jane.doe".into(),
            age: 42,
        })
    );
}

#[derive(Debug, PartialEq)]
struct MyStruct(i32);

#[test]
fn mapping_the_value_of_a_failed_validation_has_no_effect() {
    let validation: Validation<(), i32> =
        Validation::failure(vec![invalid_state("invalid-unique", vec![reference_code()])]);

    let mapped: Validation<(), _> = validation.map(MyStruct);

    assert_eq!(
        mapped,
        Validation::failure(vec![invalid_state(
            "invalid-unique",
            vec![reference_code()]
        )])
    );
}

#[test]
fn combine_two_validations_with_and_where_both_are_successful() {
    let username = String::from("jane.doe");
    let age = 42;

    let validation1: Validation<(), _> = Validation::success(username);
    let validation2: Validation<(), _> = Validation::success(age);

    let resulting_validation = validation1.and(validation2);

    assert_eq!(
        resulting_validation,
        Validation::success((String::from("jane.doe"), 42))
    );
}

#[test]
fn combine_two_validations_with_and_where_the_first_failed() {
    let _username = String::from("jane:doe");
    let age = 42;

    let validation1: Validation<(), String> = Validation::failure(vec![invalid_value(
        "invalid-character",
        "username",
        ":".to_string(),
        "valid username".to_string(),
    )]);
    let validation2: Validation<(), _> = Validation::success(age);

    let resulting_validation = validation1.and(validation2);

    assert_eq!(
        resulting_validation,
        Validation::failure(vec![invalid_value(
            "invalid-character",
            "username",
            ":".to_string(),
            "valid username".to_string(),
        )])
    );
}

#[test]
fn combine_two_validations_with_and_where_the_second_failed() {
    let username = String::from("jane.doe");
    let _age = 7;

    let validation1: Validation<(), _> = Validation::success(username);
    let validation2: Validation<(), i32> =
        Validation::failure(vec![invalid_value("invalid-age", "age", 7, 13)]);

    let resulting_validation = validation1.and(validation2);

    assert_eq!(
        resulting_validation,
        Validation::failure(vec![invalid_value("invalid-age", "age", 7, 13,)])
    );
}

#[test]
fn combine_two_validations_with_and_where_both_are_failing() {
    let _username = String::from("jane:doe");
    let _age = 7;

    let validation1: Validation<(), String> = Validation::failure(vec![invalid_value(
        "invalid-character",
        "username",
        ":".to_string(),
        "valid username".to_string(),
    )]);
    let validation2: Validation<(), i32> =
        Validation::failure(vec![invalid_value("invalid-age", "age", 7, 13)]);

    let resulting_validation = validation1.and(validation2);

    assert_eq!(
        resulting_validation,
        Validation::failure(vec![
            invalid_value(
                "invalid-character",
                "username",
                ":".to_string(),
                "valid username".to_string(),
            ),
            invalid_value("invalid-age", "age", 7, 13,)
        ])
    );
}

#[test]
fn combine_two_validations_with_and_then_where_both_are_successful() {
    let password = String::from("s3cr3t");
    let password2 = String::from("s3cr3t");

    let validation1: Validation<(), _> = Validation::success(password);

    let resulting_validation: Validation<(), _> =
        validation1.and_then(|password| Validation::success((password, password2)));

    assert_eq!(
        resulting_validation,
        Validation::success((String::from("s3cr3t"), String::from("s3cr3t")))
    );
}

#[test]
fn combine_two_validations_with_and_then_where_the_first_failed() {
    let _password = String::from("s3");
    let password2 = String::from("s3");

    let validation1: Validation<(), String> =
        Validation::failure(vec![invalid_value("invalid-length-min", "password", 2, 6)]);

    let resulting_validation: Validation<(), _> =
        validation1.and_then(|password| Validation::success((password, password2)));

    assert_eq!(
        resulting_validation,
        Validation::failure(vec![invalid_value("invalid-length-min", "password", 2, 6)])
    );
}

#[test]
fn combine_two_validations_with_and_then_where_the_second_failed() {
    let password = String::from("s3cr3t");
    let _password2 = String::from("s3crEt");

    let validation1: Validation<(), _> = Validation::success(password);

    let resulting_validation: Validation<(), String> = validation1.and_then(|_password| {
        Validation::failure(vec![invalid_relation(
            "invalid-must-match",
            "password",
            "s3cr3t".to_string(),
            "password2",
            "s3crEt".to_string(),
        )])
    });

    assert_eq!(
        resulting_validation,
        Validation::failure(vec![invalid_relation(
            "invalid-must-match",
            "password",
            "s3cr3t".to_string(),
            "password2",
            "s3crEt".to_string(),
        )])
    );
}

#[test]
fn combine_two_validations_with_and_then_where_both_are_failing() {
    let _password = String::from("s3");
    let _password2 = String::from("s3crEt");

    let validation1: Validation<(), String> =
        Validation::failure(vec![invalid_value("invalid-length-min", "password", 2, 6)]);

    let resulting_validation: Validation<(), String> = validation1.and_then(|_password| {
        Validation::failure(vec![invalid_relation(
            "invalid-must-match",
            "password",
            "s3cr3t".to_string(),
            "password2",
            "s3crEt".to_string(),
        )])
    });

    assert_eq!(
        resulting_validation,
        Validation::failure(vec![invalid_value("invalid-length-min", "password", 2, 6)])
    );
}

#[test]
fn exhaustive_match_over_value_variants_with_bigdecimal_and_chrono_features() {
    fn exhaustive_match(value: Value) -> i32 {
        match value {
            Value::String(_) => 1,
            Value::Integer(_) => 2,
            Value::Long(_) => 3,
            Value::Float(_) => 4,
            Value::Double(_) => 5,
            Value::Boolean(_) => 6,
            Value::Decimal(_) => 7,
            Value::Date(_) => 8,
            Value::DateTime(_, _) => 9,
        }
    }
    assert_eq!(exhaustive_match(Value::Integer(0)), 2);
}

#[test]
fn merge_two_validation_errors_with_messages_into_one() {
    let validation_error1 = ValidationError {
        message: Some("validating a user's age".into()),
        violations: vec![invalid_value("invalid-bound-min", "age", 12, 13)],
    };
    let validation_error2 = ValidationError {
        message: Some("validating a user registration command".into()),
        violations: vec![invalid_value("invalid-length-min", "username", 3, 4)],
    };

    let merged_error = validation_error2.merge(validation_error1);

    assert_eq!(
        merged_error,
        ValidationError {
            message: Some("validating a user's age".into()),
            violations: vec![
                invalid_value("invalid-length-min", "username", 3, 4),
                invalid_value("invalid-bound-min", "age", 12, 13),
            ]
        }
    );
}

#[test]
fn merge_two_validation_errors_where_the_first_contains_a_message() {
    let validation_error1 = ValidationError {
        message: Some("validating a user's age".into()),
        violations: vec![invalid_value("invalid-bound-min", "age", 12, 13)],
    };
    let validation_error2 = ValidationError {
        message: None,
        violations: vec![invalid_value("invalid-length-min", "username", 3, 4)],
    };

    let merged_error = validation_error2.merge(validation_error1);

    assert_eq!(
        merged_error,
        ValidationError {
            message: Some("validating a user's age".into()),
            violations: vec![
                invalid_value("invalid-length-min", "username", 3, 4),
                invalid_value("invalid-bound-min", "age", 12, 13),
            ]
        }
    );
}

#[test]
fn merge_two_validation_errors_where_the_second_contains_a_message() {
    let validation_error1 = ValidationError {
        message: None,
        violations: vec![invalid_value("invalid-bound-min", "age", 12, 13)],
    };
    let validation_error2 = ValidationError {
        message: Some("validating a user registration command".into()),
        violations: vec![invalid_value("invalid-length-min", "username", 3, 4)],
    };

    let merged_error = validation_error2.merge(validation_error1);

    assert_eq!(
        merged_error,
        ValidationError {
            message: Some("validating a user registration command".into()),
            violations: vec![
                invalid_value("invalid-length-min", "username", 3, 4),
                invalid_value("invalid-bound-min", "age", 12, 13),
            ]
        }
    );
}

#[test]
fn merge_two_validation_errors_where_none_of_them_contains_a_message() {
    let validation_error1 = ValidationError {
        message: None,
        violations: vec![invalid_value("invalid-bound-min", "age", 12, 13)],
    };
    let validation_error2 = ValidationError {
        message: None,
        violations: vec![invalid_value("invalid-length-min", "username", 3, 4)],
    };

    let merged_error = validation_error2.merge(validation_error1);

    assert_eq!(
        merged_error,
        ValidationError {
            message: None,
            violations: vec![
                invalid_value("invalid-length-min", "username", 3, 4),
                invalid_value("invalid-bound-min", "age", 12, 13),
            ]
        }
    );
}
