use diagnostics::candidate::FunctionResolutionError;
use diagnostics::error::Error;
use diagnostics::pos::Pos;

fn resolution_parts(d: &Error) -> (&str, Pos) {
    match d {
        Error::ResolutionError(message, pos) => (message.as_str(), *pos),
        _ => panic!("expected a resolution diagnostic"),
    }
}

#[test]
fn aggregation_of_nothing_is_the_bare_header() {
    let pos = Pos::new(3, 14);
    let d = Error::no_matching_overload("foo", &[], pos);
    let (message, at) = resolution_parts(&d);
    assert_eq!(
        message,
        "Arguments passed to foo do not match any of the overloads:"
    );
    assert_eq!(at, pos);
}

#[test]
fn aggregation_renders_each_candidate_on_its_own_line() {
    let pos = Pos::new(1, 1);
    let candidates = vec![
        FunctionResolutionError::parameter_mismatch("expected Int", 1),
        FunctionResolutionError::return_mismatch("Int", "String"),
        FunctionResolutionError::too_many_args(2, 4),
    ];
    let d = Error::no_matching_overload("max", &candidates, pos);
    let (message, at) = resolution_parts(&d);
    assert_eq!(
        message,
        "Arguments passed to max do not match any of the overloads:\
         \n Invalid parameter at position 1: expected Int\
         \n Return type String does not match expected Int\
         \n Too many arguments, expected 2 but got 4"
    );
    assert_eq!(at, pos);
}

#[test]
fn aggregation_of_exactly_ten_has_no_marker() {
    let pos = Pos::new(9, 2);
    let mut candidates = Vec::new();
    for i in 1..=10usize {
        candidates.push(FunctionResolutionError::too_many_args(i, i + 1));
    }
    let d = Error::no_matching_overload("f", &candidates, pos);
    let (message, _) = resolution_parts(&d);
    let mut expected = String::from("Arguments passed to f do not match any of the overloads:");
    for i in 1..=10usize {
        expected.push_str(&format!(
            "\n Too many arguments, expected {} but got {}",
            i,
            i + 1
        ));
    }
    assert_eq!(message, expected);
    assert!(!message.contains("...and more"));
}

#[test]
fn aggregation_of_twelve_truncates_after_ten() {
    let pos = Pos::new(5, 6);
    let mut candidates = Vec::new();
    for i in 1..=12usize {
        candidates.push(FunctionResolutionError::parameter_mismatch(
            &format!("M{}", i),
            i,
        ));
    }
    let d = Error::no_matching_overload("g", &candidates, pos);
    let (message, at) = resolution_parts(&d);
    let mut expected = String::from("Arguments passed to g do not match any of the overloads:");
    for i in 1..=10usize {
        expected.push_str(&format!("\n Invalid parameter at position {}: M{}", i, i));
    }
    expected.push_str("\n...and more");
    assert_eq!(message, expected);
    assert_eq!(at, pos);
    assert!(!message.contains("M11"));
    assert!(!message.contains("M12"));
}

#[test]
fn aggregation_of_eleven_truncates_too() {
    let pos = Pos::new(2, 2);
    let mut candidates = Vec::new();
    for i in 0..11usize {
        candidates.push(FunctionResolutionError::invalid_arg_count(i, 1, 2));
    }
    let d = Error::no_matching_overload("h", &candidates, pos);
    let (message, _) = resolution_parts(&d);
    assert!(message.ends_with("\n...and more"));
    assert!(message.contains("Expected 1-2 parameters, given 9"));
    assert!(!message.contains("Expected 1-2 parameters, given 10"));
}

#[test]
fn aggregation_keeps_the_call_site_position() {
    let pos = Pos::new(77, 8);
    let candidates = vec![FunctionResolutionError::return_mismatch("A", "B")];
    let d = Error::no_matching_overload("pick", &candidates, pos);
    let (_, at) = resolution_parts(&d);
    assert_eq!(at, Pos::new(77, 8));
}
