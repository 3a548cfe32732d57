use diagnostics::error::Error;
use diagnostics::host::IoFailureKind;
use diagnostics::pos::Pos;

fn compile_parts(d: Error) -> (String, Pos) {
    match d {
        Error::CompileError(message, pos) => (message, pos),
        _ => panic!("expected a compile diagnostic"),
    }
}

#[test]
fn eof_wraps_the_hint_as_unexpected_end_of_input() {
    let d = Error::eof(String::from("a closing brace"));
    match d {
        Error::IoError(f) => {
            assert_eq!(f.kind, IoFailureKind::UnexpectedEof);
            assert_eq!(f.message, "a closing brace");
        }
        _ => panic!("expected an I/O diagnostic"),
    }
}

#[test]
fn not_found_family_messages() {
    let p = Pos::new(10, 4);
    let (m, at) = compile_parts(Error::function_not_found("atan2", p));
    assert_eq!(m, "Function atan2 not found");
    assert_eq!(at, p);
    let (m, _) = compile_parts(Error::member_not_found("len", "Int", p));
    assert_eq!(m, "Member len not found on Int");
    let (m, _) = compile_parts(Error::class_not_found("Widget", p));
    assert_eq!(m, "Can't find class Widget");
    let (m, _) = compile_parts(Error::class_is_abstract("Shape", p));
    assert_eq!(m, "Cannot instantiate abstract class Shape");
}

#[test]
fn unresolved_family_messages() {
    let p = Pos::new(2, 9);
    let (m, _) = compile_parts(Error::unresolved_reference("velocity", p));
    assert_eq!(m, "Unresolved reference velocity");
    let (m, _) = compile_parts(Error::unresolved_type("Matrix", p));
    assert_eq!(m, "Unresolved type Matrix");
    let (m, _) = compile_parts(Error::unresolved_import("geometry.angles", p));
    assert_eq!(m, "Unresolved import geometry.angles");
    let (m, _) = compile_parts(Error::unresolved_module("geometry", p));
    assert_eq!(m, "Module geometry has no members or does not exist");
}

#[test]
fn fixed_text_messages() {
    let p = Pos::new(1, 1);
    let (m, _) = compile_parts(Error::invalid_annotation_args(p));
    assert_eq!(m, "Invalid arguments for annotation");
    let (m, _) = compile_parts(Error::type_annotation_required(p));
    assert_eq!(m, "Type annotation required");
    let (m, _) = compile_parts(Error::void_cannot_be_used(p));
    assert_eq!(m, "Void value cannot be used");
    let (m, _) = compile_parts(Error::no_this_in_static_context(p));
    assert_eq!(m, "No 'this' in static context");
    let (m, _) = compile_parts(Error::class_redefinition(p));
    assert_eq!(m, "Class with this name is already defined elsewhere");
}

#[test]
fn context_and_operator_messages() {
    let p = Pos::new(8, 3);
    let (m, _) = compile_parts(Error::invalid_context("Void", p));
    assert_eq!(m, "Void doesn't have members");
    let (m, _) = compile_parts(Error::invalid_op("Bool", "+", p));
    assert_eq!(m, "+ is not supported on Bool");
    let (m, _) = compile_parts(Error::invalid_arg_count("min", 2, p));
    assert_eq!(m, "Expected 2 parameters for min");
    let (m, _) = compile_parts(Error::value_expected("a type", p));
    assert_eq!(m, "Expected a value, found a type");
    let (m, _) = compile_parts(Error::return_type_mismatch("Int", p));
    assert_eq!(m, "Function should return Int");
}

#[test]
fn method_and_intrinsic_messages() {
    let p = Pos::new(6, 6);
    let (m, _) = compile_parts(Error::invalid_intrinsic("len", "Bool", p));
    assert_eq!(m, "Invalid intrinsic len call: unexpected Bool");
    let (m, _) = compile_parts(Error::expected_static_method("update", p));
    assert_eq!(m, "Method update is not static");
    let (m, _) = compile_parts(Error::expected_non_static_method("origin", p));
    assert_eq!(m, "Method origin is static");
    let (m, _) = compile_parts(Error::unsupported("goto", p));
    assert_eq!(m, "goto is unsupported");
}

#[test]
fn type_error_is_its_own_category() {
    let p = Pos::new(12, 1);
    let d = Error::type_error("String", "Int", p);
    match d {
        Error::TypeError(m, at) => {
            assert_eq!(m, "Can't coerce String to Int");
            assert_eq!(at, p);
        }
        _ => panic!("expected a type diagnostic"),
    }
}

#[test]
fn constructors_are_referentially_transparent() {
    let p = Pos::new(4, 4);
    assert_eq!(
        Error::function_not_found("sin", p),
        Error::function_not_found("sin", p)
    );
    assert_eq!(
        Error::type_error("A", "B", p),
        Error::type_error("A", "B", p)
    );
    assert_eq!(
        Error::eof(String::from("more input")),
        Error::eof(String::from("more input"))
    );
    assert_eq!(
        Error::no_matching_overload("f", &[], p),
        Error::no_matching_overload("f", &[], p)
    );
    assert_ne!(
        Error::function_not_found("sin", p),
        Error::function_not_found("cos", p)
    );
}
