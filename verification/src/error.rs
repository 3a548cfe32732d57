use vstd::prelude::*;
use vstd::string::StringExecFns;
use crate::candidate::FunctionResolutionError;
use crate::decimal::dec_rep;
use crate::decimal::push_decimal;
use crate::host::FormatFailure;
use crate::host::IoFailure;
use crate::host::IoFailureKind;
use crate::host::IoFailureView;
use crate::pos::Pos;

verus! {

/// The closed failure taxonomy of the front end.
///
/// Every fallible operation of the larger front end returns or propagates a
/// value of this type. `IoError` and `FormatError` wrap the raw host failure
/// unmodified; the semantic categories pair one rendered message with one
/// source position; `MultipleErrors` records, in order, the positions of a
/// batch pass that kept going past earlier failures. By convention the
/// `ResolutionError` category is built only through [`Error::no_matching_overload`].
#[derive(Debug)]
pub enum Error {
    IoError(IoFailure),
    DecompileError(String),
    SyntaxError(String, Pos),
    CompileError(String, Pos),
    TypeError(String, Pos),
    ResolutionError(String, Pos),
    PoolError(String),
    FormatError(FormatFailure),
    MultipleErrors(Vec<Pos>),
}

/// The mathematical value of a diagnostic: the same taxonomy over sequences
/// of characters and positions.
pub enum ErrorView {
    IoError(IoFailureView),
    DecompileError(Seq<char>),
    SyntaxError(Seq<char>, Pos),
    CompileError(Seq<char>, Pos),
    TypeError(Seq<char>, Pos),
    ResolutionError(Seq<char>, Pos),
    PoolError(Seq<char>),
    FormatError(FormatFailure),
    MultipleErrors(Seq<Pos>),
}

impl View for Error {
    type V = ErrorView;

    open spec fn view(&self) -> ErrorView {
        match self {
            Error::IoError(f) => ErrorView::IoError(f@),
            Error::DecompileError(m) => ErrorView::DecompileError(m@),
            Error::SyntaxError(m, p) => ErrorView::SyntaxError(m@, *p),
            Error::CompileError(m, p) => ErrorView::CompileError(m@, *p),
            Error::TypeError(m, p) => ErrorView::TypeError(m@, *p),
            Error::ResolutionError(m, p) => ErrorView::ResolutionError(m@, *p),
            Error::PoolError(m) => ErrorView::PoolError(m@),
            Error::FormatError(f) => ErrorView::FormatError(*f),
            Error::MultipleErrors(ps) => ErrorView::MultipleErrors(ps@),
        }
    }
}

/// How many rejected candidates a resolution diagnostic renders at most.
pub const MAX_RENDERED_CANDIDATES: usize = 10;

/// The block rendering the given candidate texts: each text in order,
/// preceded by a line break and one leading space.
pub open spec fn candidate_block(texts: Seq<Seq<char>>) -> Seq<char>
    decreases texts.len(),
{
    if texts.len() == 0 {
        Seq::empty()
    } else {
        candidate_block(texts.drop_last()) + "\n "@ + texts.last()
    }
}

/// The detail after the header of a resolution diagnostic: the block of the
/// first [`MAX_RENDERED_CANDIDATES`] texts, closed by the truncation marker
/// exactly when candidates were left out.
pub open spec fn resolution_detail(texts: Seq<Seq<char>>) -> Seq<char> {
    if texts.len() > MAX_RENDERED_CANDIDATES {
        candidate_block(texts.take(MAX_RENDERED_CANDIDATES as int)) + "\n...and more"@
    } else {
        candidate_block(texts)
    }
}

/// The whole message of a resolution diagnostic for the call target `name`.
pub open spec fn resolution_message(name: Seq<char>, texts: Seq<Seq<char>>) -> Seq<char> {
    "Arguments passed to "@ + name + " do not match any of the overloads:"@ + resolution_detail(
        texts,
    )
}

/// Extending the rendered block by one candidate appends one line: a line
/// break, one space, and that candidate's exact text.
pub(crate) proof fn lemma_candidate_block_push(texts: Seq<Seq<char>>, i: int)
    requires
        0 <= i < texts.len(),
    ensures
        candidate_block(texts.take(i + 1)) == candidate_block(texts.take(i)) + "\n "@ + texts[i],
{
    let t1 = texts.take(i + 1);
    assert(t1.drop_last() =~= texts.take(i));
    assert(t1.last() == texts[i]);
}

impl Error {
    /// Input ended where more was required; `hint` tells the reader what was
    /// still expected.
    pub fn eof(hint: String) -> (r: Error)
        ensures
            r@ == ErrorView::IoError(
                IoFailureView { kind: IoFailureKind::UnexpectedEof, message: hint@ },
            ),
    {
        Error::IoError(IoFailure { kind: IoFailureKind::UnexpectedEof, message: hint })
    }

    /// No function of the given name is in scope.
    pub fn function_not_found(fun_name: &str, pos: Pos) -> (r: Error)
        ensures
            r@ == ErrorView::CompileError("Function "@ + fun_name@ + " not found"@, pos),
    {
        let mut error: String = String::from_str("Function ");
        error.append(fun_name);
        error.append(" not found");
        Error::CompileError(error, pos)
    }

    /// The named member does not exist on the given context.
    pub fn member_not_found(member: &str, context: &str, pos: Pos) -> (r: Error)
        ensures
            r@ == ErrorView::CompileError(
                "Member "@ + member@ + " not found on "@ + context@,
                pos,
            ),
    {
        let mut error: String = String::from_str("Member ");
        error.append(member);
        error.append(" not found on ");
        error.append(context);
        Error::CompileError(error, pos)
    }

    /// No class of the given name is in scope.
    pub fn class_not_found(class_name: &str, pos: Pos) -> (r: Error)
        ensures
            r@ == ErrorView::CompileError("Can't find class "@ + class_name@, pos),
    {
        let mut error: String = String::from_str("Can't find class ");
        error.append(class_name);
        Error::CompileError(error, pos)
    }

    /// The named class is abstract and cannot be instantiated.
    pub fn class_is_abstract(class_name: &str, pos: Pos) -> (r: Error)
        ensures
            r@ == ErrorView::CompileError(
                "Cannot instantiate abstract class "@ + class_name@,
                pos,
            ),
    {
        let mut error: String = String::from_str("Cannot instantiate abstract class ");
        error.append(class_name);
        Error::CompileError(error, pos)
    }

    /// The identifier is bound to no declaration.
    pub fn unresolved_reference(name: &str, pos: Pos) -> (r: Error)
        ensures
            r@ == ErrorView::CompileError("Unresolved reference "@ + name@, pos),
    {
        let mut error: String = String::from_str("Unresolved reference ");
        error.append(name);
        Error::CompileError(error, pos)
    }

    /// The type name is bound to no declaration.
    pub fn unresolved_type(name: &str, pos: Pos) -> (r: Error)
        ensures
            r@ == ErrorView::CompileError("Unresolved type "@ + name@, pos),
    {
        let mut error: String = String::from_str("Unresolved type ");
        error.append(name);
        Error::CompileError(error, pos)
    }

    /// The import names nothing that can be resolved.
    pub fn unresolved_import(import: &str, pos: Pos) -> (r: Error)
        ensures
            r@ == ErrorView::CompileError("Unresolved import "@ + import@, pos),
    {
        let mut error: String = String::from_str("Unresolved import ");
        error.append(import);
        Error::CompileError(error, pos)
    }

    /// The imported module is empty or does not exist.
    pub fn unresolved_module(import: &str, pos: Pos) -> (r: Error)
        ensures
            r@ == ErrorView::CompileError(
                "Module "@ + import@ + " has no members or does not exist"@,
                pos,
            ),
    {
        let mut error: String = String::from_str("Module ");
        error.append(import);
        error.append(" has no members or does not exist");
        Error::CompileError(error, pos)
    }

    /// The annotation was given arguments it does not take.
    pub fn invalid_annotation_args(pos: Pos) -> (r: Error)
        ensures
            r@ == ErrorView::CompileError("Invalid arguments for annotation"@, pos),
    {
        Error::CompileError(String::from_str("Invalid arguments for annotation"), pos)
    }

    /// The declaration needs a type annotation that was not written.
    pub fn type_annotation_required(pos: Pos) -> (r: Error)
        ensures
            r@ == ErrorView::CompileError("Type annotation required"@, pos),
    {
        Error::CompileError(String::from_str("Type annotation required"), pos)
    }

    /// Member access on a type that has no members.
    pub fn invalid_context(type_: &str, pos: Pos) -> (r: Error)
        ensures
            r@ == ErrorView::CompileError(type_@ + " doesn't have members"@, pos),
    {
        let mut error: String = String::from_str(type_);
        error.append(" doesn't have members");
        Error::CompileError(error, pos)
    }

    /// The operator is not defined on the given type.
    pub fn invalid_op(type_: &str, op: &str, pos: Pos) -> (r: Error)
        ensures
            r@ == ErrorView::CompileError(op@ + " is not supported on "@ + type_@, pos),
    {
        let mut error: String = String::from_str(op);
        error.append(" is not supported on ");
        error.append(type_);
        Error::CompileError(error, pos)
    }

    /// The named callable takes exactly `expected` parameters.
    pub fn invalid_arg_count(name: &str, expected: usize, pos: Pos) -> (r: Error)
        ensures
            r@ == ErrorView::CompileError(
                "Expected "@ + dec_rep(expected as nat) + " parameters for "@
                    + name@,
                pos,
            ),
    {
        let mut error: String = String::from_str("Expected ");
        push_decimal(&mut error, expected);
        error.append(" parameters for ");
        error.append(name);
        Error::CompileError(error, pos)
    }

    /// A void result was used where a value is needed.
    pub fn void_cannot_be_used(pos: Pos) -> (r: Error)
        ensures
            r@ == ErrorView::CompileError("Void value cannot be used"@, pos),
    {
        Error::CompileError(String::from_str("Void value cannot be used"), pos)
    }

    /// Something other than a value stood where a value is needed.
    pub fn value_expected(found: &str, pos: Pos) -> (r: Error)
        ensures
            r@ == ErrorView::CompileError("Expected a value, found "@ + found@, pos),
    {
        let mut error: String = String::from_str("Expected a value, found ");
        error.append(found);
        Error::CompileError(error, pos)
    }

    /// The function body does not return the declared type.
    pub fn return_type_mismatch(type_: &str, pos: Pos) -> (r: Error)
        ensures
            r@ == ErrorView::CompileError("Function should return "@ + type_@, pos),
    {
        let mut error: String = String::from_str("Function should return ");
        error.append(type_);
        Error::CompileError(error, pos)
    }

    /// A value of type `from` cannot be coerced to type `to`.
    pub fn type_error(from: &str, to: &str, pos: Pos) -> (r: Error)
        ensures
            r@ == ErrorView::TypeError("Can't coerce "@ + from@ + " to "@ + to@, pos),
    {
        let mut error: String = String::from_str("Can't coerce ");
        error.append(from);
        error.append(" to ");
        error.append(to);
        Error::TypeError(error, pos)
    }

    /// Aggregates the rejection reasons of every overload candidate of
    /// `name` into one bounded resolution diagnostic at the call site `pos`.
    ///
    /// The first [`MAX_RENDERED_CANDIDATES`] reasons are rendered in their
    /// original order, each on its own line; when more were collected, the
    /// line `...and more` closes the message instead of the rest.
    pub fn no_matching_overload(name: &str, errors: &[FunctionResolutionError], pos: Pos) -> (r:
        Error)
        ensures
            r@ == ErrorView::ResolutionError(
                resolution_message(name@, errors.deep_view()),
                pos,
            ),
    {
        let ghost texts: Seq<Seq<char>> = errors.deep_view();
        let n: usize = errors.len();
        let limit: usize = if n > MAX_RENDERED_CANDIDATES {
            MAX_RENDERED_CANDIDATES
        } else {
            n
        };
        let mut message: String = String::from_str("Arguments passed to ");
        message.append(name);
        message.append(" do not match any of the overloads:");
        let ghost header: Seq<char> = message@;
        let mut i: usize = 0;
        while i < limit
            invariant
                i <= limit,
                limit <= errors@.len(),
                limit == if texts.len() > MAX_RENDERED_CANDIDATES {
                    MAX_RENDERED_CANDIDATES as int
                } else {
                    texts.len() as int
                },
                texts == errors.deep_view(),
                texts.len() == errors@.len(),
                message@ == header + candidate_block(texts.take(i as int)),
            decreases limit - i,
        {
            message.append("\n ");
            let t: &str = errors[i].text();
            message.append(t);
            proof {
                lemma_candidate_block_push(texts, i as int);
                assert(message@ =~= header + candidate_block(texts.take(i + 1)));
            }
            i = i + 1;
        }
        if n > MAX_RENDERED_CANDIDATES {
            message.append("\n...and more");
        }
        proof {
            if texts.len() <= MAX_RENDERED_CANDIDATES {
                assert(texts.take(limit as int) =~= texts);
            }
            assert(message@ =~= resolution_message(name@, texts));
        }
        Error::ResolutionError(message, pos)
    }

    /// The named intrinsic was called on something it does not accept.
    pub fn invalid_intrinsic(name: &str, type_: &str, pos: Pos) -> (r: Error)
        ensures
            r@ == ErrorView::CompileError(
                "Invalid intrinsic "@ + name@ + " call: unexpected "@ + type_@,
                pos,
            ),
    {
        let mut err: String = String::from_str("Invalid intrinsic ");
        err.append(name);
        err.append(" call: unexpected ");
        err.append(type_);
        Error::CompileError(err, pos)
    }

    /// The named method was used as static but is not.
    pub fn expected_static_method(name: &str, pos: Pos) -> (r: Error)
        ensures
            r@ == ErrorView::CompileError("Method "@ + name@ + " is not static"@, pos),
    {
        let mut err: String = String::from_str("Method ");
        err.append(name);
        err.append(" is not static");
        Error::CompileError(err, pos)
    }

    /// The named method was used as an instance method but is static.
    pub fn expected_non_static_method(name: &str, pos: Pos) -> (r: Error)
        ensures
            r@ == ErrorView::CompileError("Method "@ + name@ + " is static"@, pos),
    {
        let mut err: String = String::from_str("Method ");
        err.append(name);
        err.append(" is static");
        Error::CompileError(err, pos)
    }

    /// `this` was used where no instance exists.
    pub fn no_this_in_static_context(pos: Pos) -> (r: Error)
        ensures
            r@ == ErrorView::CompileError("No 'this' in static context"@, pos),
    {
        Error::CompileError(String::from_str("No 'this' in static context"), pos)
    }

    /// The named construct is not supported.
    pub fn unsupported(name: &str, pos: Pos) -> (r: Error)
        ensures
            r@ == ErrorView::CompileError(name@ + " is unsupported"@, pos),
    {
        let mut err: String = String::from_str(name);
        err.append(" is unsupported");
        Error::CompileError(err, pos)
    }

    /// A class of this name is already defined elsewhere.
    pub fn class_redefinition(pos: Pos) -> (r: Error)
        ensures
            r@ == ErrorView::CompileError("Class with this name is already defined elsewhere"@, pos),
    {
        Error::CompileError(
            String::from_str("Class with this name is already defined elsewhere"),
            pos,
        )
    }
}

/// Whether two recorded position lists hold the same positions in the same
/// order.
fn positions_eq(a: &Vec<Pos>, b: &Vec<Pos>) -> (r: bool)
    ensures
        r == (a@ == b@),
{
    if a.len() != b.len() {
        return false;
    }
    let mut i: usize = 0;
    while i < a.len()
        invariant
            i <= a@.len(),
            a@.len() == b@.len(),
            forall|j: int| 0 <= j < i ==> a@[j] == b@[j],
        decreases a@.len() - i,
    {
        if !(a[i] == b[i]) {
            return false;
        }
        i = i + 1;
    }
    proof {
        assert(a@ =~= b@);
    }
    true
}

impl PartialEq for Error {
    fn eq(&self, other: &Error) -> (r: bool) {
        match (self, other) {
            (Error::IoError(a), Error::IoError(b)) => *a == *b,
            (Error::DecompileError(a), Error::DecompileError(b)) => *a == *b,
            (Error::SyntaxError(m1, p1), Error::SyntaxError(m2, p2)) => *m1 == *m2 && *p1 == *p2,
            (Error::CompileError(m1, p1), Error::CompileError(m2, p2)) => *m1 == *m2 && *p1 == *p2,
            (Error::TypeError(m1, p1), Error::TypeError(m2, p2)) => *m1 == *m2 && *p1 == *p2,
            (
                Error::ResolutionError(m1, p1),
                Error::ResolutionError(m2, p2),
            ) => *m1 == *m2 && *p1 == *p2,
            (Error::PoolError(a), Error::PoolError(b)) => *a == *b,
            (Error::FormatError(a), Error::FormatError(b)) => *a == *b,
            (Error::MultipleErrors(v1), Error::MultipleErrors(v2)) => positions_eq(v1, v2),
            _ => false,
        }
    }
}

impl vstd::std_specs::cmp::PartialEqSpecImpl for Error {
    open spec fn obeys_eq_spec() -> bool {
        true
    }

    open spec fn eq_spec(&self, other: &Error) -> bool {
        self@ == other@
    }
}

impl From<IoFailure> for Error {
    /// Wraps a raw host I/O failure losslessly: the failure value itself is
    /// stored, not a rendering of it.
    fn from(err: IoFailure) -> (r: Error) {
        Error::IoError(err)
    }
}

impl vstd::std_specs::convert::FromSpecImpl<IoFailure> for Error {
    open spec fn obeys_from_spec() -> bool {
        true
    }

    open spec fn from_spec(err: IoFailure) -> Error {
        Error::IoError(err)
    }
}

impl From<FormatFailure> for Error {
    /// Wraps a host text-formatting failure losslessly.
    fn from(err: FormatFailure) -> (r: Error) {
        Error::FormatError(err)
    }
}

impl vstd::std_specs::convert::FromSpecImpl<FormatFailure> for Error {
    open spec fn obeys_from_spec() -> bool {
        true
    }

    open spec fn from_spec(err: FormatFailure) -> Error {
        Error::FormatError(err)
    }
}

} // verus!
