//! Request validation and the error taxonomy.
//!
//! Every failure of the request pipeline surfaces as a [`CustomError`];
//! [`CustomError::status_code`] and [`CustomError::client_message`] are the
//! single place that decides the HTTP status and what a client may see.

use vstd::prelude::*;

verus! {

/// One violated field constraint: the field's name and a human-readable
/// reason.
#[derive(Debug, Clone, PartialEq, Eq)]
pub struct FieldViolation {
    pub field: String,
    pub message: String,
}

impl View for FieldViolation {
    type V = (Seq<char>, Seq<char>);

    open spec fn view(&self) -> (Seq<char>, Seq<char>) {
        (self.field@, self.message@)
    }
}

impl DeepView for FieldViolation {
    type V = (Seq<char>, Seq<char>);

    open spec fn deep_view(&self) -> (Seq<char>, Seq<char>) {
        self.view()
    }
}

/// The closed set of failure kinds of the request pipeline.
///
/// Storage and internal faults carry their detail for the operator's log
/// only; `client_message` never renders it.
#[derive(Debug, Clone, PartialEq, Eq)]
pub enum CustomError {
    /// Missing, malformed or expired credentials.
    Unauthorized,
    /// The caller is known but may not perform the action.
    Forbidden,
    /// The addressed record does not exist.
    NotFound,
    /// The payload was well-formed but broke declared field constraints;
    /// carries every violated constraint, not only the first.
    ValidationError(Vec<FieldViolation>),
    /// The request body could not be deserialized; carries the parser's
    /// reason.
    MalformedRequest(String),
    /// A storage uniqueness constraint was violated; carries the
    /// caller-supplied, user-meaningful message.
    Conflict(String),
    /// The storage layer failed; `constraint` names the violated
    /// uniqueness constraint where the store reported one.
    StorageFault { constraint: Option<String>, detail: String },
    /// Any other unexpected fault.
    InternalFault(String),
}

/// The text of one rendered violation: `field: message`.
pub open spec fn violation_text(v: (Seq<char>, Seq<char>)) -> Seq<char> {
    v.0 + ": "@ + v.1
}

/// The rendered violations, joined with `", "`.
pub open spec fn join_violations(vs: Seq<(Seq<char>, Seq<char>)>) -> Seq<char>
    decreases vs.len(),
{
    if vs.len() == 0 {
        Seq::empty()
    } else if vs.len() == 1 {
        violation_text(vs[0])
    } else {
        violation_text(vs[0]) + ", "@ + join_violations(vs.drop_first())
    }
}

/// The aggregated message of a `ValidationError`.
pub open spec fn validation_message(vs: Seq<(Seq<char>, Seq<char>)>) -> Seq<char> {
    "Input validation error: ["@ + join_violations(vs) + "]"@
}

/// The message a client is allowed to see for each error kind.
///
/// Validation, authentication, not-found and conflict messages are safe
/// verbatim; storage and internal faults are replaced by a fixed generic
/// message, whatever their detail says.
pub open spec fn message_of(e: CustomError) -> Seq<char> {
    match e {
        CustomError::Unauthorized => "Authentication required"@,
        CustomError::Forbidden => "User may not perform that action"@,
        CustomError::NotFound => "Resource not found"@,
        CustomError::ValidationError(vs) => validation_message(vs.deep_view()),
        CustomError::MalformedRequest(m) => m@,
        CustomError::Conflict(m) => m@,
        CustomError::StorageFault { .. } => "INTERNAL SERVER ERROR"@,
        CustomError::InternalFault(_) => "INTERNAL SERVER ERROR"@,
    }
}

/// The HTTP status that each error kind maps to.
pub open spec fn status_of(e: CustomError) -> u16 {
    match e {
        CustomError::Unauthorized => 401,
        CustomError::Forbidden => 403,
        CustomError::NotFound => 404,
        CustomError::ValidationError(_) => 422,
        CustomError::MalformedRequest(_) => 400,
        CustomError::Conflict(_) => 409,
        CustomError::StorageFault { .. } => 500,
        CustomError::InternalFault(_) => 500,
    }
}

impl CustomError {
    /// The HTTP status code of this error.
    pub fn status_code(&self) -> (s: u16)
        ensures
            s == status_of(*self),
    {
        match self {
            CustomError::Unauthorized => 401,
            CustomError::Forbidden => 403,
            CustomError::NotFound => 404,
            CustomError::ValidationError(_) => 422,
            CustomError::MalformedRequest(_) => 400,
            CustomError::Conflict(_) => 409,
            CustomError::StorageFault { .. } => 500,
            CustomError::InternalFault(_) => 500,
        }
    }

    /// The message to answer the client with: verbatim for client errors,
    /// the fixed generic text for faults.
    pub fn client_message(&self) -> (m: String)
        ensures
            m@ == message_of(*self),
    {
        match self {
            CustomError::Unauthorized => String::from_str("Authentication required"),
            CustomError::Forbidden => String::from_str("User may not perform that action"),
            CustomError::NotFound => String::from_str("Resource not found"),
            CustomError::ValidationError(vs) => render_violations(vs),
            CustomError::MalformedRequest(m) => m.clone(),
            CustomError::Conflict(m) => m.clone(),
            CustomError::StorageFault { .. } => String::from_str("INTERNAL SERVER ERROR"),
            CustomError::InternalFault(_) => String::from_str("INTERNAL SERVER ERROR"),
        }
    }

    /// The full response owed for this error: its status and its client
    /// message.
    pub fn response_parts(&self) -> (r: (u16, String))
        ensures
            r.0 == status_of(*self),
            r.1@ == message_of(*self),
    {
        (self.status_code(), self.client_message())
    }
}

/// Appending one violation to a joined list extends the text by a
/// separator and that violation's text.
proof fn lemma_join_push(vs: Seq<(Seq<char>, Seq<char>)>, v: (Seq<char>, Seq<char>))
    ensures
        join_violations(vs.push(v)) == if vs.len() == 0 {
            violation_text(v)
        } else {
            (join_violations(vs) + ", "@ + violation_text(v))
        },
    decreases vs.len(),
{
    if vs.len() == 0 {
        assert(vs.push(v) =~= seq![v]);
    } else {
        assert(vs.push(v).drop_first() =~= vs.drop_first().push(v));
        lemma_join_push(vs.drop_first(), v);
        if vs.len() == 1 {
            assert(join_violations(vs) == violation_text(vs[0]));
        }
    }
}

/// Renders the aggregated validation message over all violations.
fn render_violations(vs: &Vec<FieldViolation>) -> (m: String)
    ensures
        m@ == validation_message(vs.deep_view()),
{
    let mut joined = String::new();
    let n = vs.len();
    for i in 0..n
        invariant
            n == vs.len(),
            joined@ == join_violations(vs.deep_view().take(i as int)),
    {
        if i > 0 {
            joined.append(", ");
        }
        joined.append(vs[i].field.as_str());
        joined.append(": ");
        joined.append(vs[i].message.as_str());
        proof {
            lemma_join_push(vs.deep_view().take(i as int), vs.deep_view()[i as int]);
            assert(vs.deep_view().take(i as int).push(vs.deep_view()[i as int]) =~= vs.deep_view().take(
                i + 1,
            ));
        }
    }
    proof {
        assert(vs.deep_view().take(n as int) =~= vs.deep_view());
    }
    let mut m = String::from_str("Input validation error: [");
    m.append(joined.as_str());
    m.append("]");
    m
}

/// Whether a string is a well-formed email address, as the `validator`
/// crate's HTML5-based check decides it.
pub uninterp spec fn is_valid_email(s: Seq<char>) -> bool;

/// Relies on `validator::validate_email`: a pure function of the string,
/// whose source rejects the empty string outright.
#[verifier::external_body]
pub(crate) fn check_email(s: &str) -> (r: bool)
    ensures
        r == is_valid_email(s@),
        s@.len() == 0 ==> !r,
{
    validator::validate_email(s)
}

/// A payload type with declared field constraints.
///
/// `spec_violations` lists, in declaration order, every constraint the
/// value breaks; `validate` computes exactly that list.
pub trait Validate: Sized {
    spec fn spec_violations(&self) -> Seq<(Seq<char>, Seq<char>)>;

    fn validate(&self) -> (r: Vec<FieldViolation>)
        ensures
            r.deep_view() == self.spec_violations(),
    ;
}

/// A payload that has passed all of its declared field constraints.
///
/// `from_value` and `process_body` construct one only for a payload
/// whose violation list is empty: a handler handed its payloads through
/// them never sees an unvalidated structure. The field is public, as
/// handlers destructure it, so that guarantee is those contracts', not
/// the type's.
#[derive(Debug, Clone, PartialEq, Eq)]
pub struct ValidatedRequest<T>(pub T);

impl<T: Validate> ValidatedRequest<T> {
    /// Runs every declared constraint of `value`; wraps it when all hold,
    /// and returns the aggregated `ValidationError` otherwise.
    pub fn from_value(value: T) -> (r: Result<ValidatedRequest<T>, CustomError>)
        ensures
            value.spec_violations().len() == 0 ==> (r matches Ok(v) && v.0 == value),
            value.spec_violations().len() > 0 ==> (r matches Err(e) && e matches
                CustomError::ValidationError(vs) && vs.deep_view() == value.spec_violations()),
    {
        let violations = value.validate();
        if violations.len() == 0 {
            Ok(ValidatedRequest(value))
        } else {
            Err(CustomError::ValidationError(violations))
        }
    }
}

/// The first step of the pipeline: a body that the parser could not
/// deserialize is a `MalformedRequest` and never reaches constraint
/// checking; a deserialized one is validated in full.
pub fn process_body<T: Validate>(body: Result<T, String>) -> (r: Result<
    ValidatedRequest<T>,
    CustomError,
>)
    ensures
        body matches Err(reason) ==> (r matches Err(e) && e matches CustomError::MalformedRequest(m)
            && m@ == reason@),
        body matches Ok(value) ==> {
            &&& value.spec_violations().len() == 0 ==> (r matches Ok(v) && v.0 == value)
            &&& value.spec_violations().len() > 0 ==> (r matches Err(e) && e matches
                CustomError::ValidationError(vs) && vs.deep_view() == value.spec_violations())
        },
{
    match body {
        Ok(value) => ValidatedRequest::from_value(value),
        Err(reason) => Err(CustomError::MalformedRequest(reason)),
    }
}

/// Whether `e` is a storage fault on the uniqueness constraint called
/// `name`.
pub open spec fn is_constraint_fault(e: CustomError, name: Seq<char>) -> bool {
    e matches CustomError::StorageFault { constraint: Some(n), .. } && n@ == name
}

/// Maps a storage fault on the named uniqueness constraint to a
/// `Conflict` with the caller's message; every other outcome passes
/// through unchanged.
pub fn on_constraint<T>(r: Result<T, CustomError>, name: &str, message: &str) -> (out: Result<
    T,
    CustomError,
>)
    ensures
        r matches Err(e) ==> if is_constraint_fault(e, name@) {
            out matches Err(e2) && e2 matches CustomError::Conflict(m) && m@ == message@
        } else {
            out == Err::<T, CustomError>(e)
        },
        r matches Ok(v) ==> out == Ok::<T, CustomError>(v),
{
    match r {
        Err(CustomError::StorageFault { constraint: Some(c), detail }) => {
            if c == name.to_owned() {
                Err(CustomError::Conflict(message.to_owned()))
            } else {
                Err(CustomError::StorageFault { constraint: Some(c), detail })
            }
        },
        other => other,
    }
}

} // verus!
