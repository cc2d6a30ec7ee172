use vstd::prelude::*;
use vstd::string::*;

use crate::database::DbError;
use crate::parameters::{ParameterError, ParameterErrorKind};
use crate::sanctions::SanctionInfoError;

verus! {

/// The stable machine-readable kind of a user-visible error.
#[derive(Clone, Copy, PartialEq, Eq, Structural, Debug)]
pub enum ErrorKind {
    ServiceUnavailable,
    Unknown,
    NotFound,
    Json,
    BadReference,
    NotValid,
    DuplicatedField,
    BadParameter,
}

impl ErrorKind {
    pub open spec fn spec_status_code(self) -> int {
        match self {
            ErrorKind::ServiceUnavailable => 500,
            ErrorKind::Unknown => 500,
            ErrorKind::NotFound => 404,
            ErrorKind::Json => 400,
            ErrorKind::BadReference => 400,
            ErrorKind::NotValid => 400,
            ErrorKind::DuplicatedField => 400,
            ErrorKind::BadParameter => 400,
        }
    }

    /// The HTTP status an error of this kind is reported with.
    pub fn status_code(&self) -> (r: u16)
        ensures
            r == self.spec_status_code(),
    {
        match self {
            ErrorKind::ServiceUnavailable => 500,
            ErrorKind::Unknown => 500,
            ErrorKind::NotFound => 404,
            ErrorKind::Json => 400,
            ErrorKind::BadReference => 400,
            ErrorKind::NotValid => 400,
            ErrorKind::DuplicatedField => 400,
            ErrorKind::BadParameter => 400,
        }
    }
}

/// A user-visible error: a stable kind plus a free-text description.
#[derive(Debug)]
pub struct ErrorResponse {
    pub kind: ErrorKind,
    pub description: String,
}

/// The kind a persistence failure is reported under.
pub open spec fn spec_db_error_kind(e: DbError) -> ErrorKind {
    match e {
        DbError::NotFound => ErrorKind::NotFound,
        DbError::Unknown => ErrorKind::Unknown,
        DbError::ServiceUnavailable => ErrorKind::ServiceUnavailable,
        DbError::ForeignKeyViolation(_) => ErrorKind::BadReference,
        DbError::UniqueViolation(_) => ErrorKind::DuplicatedField,
    }
}

/// The description a persistence failure is reported with.
pub open spec fn spec_db_error_description(e: DbError) -> Seq<char> {
    match e {
        DbError::NotFound => "Not found"@,
        DbError::Unknown => "An internal error occured"@,
        DbError::ServiceUnavailable => "The service is currently unavailable"@,
        DbError::ForeignKeyViolation(d) => d@,
        DbError::UniqueViolation(d) => d@,
    }
}

/// The strings joined in order with the separator between them.
pub open spec fn spec_join(parts: Seq<Seq<char>>, sep: Seq<char>) -> Seq<char>
    decreases parts.len(),
{
    if parts.len() == 0 {
        Seq::empty()
    } else if parts.len() == 1 {
        parts[0]
    } else {
        parts[0] + sep + spec_join(parts.drop_first(), sep)
    }
}

fn join_from(parts: &Vec<String>, sep: &str, i: usize) -> (r: String)
    requires
        i <= parts.len(),
    ensures
        r@ == spec_join(parts.deep_view().skip(i as int), sep@),
    decreases parts.len() - i,
{
    if i >= parts.len() {
        String::new()
    } else if i == parts.len() - 1 {
        parts[i].clone()
    } else {
        proof {
            assert(parts.deep_view().skip(i as int).drop_first() =~= parts.deep_view().skip(
                i + 1,
            ));
        }
        parts[i].clone().concat(sep).concat(join_from(parts, sep, i + 1).as_str())
    }
}

/// Joins strings with a separator.
pub fn join_strings(parts: &Vec<String>, sep: &str) -> (r: String)
    ensures
        r@ == spec_join(parts.deep_view(), sep@),
{
    proof {
        assert(parts.deep_view().skip(0) =~= parts.deep_view());
    }
    join_from(parts, sep, 0)
}

/// The description a query-parameter fault is reported with.
pub open spec fn spec_parameter_error_description(e: ParameterError) -> Seq<char> {
    match e.kind {
        ParameterErrorKind::UnvalidValue { parameter_value, reason } => parameter_value@
            + " is not a possible value for the "@ + e.parameter_name@ + " parameter. "@ + reason@
            + "."@,
        ParameterErrorKind::UnvalidType { expected_type } => "The "@ + e.parameter_name@
            + " parameter must be a "@ + expected_type@ + "."@,
        ParameterErrorKind::UnvalidCombination { missing_parameters } => "The "@
            + e.parameter_name@ + " parameter must be combined with these parameters : "@
            + spec_join(missing_parameters.deep_view(), ", "@) + "."@,
    }
}

/// The description a pricing mismatch is reported with, built from the name
/// of the supplied extra-info kind, the rule's name and the name of the
/// rule's kind.
pub open spec fn spec_mismatch_description(
    extra: Seq<char>,
    rule_name: Seq<char>,
    rule_kind: Seq<char>,
) -> Seq<char> {
    "The sanction of type "@ + extra + " can not be associated with the rule "@ + rule_name
        + " of kind "@ + rule_kind + "."@
}

impl ErrorResponse {
    pub fn not_found() -> (r: ErrorResponse)
        ensures
            r.kind == ErrorKind::NotFound,
            r.description@ == "Not found"@,
    {
        ErrorResponse { kind: ErrorKind::NotFound, description: String::from_str("Not found") }
    }

    pub fn bad_parameter(description: String) -> (r: ErrorResponse)
        ensures
            r.kind == ErrorKind::BadParameter,
            r.description == description,
    {
        ErrorResponse { kind: ErrorKind::BadParameter, description }
    }

    /// Translates a persistence failure, so that callers never see
    /// storage-specific error codes.
    pub fn from_db_error(error: DbError) -> (r: ErrorResponse)
        ensures
            r.kind == spec_db_error_kind(error),
            r.description@ == spec_db_error_description(error),
    {
        match error {
            DbError::NotFound => ErrorResponse {
                kind: ErrorKind::NotFound,
                description: String::from_str("Not found"),
            },
            DbError::Unknown => ErrorResponse {
                kind: ErrorKind::Unknown,
                description: String::from_str("An internal error occured"),
            },
            DbError::ServiceUnavailable => ErrorResponse {
                kind: ErrorKind::ServiceUnavailable,
                description: String::from_str("The service is currently unavailable"),
            },
            DbError::ForeignKeyViolation(description) => ErrorResponse {
                kind: ErrorKind::BadReference,
                description,
            },
            DbError::UniqueViolation(description) => ErrorResponse {
                kind: ErrorKind::DuplicatedField,
                description,
            },
        }
    }

    /// Reports a query-parameter fault as a bad-parameter error with a
    /// readable description.
    pub fn from_parameter_error(error: ParameterError) -> (r: ErrorResponse)
        ensures
            r.kind == ErrorKind::BadParameter,
            r.description@ == spec_parameter_error_description(error),
    {
        match error.kind {
            ParameterErrorKind::UnvalidValue { parameter_value, reason } => {
                ErrorResponse::bad_parameter(
                    parameter_value.concat(" is not a possible value for the ").concat(
                        error.parameter_name.as_str(),
                    ).concat(" parameter. ").concat(reason.as_str()).concat("."),
                )
            },
            ParameterErrorKind::UnvalidType { expected_type } => {
                ErrorResponse::bad_parameter(
                    String::from_str("The ").concat(error.parameter_name.as_str()).concat(
                        " parameter must be a ",
                    ).concat(expected_type.as_str()).concat("."),
                )
            },
            ParameterErrorKind::UnvalidCombination { missing_parameters } => {
                ErrorResponse::bad_parameter(
                    String::from_str("The ").concat(error.parameter_name.as_str()).concat(
                        " parameter must be combined with these parameters : ",
                    ).concat(join_strings(&missing_parameters, ", ").as_str()).concat("."),
                )
            },
        }
    }

    /// Reports a pricing mismatch as a not-valid error with a readable
    /// description.
    pub fn from_sanction_info_error(error: SanctionInfoError) -> (r: ErrorResponse)
        ensures
            r.kind == ErrorKind::NotValid,
            r.description@ == spec_mismatch_description(
                error.extra_info@,
                error.associated_rule_name@,
                error.associated_rule_kind@,
            ),
    {
        ErrorResponse {
            kind: ErrorKind::NotValid,
            description: String::from_str("The sanction of type ").concat(
                error.extra_info.as_str(),
            ).concat(" can not be associated with the rule ").concat(
                error.associated_rule_name.as_str(),
            ).concat(" of kind ").concat(error.associated_rule_kind.as_str()).concat("."),
        }
    }
}

} // verus!
