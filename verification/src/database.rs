use vstd::prelude::*;
use vstd::string::*;

verus! {

/// The persistence collaborator's failures, translated to plain values at the
/// boundary so that callers never see storage-specific error codes.
#[derive(Debug, PartialEq)]
pub enum DbError {
    ServiceUnavailable,
    NotFound,
    ForeignKeyViolation(String),
    UniqueViolation(String),
    Unknown,
}

/// The description reported for a foreign-key violation on the named
/// constraint, or a generic one when the store names none.
pub open spec fn spec_fk_description(constraint_name: Option<Seq<char>>) -> Seq<char> {
    match constraint_name {
        Some(name) => "The key "@ + name + " doesn't refer to anything"@,
        None => "An error occured due to a foreign key violation"@,
    }
}

/// The description reported for a uniqueness violation on the named
/// constraint, or a generic one when the store names none.
pub open spec fn spec_unique_description(constraint_name: Option<Seq<char>>) -> Seq<char> {
    match constraint_name {
        Some(name) => "The field "@ + name + " is already used by another user"@,
        None => "An error occured due to a unique violation"@,
    }
}

pub open spec fn spec_option_view(s: Option<String>) -> Option<Seq<char>> {
    match s {
        Some(name) => Some(name@),
        None => None,
    }
}

impl DbError {
    /// The foreign-key violation for a constraint-name reported by the store.
    pub fn foreign_key_violation_for(constraint_name: Option<String>) -> (r: DbError)
        ensures
            r matches DbError::ForeignKeyViolation(d)
                && d@ == spec_fk_description(spec_option_view(constraint_name)),
    {
        match constraint_name {
            Some(name) => DbError::ForeignKeyViolation(
                String::from_str("The key ").concat(name.as_str()).concat(
                    " doesn't refer to anything",
                ),
            ),
            None => DbError::ForeignKeyViolation(
                String::from_str("An error occured due to a foreign key violation"),
            ),
        }
    }

    /// The uniqueness violation for a constraint-name reported by the store.
    pub fn unique_violation_for(constraint_name: Option<String>) -> (r: DbError)
        ensures
            r matches DbError::UniqueViolation(d)
                && d@ == spec_unique_description(spec_option_view(constraint_name)),
    {
        match constraint_name {
            Some(name) => DbError::UniqueViolation(
                String::from_str("The field ").concat(name.as_str()).concat(
                    " is already used by another user",
                ),
            ),
            None => DbError::UniqueViolation(
                String::from_str("An error occured due to a unique violation"),
            ),
        }
    }
}

} // verus!
