use vstd::prelude::*;
use vstd::string::StringExecFns;

use crate::types::kind_name;
use crate::types::td_kind_name;
use crate::types::TypeDescriptor;

verus! {

/// The failures the library reports.  Every failure is definite: nothing
/// is retried, and no partial result is returned.
#[derive(Debug, PartialEq)]
pub enum ErrorKind {
    /// Fewer than two arguments were supplied.  User-facing.
    ArityError,
    /// The argument types are not all identical.  User-facing.
    TypeConsistencyError,
    /// A type descriptor outside the supported set reached the builder
    /// factory; carries the offending descriptor.  User-facing.
    UnsupportedType(TypeDescriptor),
    /// A scalar value did not match the type of the builder it was
    /// appended to.  This signals a defect in the caller's type
    /// propagation, not bad user input.
    TypeMismatch,
}

impl ErrorKind {
    /// The stable user-facing message text; an unsupported-type message
    /// names the offending descriptor's kind.
    pub fn message(&self) -> (m: String)
        ensures
            *self matches ErrorKind::ArityError ==> m@ == "greatest() requires at least two argument"@,
            *self matches ErrorKind::TypeConsistencyError ==> m@
                == "greatest() requires all arguments to have the same type"@,
            *self matches ErrorKind::UnsupportedType(t) ==> m@ == "Data type "@ + td_kind_name(t)
                + " is not currently supported"@,
            *self matches ErrorKind::TypeMismatch ==> m@ == "Invalid scalar value for builder"@,
    {
        match self {
            ErrorKind::ArityError => "greatest() requires at least two argument".to_string(),
            ErrorKind::TypeConsistencyError => {
                "greatest() requires all arguments to have the same type".to_string()
            },
            ErrorKind::UnsupportedType(t) => {
                let mut m = "Data type ".to_string();
                let name = kind_name(t);
                m.append(name.as_str());
                m.append(" is not currently supported");
                m
            },
            ErrorKind::TypeMismatch => "Invalid scalar value for builder".to_string(),
        }
    }
}

} // verus!
