//! The ways in which a composition fails.

use vstd::prelude::*;

verus! {

/// Why a declaration unit was refused. Every failure ends the run: nothing is
/// emitted for a unit that is refused.
#[derive(Clone, Copy, Debug, PartialEq, Eq, Structural)]
pub enum ComposeError {
    /// The unit is neither a grouped scope nor a standalone declaration.
    UnsupportedDeclarationKind,
    /// The target type of a concrete scope is not a single bare name.
    UnsupportedTargetShape,
    /// A concrete scope claims to satisfy the contract of an abstract scope;
    /// the error sets belong on the abstract scope.
    MisplacedAnnotation,
    /// An error-set annotation holds something that is not a bare identifier.
    InvalidErrorSetEntry,
}

impl ComposeError {
    /// What to tell the author of the refused declaration.
    pub open spec fn message_text(self) -> Seq<char> {
        match self {
            ComposeError::UnsupportedDeclarationKind => {
                "This macro can only be used on functions, traits or implementations."@
            },
            ComposeError::UnsupportedTargetShape => {
                "The implementation's target type must be a single bare name."@
            },
            ComposeError::MisplacedAnnotation => {
                "Use this macro on the trait definition, not the implementation."@
            },
            ComposeError::InvalidErrorSetEntry => {
                "Each item must be an ident, not long path"@
            },
        }
    }

    /// What to tell the author of the refused declaration.
    pub fn message(&self) -> (text: String)
        ensures
            text@ == self.message_text(),
    {
        match self {
            ComposeError::UnsupportedDeclarationKind => String::from_str(
                "This macro can only be used on functions, traits or implementations.",
            ),
            ComposeError::UnsupportedTargetShape => String::from_str(
                "The implementation's target type must be a single bare name.",
            ),
            ComposeError::MisplacedAnnotation => String::from_str(
                "Use this macro on the trait definition, not the implementation.",
            ),
            ComposeError::InvalidErrorSetEntry => String::from_str(
                "Each item must be an ident, not long path",
            ),
        }
    }
}

} // verus!
