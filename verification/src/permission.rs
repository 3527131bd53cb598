//! The permission gate.
//!
//! A permission set is a list of tokens. An operation is allowed when the
//! set holds the token of the capability that the operation needs. A name
//! that names no operation is allowed under no permission set.

use crate::command::OperationKind;
use crate::text::same_text;
use vstd::prelude::*;

verus! {

/// Whether the permission set holds `token`.
pub open spec fn grants(permissions: Seq<String>, token: Seq<char>) -> bool {
    exists|i: int| 0 <= i < permissions.len() && (#[trigger] permissions[i])@ == token
}

/// Whether the operation named `operation` may run under `permissions`.
pub open spec fn permits(operation: Seq<char>, permissions: Seq<String>) -> bool {
    match OperationKind::named(operation) {
        Some(kind) => grants(permissions, kind.needs().token_text()),
        None => false,
    }
}

/// Whether the permission set holds `token`.
pub fn has_permission(permissions: &Vec<String>, token: &str) -> (held: bool)
    ensures
        held == grants(permissions@, token@),
{
    let mut i: usize = 0;
    while i < permissions.len()
        invariant
            i <= permissions.len(),
            forall|k: int| 0 <= k < i ==> (#[trigger] permissions@[k])@ != token@,
        decreases permissions.len() - i,
    {
        if same_text(permissions[i].as_str(), token) {
            return true;
        }
        i = i + 1;
    }
    false
}

/// Whether the operation named `operation` may run under `permissions`.
pub fn is_allowed(operation: &str, permissions: &Vec<String>) -> (allowed: bool)
    ensures
        allowed == permits(operation@, permissions@),
{
    match OperationKind::parse(operation) {
        Some(kind) => has_permission(permissions, kind.required().token()),
        None => false,
    }
}

/// Under an empty permission set nothing is allowed, whatever the name.
pub proof fn law_empty_set_denies(operation: Seq<char>)
    ensures
        !permits(operation, Seq::<String>::empty()),
{
}

/// A name that names no operation is allowed under no permission set.
pub proof fn law_unknown_operation_denied(operation: Seq<char>, permissions: Seq<String>)
    requires
        OperationKind::named(operation) is None,
    ensures
        !permits(operation, permissions),
{
}

/// An allowed operation is a known one, and the set holds the token of the
/// capability that it needs.
pub proof fn law_allowed_needs_token(operation: Seq<char>, permissions: Seq<String>)
    requires
        permits(operation, permissions),
    ensures
        OperationKind::named(operation) matches Some(kind) && grants(
            permissions,
            kind.needs().token_text(),
        ),
{
}

} // verus!
