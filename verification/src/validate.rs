//! Shape checks on the inbound command: non-empty fields and a minimally
//! well-formed email.  A failure here is the caller's fault, never a system
//! fault, and precedes every store or bus interaction.

use vstd::prelude::*;
use vstd::string::StrSliceExecFns;
use vstd::string::StringExecFns;

use crate::bus::EventKind;
use crate::models::CreateUserCommand;
use crate::models::DatastoreErrors;

verus! {

/// An email is minimally well-formed when some `@` stands strictly inside
/// it: at least one character before it and one after it.
pub open spec fn well_formed_email(s: Seq<char>) -> bool {
    exists|i: int| 0 < i < s.len() - 1 && s[i] == '@'
}

/// A command is valid when identity, name and email are all non-empty and
/// the email is minimally well-formed.
pub open spec fn cmd_valid(cmd: CreateUserCommand) -> bool {
    &&& cmd.user_id@.len() > 0
    &&& cmd.username@.len() > 0
    &&& cmd.email@.len() > 0
    &&& well_formed_email(cmd.email@)
}

/// The description a rejected command is reported with: the first failing
/// field, checked in the order identity, name, email shape.
pub open spec fn validation_message(cmd: CreateUserCommand) -> Seq<char> {
    if cmd.user_id@.len() == 0 {
        "user_id must not be empty"@
    } else if cmd.username@.len() == 0 {
        "username must not be empty"@
    } else if cmd.email@.len() == 0 {
        "email must not be empty"@
    } else {
        "email is not well-formed"@
    }
}

/// Decides `well_formed_email` for a given string.
fn email_well_formed(email: &str) -> (b: bool)
    ensures
        b == well_formed_email(email@),
{
    let n = email.unicode_len();
    if n < 3 {
        return false;
    }
    let mut i: usize = 1;
    while i < n - 1
        invariant
            3 <= n,
            n == email@.len(),
            1 <= i <= n - 1,
            forall|j: int| 1 <= j < i ==> email@[j] != '@',
        decreases n - 1 - i,
    {
        if email.get_char(i) == '@' {
            assert(well_formed_email(email@)) by {
                assert(0 < i < email@.len() - 1 && email@[i as int] == '@');
            }
            return true;
        }
        i = i + 1;
    }
    false
}

/// The error a rejected command is reported with: the variant for the entry
/// point it arrived through, carrying the first failing field's description.
pub open spec fn validation_error_for(
    e: DatastoreErrors,
    cmd: CreateUserCommand,
    kind: EventKind,
) -> bool {
    match kind {
        EventKind::Creation => (e matches DatastoreErrors::InvalidRequestData(m) && m@
            == validation_message(cmd)),
        EventKind::Created => (e matches DatastoreErrors::InvalidWebhookRequestData(m) && m@
            == validation_message(cmd)),
    }
}

/// Rejects a command whose identity, name or email is empty or whose email
/// is not minimally well-formed; the error variant names the entry point
/// the command arrived through.
pub fn validate_command(cmd: &CreateUserCommand, kind: EventKind) -> (r: Result<(), DatastoreErrors>)
    ensures
        r is Ok <==> cmd_valid(*cmd),
        !cmd_valid(*cmd) ==> (r matches Err(e) && validation_error_for(e, *cmd, kind)),
{
    let detail: &str = if cmd.user_id.as_str().is_empty() {
        "user_id must not be empty"
    } else if cmd.username.as_str().is_empty() {
        "username must not be empty"
    } else if cmd.email.as_str().is_empty() {
        "email must not be empty"
    } else if !email_well_formed(cmd.email.as_str()) {
        "email is not well-formed"
    } else {
        return Ok(());
    };
    let m = detail.to_owned();
    match kind {
        EventKind::Creation => Err(DatastoreErrors::InvalidRequestData(m)),
        EventKind::Created => Err(DatastoreErrors::InvalidWebhookRequestData(m)),
    }
}

} // verus!
