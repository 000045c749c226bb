//! The event sink: the line of text that reports a classified event.
//!
//! Writing the line out is left to the caller. What the line says is decided
//! here: the verb of the action, a colon and a space, then the rendering of
//! the message that the caller supplies.

use vstd::prelude::*;
use vstd::string::*;
use crate::event::Action;

verus! {

/// The verb that a report opens with.
pub open spec fn verb_text(action: Action) -> Seq<char> {
    match action {
        Action::Created => "Created"@,
        Action::Deleted => "Deleted"@,
        Action::Modified => "Setting"@,
    }
}

/// What separates the verb from the rendering.
pub open spec fn separator() -> Seq<char> {
    ": "@
}

/// The report of `action` on a message rendered as `rendering`.
pub open spec fn line_of(action: Action, rendering: Seq<char>) -> Seq<char> {
    verb_text(action) + separator() + rendering
}

/// The verb that a report of `action` opens with.
pub fn action_verb(action: Action) -> (verb: &'static str)
    ensures
        verb@ == verb_text(action),
{
    match action {
        Action::Created => "Created",
        Action::Deleted => "Deleted",
        Action::Modified => "Setting",
    }
}

/// The line that reports `action` on a message rendered as `rendering`.
pub fn report_line(action: Action, rendering: &str) -> (line: String)
    ensures
        line@ == line_of(action, rendering@),
{
    let mut line = String::from_str(action_verb(action));
    line.append(": ");
    line.append(rendering);
    line
}

/// Every report opens with the verb of its action and the separator, and the
/// rendering follows unchanged: `Created: `, `Deleted: ` or `Setting: `, then
/// the text that was handed in.
pub proof fn law_line_opens_with_verb(action: Action, rendering: Seq<char>)
    ensures
        action == Action::Created ==> "Created: "@.is_prefix_of(line_of(action, rendering)),
        action == Action::Deleted ==> "Deleted: "@.is_prefix_of(line_of(action, rendering)),
        action == Action::Modified ==> "Setting: "@.is_prefix_of(line_of(action, rendering)),
        line_of(action, rendering).len() == 9 + rendering.len(),
        line_of(action, rendering).skip(9) == rendering,
{
    reveal_strlit("Created");
    reveal_strlit("Deleted");
    reveal_strlit("Setting");
    reveal_strlit(": ");
    reveal_strlit("Created: ");
    reveal_strlit("Deleted: ");
    reveal_strlit("Setting: ");
}

} // verus!
