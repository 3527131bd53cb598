//! Running commands against the file resource.
//!
//! The library does not touch the file resource. For each command it says
//! either what to report at once or which call to make; the caller makes
//! the call and hands the outcome back, and is told what to report or which
//! call to make next.

use crate::command::{optional_text, CommandText, FsCommand, OperationKind};
use crate::permission::{grants, has_permission, permits};
use crate::session::{resolved, State};
use crate::text::{chars_of, decode_text, find_in, occurs, replace_all, replaced, texts};
use vstd::prelude::*;

verus! {

/// The outcome of one command.
#[derive(Debug)]
pub struct ExecutionResult {
    /// The operation name that the command gave.
    pub operation: String,
    /// What happened, in words.
    pub message: String,
    pub success: bool,
}

/// The characters of an outcome.
pub struct ResultText {
    pub operation: Seq<char>,
    pub message: Seq<char>,
    pub success: bool,
}

impl View for ExecutionResult {
    type V = ResultText;

    open spec fn view(&self) -> ResultText {
        ResultText { operation: self.operation@, message: self.message@, success: self.success }
    }
}

/// The texts of an `edit-file` command.
#[derive(Debug)]
pub struct Edit {
    pub old_text: String,
    pub new_text: String,
}

/// A command that waits for the outcome of a call on the file resource.
#[derive(Debug)]
pub struct Pending {
    /// The operation name that the command gave.
    pub operation: String,
    /// The path as the command gave it; outcomes are reported under it.
    pub shown: String,
    /// The path to hand to the file resource.
    pub path: String,
    /// The replacement to make, where the command is an `edit-file`.
    pub edit: Option<Edit>,
}

/// The characters of a waiting command.
pub struct PendingText {
    pub operation: Seq<char>,
    pub shown: Seq<char>,
    pub path: Seq<char>,
    pub edit: Option<(Seq<char>, Seq<char>)>,
}

impl View for Pending {
    type V = PendingText;

    open spec fn view(&self) -> PendingText {
        PendingText {
            operation: self.operation@,
            shown: self.shown@,
            path: self.path@,
            edit: match self.edit {
                Some(edit) => Some((edit.old_text@, edit.new_text@)),
                None => None,
            },
        }
    }
}

/// What to do next for one command.
#[derive(Debug)]
pub enum Step {
    /// Nothing more: this is the outcome.
    Done(ExecutionResult),
    /// Read the file at the pending command's path.
    Read(Pending),
    /// Write the content to the file at the pending command's path.
    Write(Pending, String),
    /// List the directory at the pending command's path.
    List(Pending),
    /// Create the directory at the pending command's path.
    CreateDir(Pending),
    /// Delete the file at the pending command's path.
    Delete(Pending),
}

/// The characters of a step.
pub enum StepText {
    Done(ResultText),
    Read(PendingText),
    Write(PendingText, Seq<char>),
    List(PendingText),
    CreateDir(PendingText),
    Delete(PendingText),
}

impl View for Step {
    type V = StepText;

    open spec fn view(&self) -> StepText {
        match self {
            Step::Done(result) => StepText::Done(result@),
            Step::Read(pending) => StepText::Read(pending@),
            Step::Write(pending, content) => StepText::Write(pending@, content@),
            Step::List(pending) => StepText::List(pending@),
            Step::CreateDir(pending) => StepText::CreateDir(pending@),
            Step::Delete(pending) => StepText::Delete(pending@),
        }
    }
}

/// An outcome that reports success.
pub open spec fn succeeded(operation: Seq<char>, message: Seq<char>) -> ResultText {
    ResultText { operation, message, success: true }
}

/// An outcome that reports failure.
pub open spec fn failed(operation: Seq<char>, message: Seq<char>) -> ResultText {
    ResultText { operation, message, success: false }
}

/// The outcome of a command that the permission set does not allow.
pub open spec fn refusal(operation: Seq<char>) -> ResultText {
    failed(operation, "Operation '"@ + operation + "' not permitted"@)
}

/// The entries of a directory, each behind a blank, one to a line.
pub open spec fn listing(names: Seq<Seq<char>>) -> Seq<char>
    decreases names.len(),
{
    if names.len() == 0 {
        Seq::empty()
    } else if names.len() == 1 {
        " "@ + names[0]
    } else {
        listing(names.drop_last()) + "\n"@ + " "@ + names.last()
    }
}

/// The first step of a command under a session with the given base path and
/// permission set.
///
/// A name that names no operation, and an operation whose capability the set
/// does not hold, are refused. A `write-file` without content and an
/// `edit-file` without both of its texts fail at once. Every other command
/// asks for one call on the file resource, on the resolved path.
pub open spec fn first_step(
    base_path: Seq<char>,
    permissions: Seq<String>,
    command: CommandText,
) -> StepText {
    let waiting = PendingText {
        operation: command.operation,
        shown: command.path,
        path: resolved(base_path, command.path),
        edit: None,
    };
    match OperationKind::named(command.operation) {
        None => StepText::Done(refusal(command.operation)),
        Some(kind) => if !grants(permissions, kind.needs().token_text()) {
            StepText::Done(refusal(command.operation))
        } else {
            match kind {
                OperationKind::ReadFile => StepText::Read(waiting),
                OperationKind::WriteFile => match command.content {
                    Some(content) => StepText::Write(waiting, content),
                    None => StepText::Done(
                        failed(command.operation, "No content provided for write operation"@),
                    ),
                },
                OperationKind::EditFile => match (command.old_text, command.new_text) {
                    (Some(old_text), Some(new_text)) => StepText::Read(
                        PendingText { edit: Some((old_text, new_text)), ..waiting },
                    ),
                    _ => StepText::Done(
                        failed(
                            command.operation,
                            "Both old_text and new_text must be provided for edit operation"@,
                        ),
                    ),
                },
                OperationKind::ListFiles => StepText::List(waiting),
                OperationKind::CreateDir => StepText::CreateDir(waiting),
                OperationKind::DeleteFile => StepText::Delete(waiting),
            }
        },
    }
}

/// The outcome of a call that the file resource refused with `error`.
pub open spec fn resource_failure(
    waiting: PendingText,
    attempt: Seq<char>,
    error: Seq<char>,
) -> ResultText {
    failed(waiting.operation, attempt + waiting.shown + "': "@ + error)
}

/// What follows once the text of the file is known.
///
/// A command that only reads reports the text. An edit whose old text
/// stands in the file asks for the file to be written with every occurrence
/// replaced; one whose old text does not stand there reports so and asks for
/// nothing.
pub open spec fn after_text(waiting: PendingText, text: Seq<char>) -> StepText {
    match waiting.edit {
        None => StepText::Done(
            succeeded(waiting.operation, "Contents of '"@ + waiting.shown + "': "@ + text),
        ),
        Some((old_text, new_text)) => if occurs(text, old_text) {
            StepText::Write(waiting, replaced(text, old_text, new_text))
        } else {
            StepText::Done(not_found(waiting))
        },
    }
}

/// What follows the read of a file.
pub open spec fn after_read_step(waiting: PendingText, outcome: Result<Vec<u8>, String>) -> StepText {
    match outcome {
        Ok(bytes) => if vstd::utf8::valid_utf8(bytes@) {
            after_text(waiting, vstd::utf8::decode_utf8(bytes@))
        } else {
            StepText::Done(
                failed(
                    waiting.operation,
                    "Failed to decode file content of '"@ + waiting.shown + "'"@,
                ),
            )
        },
        Err(error) => StepText::Done(resource_failure(waiting, "Failed to read file '"@, error@)),
    }
}

/// The outcome that follows the write of a file.
pub open spec fn after_write_result(waiting: PendingText, outcome: Result<(), String>) -> ResultText {
    match (outcome, waiting.edit) {
        (Ok(_), None) => succeeded(
            waiting.operation,
            "Successfully wrote to file '"@ + waiting.shown + "'"@,
        ),
        (Ok(_), Some(_)) => succeeded(
            waiting.operation,
            "Successfully edited file '"@ + waiting.shown + "'"@,
        ),
        (Err(error), None) => resource_failure(waiting, "Failed to write to file '"@, error@),
        (Err(error), Some(_)) => resource_failure(
            waiting,
            "Failed to write edited content to '"@,
            error@,
        ),
    }
}

/// The outcome that follows the listing of a directory.
pub open spec fn after_list_result(
    waiting: PendingText,
    outcome: Result<Vec<String>, String>,
) -> ResultText {
    match outcome {
        Ok(names) => succeeded(
            waiting.operation,
            "Contents of '"@ + waiting.shown + "': "@ + listing(texts(names@)),
        ),
        Err(error) => resource_failure(waiting, "Failed to list files in '"@, error@),
    }
}

/// The outcome that follows the creation of a directory.
pub open spec fn after_create_dir_result(
    waiting: PendingText,
    outcome: Result<(), String>,
) -> ResultText {
    match outcome {
        Ok(_) => succeeded(waiting.operation, "Created directory '"@ + waiting.shown + "'"@),
        Err(error) => resource_failure(waiting, "Failed to create directory '"@, error@),
    }
}

/// The outcome that follows the deletion of a file.
pub open spec fn after_delete_result(
    waiting: PendingText,
    outcome: Result<(), String>,
) -> ResultText {
    match outcome {
        Ok(_) => succeeded(waiting.operation, "Deleted file '"@ + waiting.shown + "'"@),
        Err(error) => resource_failure(waiting, "Failed to delete file '"@, error@),
    }
}

/// The outcome of an edit whose old text does not stand in the file.
pub open spec fn not_found(waiting: PendingText) -> ResultText {
    failed(waiting.operation, "Text to replace not found in '"@ + waiting.shown + "'"@)
}

/// A command asks for a call on the file resource only if the permission
/// set allows its operation.
pub proof fn law_calls_need_permission(
    base_path: Seq<char>,
    permissions: Seq<String>,
    command: CommandText,
)
    requires
        !(first_step(base_path, permissions, command) is Done),
    ensures
        permits(command.operation, permissions),
{
}

/// A command that the permission set does not allow is refused, and asks
/// for no call on the file resource.
pub proof fn law_refused_without_call(
    base_path: Seq<char>,
    permissions: Seq<String>,
    command: CommandText,
)
    requires
        !permits(command.operation, permissions),
    ensures
        first_step(base_path, permissions, command) == StepText::Done(refusal(command.operation)),
{
}

/// An edit whose old text does not stand in the file reports so and asks
/// for no write.
pub proof fn law_absent_text_is_not_written(
    waiting: PendingText,
    old_text: Seq<char>,
    new_text: Seq<char>,
    text: Seq<char>,
)
    requires
        waiting.edit == Some((old_text, new_text)),
        !occurs(text, old_text),
    ensures
        after_text(waiting, text) == StepText::Done(not_found(waiting)),
{
}

/// An edit that is applied a second time, to the file as the first
/// application wrote it, reports that its old text is not found, provided
/// that the rewritten file no longer holds the old text.
pub proof fn law_edit_twice(
    waiting: PendingText,
    old_text: Seq<char>,
    new_text: Seq<char>,
    text: Seq<char>,
)
    requires
        waiting.edit == Some((old_text, new_text)),
        occurs(text, old_text),
        !occurs(replaced(text, old_text, new_text), old_text),
    ensures
        after_text(waiting, text) == StepText::Write(
            waiting,
            replaced(text, old_text, new_text),
        ),
        after_text(waiting, replaced(text, old_text, new_text)) == StepText::Done(
            not_found(waiting),
        ),
{
}

/// `before`, `inner` and `after` in one text.
fn around(before: &str, inner: &str, after: &str) -> (out: String)
    ensures
        out@ == before@ + inner@ + after@,
{
    let mut out = String::from_str(before);
    out.append(inner);
    out.append(after);
    out
}

/// Whether `pattern` stands somewhere in `text`.
pub fn contains(text: &str, pattern: &str) -> (found: bool)
    ensures
        found == occurs(text@, pattern@),
{
    let chars = chars_of(text);
    let wanted = chars_of(pattern);
    proof {
        assert(chars@.subrange(0, chars@.len() as int) =~= chars@);
        crate::text::lemma_first_occurrence(text@, pattern@);
    }
    find_in(&chars, 0, chars.len(), &wanted).is_some()
}

/// The entries of a directory, each behind a blank, one to a line.
pub fn format_listing(names: &Vec<String>) -> (out: String)
    ensures
        out@ == listing(texts(names@)),
{
    let mut out = String::new();
    let mut i: usize = 0;
    while i < names.len()
        invariant
            i <= names.len(),
            out@ == listing(texts(names@).take(i as int)),
        decreases names.len() - i,
    {
        let ghost before = texts(names@).take(i as int);
        let ghost now = texts(names@).take(i + 1);
        proof {
            assert(now.drop_last() == before);
            assert(now.last() == names@[i as int]@);
        }
        if i > 0 {
            out.append("\n");
        }
        out.append(" ");
        out.append(names[i].as_str());
        i = i + 1;
    }
    proof {
        assert(texts(names@).take(names.len() as int) == texts(names@));
    }
    out
}

impl ExecutionResult {
    fn success(operation: String, message: String) -> (result: ExecutionResult)
        ensures
            result@ == succeeded(operation@, message@),
    {
        ExecutionResult { operation, message, success: true }
    }

    fn failure(operation: String, message: String) -> (result: ExecutionResult)
        ensures
            result@ == failed(operation@, message@),
    {
        ExecutionResult { operation, message, success: false }
    }

    fn refused(operation: String) -> (result: ExecutionResult)
        ensures
            result@ == refusal(operation@),
    {
        let message = around("Operation '", operation.as_str(), "' not permitted");
        ExecutionResult::failure(operation, message)
    }
}

impl Pending {
    fn resource_failed(self, attempt: &str, error: String) -> (result: ExecutionResult)
        ensures
            result@ == resource_failure(self@, attempt@, error@),
    {
        let mut message = around(attempt, self.shown.as_str(), "': ");
        message.append(error.as_str());
        ExecutionResult::failure(self.operation, message)
    }

    /// What follows the read of the file: the outcome, or the write that an
    /// edit asks for.
    pub fn after_read(self, outcome: Result<Vec<u8>, String>) -> (step: Step)
        ensures
            step@ == after_read_step(self@, outcome),
    {
        match outcome {
            Err(error) => Step::Done(self.resource_failed("Failed to read file '", error)),
            Ok(bytes) => match decode_text(bytes) {
                None => {
                    let message = around(
                        "Failed to decode file content of '",
                        self.shown.as_str(),
                        "'",
                    );
                    Step::Done(ExecutionResult::failure(self.operation, message))
                },
                Some(text) => self.after_decoded(text),
            },
        }
    }

    /// What follows once the text of the file is known.
    pub fn after_decoded(self, text: String) -> (step: Step)
        ensures
            step@ == after_text(self@, text@),
    {
        match &self.edit {
            None => {
                let mut message = around("Contents of '", self.shown.as_str(), "': ");
                message.append(text.as_str());
                Step::Done(ExecutionResult::success(self.operation, message))
            },
            Some(edit) => {
                if contains(text.as_str(), edit.old_text.as_str()) {
                    let content = replace_all(
                        text.as_str(),
                        edit.old_text.as_str(),
                        edit.new_text.as_str(),
                    );
                    Step::Write(self, content)
                } else {
                    let message = around(
                        "Text to replace not found in '",
                        self.shown.as_str(),
                        "'",
                    );
                    Step::Done(ExecutionResult::failure(self.operation, message))
                }
            },
        }
    }

    /// The outcome that follows the write of the file.
    pub fn after_write(self, outcome: Result<(), String>) -> (result: ExecutionResult)
        ensures
            result@ == after_write_result(self@, outcome),
    {
        let edited = self.edit.is_some();
        match outcome {
            Ok(_) => {
                let message = if edited {
                    around("Successfully edited file '", self.shown.as_str(), "'")
                } else {
                    around("Successfully wrote to file '", self.shown.as_str(), "'")
                };
                ExecutionResult::success(self.operation, message)
            },
            Err(error) => {
                if edited {
                    self.resource_failed("Failed to write edited content to '", error)
                } else {
                    self.resource_failed("Failed to write to file '", error)
                }
            },
        }
    }

    /// The outcome that follows the listing of the directory.
    pub fn after_list(self, outcome: Result<Vec<String>, String>) -> (result: ExecutionResult)
        ensures
            result@ == after_list_result(self@, outcome),
    {
        match outcome {
            Ok(names) => {
                let mut message = around("Contents of '", self.shown.as_str(), "': ");
                let lines = format_listing(&names);
                message.append(lines.as_str());
                ExecutionResult::success(self.operation, message)
            },
            Err(error) => self.resource_failed("Failed to list files in '", error),
        }
    }

    /// The outcome that follows the creation of the directory.
    pub fn after_create_dir(self, outcome: Result<(), String>) -> (result: ExecutionResult)
        ensures
            result@ == after_create_dir_result(self@, outcome),
    {
        match outcome {
            Ok(_) => {
                let message = around("Created directory '", self.shown.as_str(), "'");
                ExecutionResult::success(self.operation, message)
            },
            Err(error) => self.resource_failed("Failed to create directory '", error),
        }
    }

    /// The outcome that follows the deletion of the file.
    pub fn after_delete(self, outcome: Result<(), String>) -> (result: ExecutionResult)
        ensures
            result@ == after_delete_result(self@, outcome),
    {
        match outcome {
            Ok(_) => {
                let message = around("Deleted file '", self.shown.as_str(), "'");
                ExecutionResult::success(self.operation, message)
            },
            Err(error) => self.resource_failed("Failed to delete file '", error),
        }
    }
}

impl State {
    /// The first step of one command: its outcome, where it is refused or
    /// lacks what its operation needs, or else the call to make on the file
    /// resource.
    pub fn plan_command(&self, command: FsCommand) -> (step: Step)
        ensures
            step@ == first_step(self.base_path@, self.permissions@, command@),
    {
        let FsCommand { operation, path, content, old_text, new_text } = command;
        let kind = match OperationKind::parse(operation.as_str()) {
            Some(kind) => kind,
            None => {
                return Step::Done(ExecutionResult::refused(operation));
            },
        };
        if !has_permission(&self.permissions, kind.required().token()) {
            return Step::Done(ExecutionResult::refused(operation));
        }
        let resolved_path = self.resolve_path(path.as_str());
        match kind {
            OperationKind::ReadFile => Step::Read(
                Pending { operation, shown: path, path: resolved_path, edit: None },
            ),
            OperationKind::WriteFile => match content {
                Some(content) => Step::Write(
                    Pending { operation, shown: path, path: resolved_path, edit: None },
                    content,
                ),
                None => Step::Done(
                    ExecutionResult::failure(
                        operation,
                        String::from_str("No content provided for write operation"),
                    ),
                ),
            },
            OperationKind::EditFile => match (old_text, new_text) {
                (Some(old_text), Some(new_text)) => Step::Read(
                    Pending {
                        operation,
                        shown: path,
                        path: resolved_path,
                        edit: Some(Edit { old_text, new_text }),
                    },
                ),
                _ => Step::Done(
                    ExecutionResult::failure(
                        operation,
                        String::from_str(
                            "Both old_text and new_text must be provided for edit operation",
                        ),
                    ),
                ),
            },
            OperationKind::ListFiles => Step::List(
                Pending { operation, shown: path, path: resolved_path, edit: None },
            ),
            OperationKind::CreateDir => Step::CreateDir(
                Pending { operation, shown: path, path: resolved_path, edit: None },
            ),
            OperationKind::DeleteFile => Step::Delete(
                Pending { operation, shown: path, path: resolved_path, edit: None },
            ),
        }
    }

    /// The first step of every command, in the order of the commands. A
    /// command that is refused or fails does not keep the ones behind it
    /// from being planned.
    pub fn process_fs_commands(&self, commands: Vec<FsCommand>) -> (steps: Vec<Step>)
        ensures
            steps.len() == commands.len(),
            forall|i: int|
                0 <= i < commands.len() ==> (#[trigger] steps[i])@ == first_step(
                    self.base_path@,
                    self.permissions@,
                    commands[i]@,
                ),
    {
        let ghost all = commands@;
        let mut steps: Vec<Step> = Vec::new();
        for command in it: commands
            invariant
                it.seq() == all,
                steps.len() == it.index(),
                forall|i: int|
                    0 <= i < steps.len() ==> (#[trigger] steps[i])@ == first_step(
                        self.base_path@,
                        self.permissions@,
                        all[i]@,
                    ),
        {
            let step = self.plan_command(command);
            steps.push(step);
        }
        steps
    }
}

} // verus!
