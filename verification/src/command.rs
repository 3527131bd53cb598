//! Commands and the operations they name.

use vstd::prelude::*;

verus! {

/// One command as it was written in a block of markup.
#[derive(Debug)]
pub struct FsCommand {
    pub operation: String,
    pub path: String,
    pub content: Option<String>,
    pub old_text: Option<String>,
    pub new_text: Option<String>,
}

/// The characters that a command holds.
pub struct CommandText {
    pub operation: Seq<char>,
    pub path: Seq<char>,
    pub content: Option<Seq<char>>,
    pub old_text: Option<Seq<char>>,
    pub new_text: Option<Seq<char>>,
}

/// The characters of an optional text.
pub open spec fn optional_text(text: Option<String>) -> Option<Seq<char>> {
    match text {
        Some(s) => Some(s@),
        None => None,
    }
}

impl View for FsCommand {
    type V = CommandText;

    open spec fn view(&self) -> CommandText {
        CommandText {
            operation: self.operation@,
            path: self.path@,
            content: optional_text(self.content),
            old_text: optional_text(self.old_text),
            new_text: optional_text(self.new_text),
        }
    }
}

/// The characters that a list of commands holds, command by command.
pub open spec fn command_texts(commands: Seq<FsCommand>) -> Seq<CommandText> {
    commands.map_values(|c: FsCommand| c@)
}

/// The operations that a command can name.
#[derive(Clone, Copy, Debug, PartialEq, Eq, Structural)]
pub enum OperationKind {
    ReadFile,
    WriteFile,
    EditFile,
    ListFiles,
    CreateDir,
    DeleteFile,
}

/// What a session may be allowed to do.
#[derive(Clone, Copy, Debug, PartialEq, Eq, Structural)]
pub enum Capability {
    Read,
    Write,
}

impl Capability {
    /// The token that grants the capability in a permission set.
    pub open spec fn token_text(self) -> Seq<char> {
        match self {
            Capability::Read => "read"@,
            Capability::Write => "write"@,
        }
    }

    /// The token that grants the capability in a permission set.
    pub fn token(self) -> (token: &'static str)
        ensures
            token@ == self.token_text(),
    {
        match self {
            Capability::Read => "read",
            Capability::Write => "write",
        }
    }
}

impl OperationKind {
    /// The operation that `name` names, if it names one.
    pub open spec fn named(name: Seq<char>) -> Option<OperationKind> {
        if name == "read-file"@ {
            Some(OperationKind::ReadFile)
        } else if name == "write-file"@ {
            Some(OperationKind::WriteFile)
        } else if name == "edit-file"@ {
            Some(OperationKind::EditFile)
        } else if name == "list-files"@ {
            Some(OperationKind::ListFiles)
        } else if name == "create-dir"@ {
            Some(OperationKind::CreateDir)
        } else if name == "delete-file"@ {
            Some(OperationKind::DeleteFile)
        } else {
            None
        }
    }

    /// The name by which markup asks for the operation.
    pub open spec fn name_text(self) -> Seq<char> {
        match self {
            OperationKind::ReadFile => "read-file"@,
            OperationKind::WriteFile => "write-file"@,
            OperationKind::EditFile => "edit-file"@,
            OperationKind::ListFiles => "list-files"@,
            OperationKind::CreateDir => "create-dir"@,
            OperationKind::DeleteFile => "delete-file"@,
        }
    }

    /// The capability without which the operation is refused.
    pub open spec fn needs(self) -> Capability {
        match self {
            OperationKind::ReadFile | OperationKind::ListFiles => Capability::Read,
            OperationKind::WriteFile
            | OperationKind::EditFile
            | OperationKind::CreateDir
            | OperationKind::DeleteFile => Capability::Write,
        }
    }

    /// Reads an operation name. Names are matched letter for letter.
    pub fn parse(name: &str) -> (kind: Option<OperationKind>)
        ensures
            kind == Self::named(name@),
    {
        if crate::text::same_text(name, "read-file") {
            Some(OperationKind::ReadFile)
        } else if crate::text::same_text(name, "write-file") {
            Some(OperationKind::WriteFile)
        } else if crate::text::same_text(name, "edit-file") {
            Some(OperationKind::EditFile)
        } else if crate::text::same_text(name, "list-files") {
            Some(OperationKind::ListFiles)
        } else if crate::text::same_text(name, "create-dir") {
            Some(OperationKind::CreateDir)
        } else if crate::text::same_text(name, "delete-file") {
            Some(OperationKind::DeleteFile)
        } else {
            None
        }
    }

    /// The name by which markup asks for the operation.
    pub fn name(self) -> (name: &'static str)
        ensures
            name@ == self.name_text(),
    {
        match self {
            OperationKind::ReadFile => "read-file",
            OperationKind::WriteFile => "write-file",
            OperationKind::EditFile => "edit-file",
            OperationKind::ListFiles => "list-files",
            OperationKind::CreateDir => "create-dir",
            OperationKind::DeleteFile => "delete-file",
        }
    }

    /// The capability without which the operation is refused.
    pub fn required(self) -> (capability: Capability)
        ensures
            capability == self.needs(),
    {
        match self {
            OperationKind::ReadFile | OperationKind::ListFiles => Capability::Read,
            OperationKind::WriteFile
            | OperationKind::EditFile
            | OperationKind::CreateDir
            | OperationKind::DeleteFile => Capability::Write,
        }
    }
}

/// Every operation is named by its own name and by no other operation's.
pub proof fn law_operation_names(kind: OperationKind)
    ensures
        OperationKind::named(kind.name_text()) == Some(kind),
{
    reveal_strlit("read-file");
    reveal_strlit("write-file");
    reveal_strlit("edit-file");
    reveal_strlit("list-files");
    reveal_strlit("create-dir");
    reveal_strlit("delete-file");
    let r = "read-file"@;
    let w = "write-file"@;
    let e = "edit-file"@;
    let l = "list-files"@;
    let c = "create-dir"@;
    let d = "delete-file"@;
    assert(r[0] == 'r' && w[0] == 'w' && e[0] == 'e' && l[0] == 'l' && c[0] == 'c' && d[0] == 'd');
}

} // verus!
