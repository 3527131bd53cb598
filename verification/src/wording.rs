//! The fixed wording of replies.

use vstd::prelude::*;

verus! {

/// The text of the reply to an introduction. `{marker}` stands for the
/// opening marker, `{name}` for the instance name and `{permissions}` for
/// the permission set.
pub const INTRODUCTION: &'static str = "Filesystem operations for '{name}' initialized.\n\
    \n\
    Available commands (with required permissions):\n\
    - read-file (requires 'read'): Read file contents\n\
    - write-file (requires 'write'): Write to a file\n\
    - edit-file (requires 'write'): Edit file contents by replacing text\n\
    - list-files (requires 'read'): List directory contents\n\
    - create-dir (requires 'write'): Create a new directory\n\
    - delete-file (requires 'write'): Delete a file\n\
    \n\
    Command formats:\n\
    \n\
    1. List files:\n\
    {marker}\n  \
    <operation>list-files</operation>\n  \
    <path>.</path>\n\
    </fs-command>\n\
    \n\
    2. Read file:\n\
    {marker}\n  \
    <operation>read-file</operation>\n  \
    <path>src/file.rs</path>\n\
    </fs-command>\n\
    \n\
    3. Write file:\n\
    {marker}\n  \
    <operation>write-file</operation>\n  \
    <path>src/file.rs</path>\n  \
    <content>file contents here</content>\n\
    </fs-command>\n\
    \n\
    4. Edit file:\n\
    {marker}\n  \
    <operation>edit-file</operation>\n  \
    <path>src/file.rs</path>\n  \
    <old_text>text to find</old_text>\n  \
    <new_text>replacement text</new_text>\n\
    </fs-command>\n\
    \n\
    5. Create directory:\n\
    {marker}\n  \
    <operation>create-dir</operation>\n  \
    <path>new_directory</path>\n\
    </fs-command>\n\
    \n\
    6. Delete file:\n\
    {marker}\n  \
    <operation>delete-file</operation>\n  \
    <path>file_to_delete.txt</path>\n\
    </fs-command>\n\
    \n\
    Current permissions: {permissions}";

/// The marked-up reply to an introduction, up to the instance name.
pub const INTRODUCTION_HTML_0: &'static str = "<div style=\"background: var(--bg-secondary); border: 1px solid var(--border-color); border-radius: var(--radius-md); padding: 1rem;\">\n                            \
    <h3 style=\"color: var(--accent-primary); margin-bottom: 0.75rem;\">Filesystem Operations</h3>\n                            \
    <p>Operations for <strong>";

/// The marked-up reply to an introduction, between the instance name and
/// the permission set.
pub const INTRODUCTION_HTML_1: &'static str = "</strong> initialized with permissions: <code>";

/// The marked-up reply to an introduction, between the permission set and
/// the first example.
pub const INTRODUCTION_HTML_2: &'static str = "</code></p>\n                            \
    \n                            \
    <div style=\"margin-top: 1rem;\">\n                                \
    <h4 style=\"color: var(--text-primary);\">Available Commands:</h4>\n                                \
    <ul>\n                                    \
    <li><code>read-file</code> - Read file contents (requires 'read')</li>\n                                    \
    <li><code>write-file</code> - Write to a file (requires 'write')</li>\n                                    \
    <li><code>edit-file</code> - Edit file contents (requires 'write')</li>\n                                    \
    <li><code>list-files</code> - List directory contents (requires 'read')</li>\n                                    \
    <li><code>create-dir</code> - Create a new directory (requires 'write')</li>\n                                    \
    <li><code>delete-file</code> - Delete a file (requires 'write')</li>\n                                \
    </ul>\n                            \
    </div>\n                            \
    \n                            \
    <div style=\"margin-top: 1rem;\">\n                                \
    <h4 style=\"color: var(--text-primary);\">Command Examples:</h4>\n                                \
    <div style=\"background: var(--bg-tertiary); padding: 0.75rem; border-radius: var(--radius-sm); margin-bottom: 0.75rem;\">\n                                    \
    <pre style=\"margin: 0;\"><code>";

/// The marked-up reply to an introduction, between its two examples.
pub const INTRODUCTION_HTML_3: &'static str = "\n  \
    &lt;operation&gt;list-files&lt;/operation&gt;\n  \
    &lt;path&gt;.&lt;/path&gt;\n\
    &lt;/fs-command&gt;</code></pre>\n                                \
    </div>\n                                \
    <div style=\"background: var(--bg-tertiary); padding: 0.75rem; border-radius: var(--radius-sm);\">\n                                    \
    <pre style=\"margin: 0;\"><code>";

/// The end of the marked-up reply to an introduction.
pub const INTRODUCTION_HTML_4: &'static str = "\n  \
    &lt;operation&gt;read-file&lt;/operation&gt;\n  \
    &lt;path&gt;src/file.rs&lt;/path&gt;\n\
    &lt;/fs-command&gt;</code></pre>\n                                \
    </div>\n                            \
    </div>\n                        \
    </div>\n                        \
    ";

/// The marked-up outcome of a command, up to the icon.
pub const OUTCOME_HTML_0: &'static str = "<div style=\"margin-bottom: 1rem;\">\n                                                \
    <div style=\"display: flex; align-items: center; margin-bottom: 0.5rem;\">\n                                                    \
    <span style=\"margin-right: 0.5rem;\">";

/// The marked-up outcome of a command, between the icon and the colour.
pub const OUTCOME_HTML_1: &'static str = "</span>\n                                                    \
    <span style=\"color: ";

/// The marked-up outcome of a command, between the colour and the
/// operation name.
pub const OUTCOME_HTML_2: &'static str = "; font-weight: bold;\">";

/// The marked-up outcome of a command, between the operation name and the
/// message.
pub const OUTCOME_HTML_3: &'static str = "</span>\n                                                \
    </div>\n                                                \
    <div style=\"background: var(--bg-tertiary); padding: 0.75rem; border-radius: var(--radius-sm);\">\n                                                    \
    <pre style=\"margin: 0; white-space: pre-wrap;\"><code>";

/// The end of the marked-up outcome of a command.
pub const OUTCOME_HTML_4: &'static str = "</code></pre>\n                                                \
    </div>\n                                            \
    </div>";

/// What the marked-up transcript begins with.
pub const TRANSCRIPT_HTML_OPEN: &'static str = "<div style=\"background: var(--bg-secondary); border: 1px solid var(--border-color); border-radius: var(--radius-md); padding: 1rem;\">\n                                            \
    <h3 style=\"color: var(--accent-primary); margin-bottom: 0.75rem;\">Filesystem Operation Results</h3>\n                                            \
    ";

/// What the marked-up transcript ends with.
pub const TRANSCRIPT_HTML_CLOSE: &'static str = "\n                                        \
    </div>\n                                        \
    ";

/// What the marked-up report of a failed load begins with.
pub const ERROR_HTML_OPEN: &'static str = "<div style=\"background: var(--bg-secondary); border: 1px solid var(--border-color); border-radius: var(--radius-md); padding: 1rem;\">\n                                \
    <h3 style=\"color: #EF4444; margin-bottom: 0.75rem;\">Error</h3>\n                                \
    <div style=\"background: var(--bg-tertiary); padding: 0.75rem; border-radius: var(--radius-sm);\">\n                                    \
    <p style=\"margin: 0;\">";

/// What the marked-up report of a failed load ends with.
pub const ERROR_HTML_CLOSE: &'static str = "</p>\n                                \
    </div>\n                            \
    </div>\n                            \
    ";

/// What a marked-up notice begins with.
pub const NOTICE_HTML_OPEN: &'static str = "<div style=\"color: var(--text-primary); padding: 0.5rem;\"><p>";

/// What a marked-up notice ends with.
pub const NOTICE_HTML_CLOSE: &'static str = "</p></div>";

} // verus!
