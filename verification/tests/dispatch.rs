use fs_commands::chain::{ChainEntry, ChatMessage, ChildMessage, Message, MessageData, Usage};
use fs_commands::dispatch::{Dispatch, Inbound, Loaded};
use fs_commands::executor::ExecutionResult;
use fs_commands::loader::{decode_response, LoadError};
use fs_commands::session::State;

const NAMED_TEXT: &str = r#"Filesystem operations for 'alpha' initialized.

Available commands (with required permissions):
- read-file (requires 'read'): Read file contents
- write-file (requires 'write'): Write to a file
- edit-file (requires 'write'): Edit file contents by replacing text
- list-files (requires 'read'): List directory contents
- create-dir (requires 'write'): Create a new directory
- delete-file (requires 'write'): Delete a file

Command formats:

1. List files:
<fs-command name="alpha">
  <operation>list-files</operation>
  <path>.</path>
</fs-command>

2. Read file:
<fs-command name="alpha">
  <operation>read-file</operation>
  <path>src/file.rs</path>
</fs-command>

3. Write file:
<fs-command name="alpha">
  <operation>write-file</operation>
  <path>src/file.rs</path>
  <content>file contents here</content>
</fs-command>

4. Edit file:
<fs-command name="alpha">
  <operation>edit-file</operation>
  <path>src/file.rs</path>
  <old_text>text to find</old_text>
  <new_text>replacement text</new_text>
</fs-command>

5. Create directory:
<fs-command name="alpha">
  <operation>create-dir</operation>
  <path>new_directory</path>
</fs-command>

6. Delete file:
<fs-command name="alpha">
  <operation>delete-file</operation>
  <path>file_to_delete.txt</path>
</fs-command>

Current permissions: read, write"#;

const NAMED_HTML: &str = r#"<div style="background: var(--bg-secondary); border: 1px solid var(--border-color); border-radius: var(--radius-md); padding: 1rem;">
                            <h3 style="color: var(--accent-primary); margin-bottom: 0.75rem;">Filesystem Operations</h3>
                            <p>Operations for <strong>alpha</strong> initialized with permissions: <code>read, write</code></p>
                            
                            <div style="margin-top: 1rem;">
                                <h4 style="color: var(--text-primary);">Available Commands:</h4>
                                <ul>
                                    <li><code>read-file</code> - Read file contents (requires 'read')</li>
                                    <li><code>write-file</code> - Write to a file (requires 'write')</li>
                                    <li><code>edit-file</code> - Edit file contents (requires 'write')</li>
                                    <li><code>list-files</code> - List directory contents (requires 'read')</li>
                                    <li><code>create-dir</code> - Create a new directory (requires 'write')</li>
                                    <li><code>delete-file</code> - Delete a file (requires 'write')</li>
                                </ul>
                            </div>
                            
                            <div style="margin-top: 1rem;">
                                <h4 style="color: var(--text-primary);">Command Examples:</h4>
                                <div style="background: var(--bg-tertiary); padding: 0.75rem; border-radius: var(--radius-sm); margin-bottom: 0.75rem;">
                                    <pre style="margin: 0;"><code>&lt;fs-command name="alpha"&gt;
  &lt;operation&gt;list-files&lt;/operation&gt;
  &lt;path&gt;.&lt;/path&gt;
&lt;/fs-command&gt;</code></pre>
                                </div>
                                <div style="background: var(--bg-tertiary); padding: 0.75rem; border-radius: var(--radius-sm);">
                                    <pre style="margin: 0;"><code>&lt;fs-command name="alpha"&gt;
  &lt;operation&gt;read-file&lt;/operation&gt;
  &lt;path&gt;src/file.rs&lt;/path&gt;
&lt;/fs-command&gt;</code></pre>
                                </div>
                            </div>
                        </div>
                        "#;

const BARE_TEXT: &str = r#"Filesystem operations for 'default' initialized.

Available commands (with required permissions):
- read-file (requires 'read'): Read file contents
- write-file (requires 'write'): Write to a file
- edit-file (requires 'write'): Edit file contents by replacing text
- list-files (requires 'read'): List directory contents
- create-dir (requires 'write'): Create a new directory
- delete-file (requires 'write'): Delete a file

Command formats:

1. List files:
<fs-command>
  <operation>list-files</operation>
  <path>.</path>
</fs-command>

2. Read file:
<fs-command>
  <operation>read-file</operation>
  <path>src/file.rs</path>
</fs-command>

3. Write file:
<fs-command>
  <operation>write-file</operation>
  <path>src/file.rs</path>
  <content>file contents here</content>
</fs-command>

4. Edit file:
<fs-command>
  <operation>edit-file</operation>
  <path>src/file.rs</path>
  <old_text>text to find</old_text>
  <new_text>replacement text</new_text>
</fs-command>

5. Create directory:
<fs-command>
  <operation>create-dir</operation>
  <path>new_directory</path>
</fs-command>

6. Delete file:
<fs-command>
  <operation>delete-file</operation>
  <path>file_to_delete.txt</path>
</fs-command>

Current permissions: read"#;

const BARE_HTML: &str = r#"<div style="background: var(--bg-secondary); border: 1px solid var(--border-color); border-radius: var(--radius-md); padding: 1rem;">
                            <h3 style="color: var(--accent-primary); margin-bottom: 0.75rem;">Filesystem Operations</h3>
                            <p>Operations for <strong>default</strong> initialized with permissions: <code>read</code></p>
                            
                            <div style="margin-top: 1rem;">
                                <h4 style="color: var(--text-primary);">Available Commands:</h4>
                                <ul>
                                    <li><code>read-file</code> - Read file contents (requires 'read')</li>
                                    <li><code>write-file</code> - Write to a file (requires 'write')</li>
                                    <li><code>edit-file</code> - Edit file contents (requires 'write')</li>
                                    <li><code>list-files</code> - List directory contents (requires 'read')</li>
                                    <li><code>create-dir</code> - Create a new directory (requires 'write')</li>
                                    <li><code>delete-file</code> - Delete a file (requires 'write')</li>
                                </ul>
                            </div>
                            
                            <div style="margin-top: 1rem;">
                                <h4 style="color: var(--text-primary);">Command Examples:</h4>
                                <div style="background: var(--bg-tertiary); padding: 0.75rem; border-radius: var(--radius-sm); margin-bottom: 0.75rem;">
                                    <pre style="margin: 0;"><code>&lt;fs-command&gt;
  &lt;operation&gt;list-files&lt;/operation&gt;
  &lt;path&gt;.&lt;/path&gt;
&lt;/fs-command&gt;</code></pre>
                                </div>
                                <div style="background: var(--bg-tertiary); padding: 0.75rem; border-radius: var(--radius-sm);">
                                    <pre style="margin: 0;"><code>&lt;fs-command&gt;
  &lt;operation&gt;read-file&lt;/operation&gt;
  &lt;path&gt;src/file.rs&lt;/path&gt;
&lt;/fs-command&gt;</code></pre>
                                </div>
                            </div>
                        </div>
                        "#;

const TRANSCRIPT_HTML: &str = r#"<div style="background: var(--bg-secondary); border: 1px solid var(--border-color); border-radius: var(--radius-md); padding: 1rem;">
                                            <h3 style="color: var(--accent-primary); margin-bottom: 0.75rem;">Filesystem Operation Results</h3>
                                            <div style="margin-bottom: 1rem;">
                                                <div style="display: flex; align-items: center; margin-bottom: 0.5rem;">
                                                    <span style="margin-right: 0.5rem;">📄</span>
                                                    <span style="color: #3B82F6; font-weight: bold;">read-file</span>
                                                </div>
                                                <div style="background: var(--bg-tertiary); padding: 0.75rem; border-radius: var(--radius-sm);">
                                                    <pre style="margin: 0; white-space: pre-wrap;"><code>Contents of 'a.txt': hi</code></pre>
                                                </div>
                                            </div><div style="margin-bottom: 1rem;">
                                                <div style="display: flex; align-items: center; margin-bottom: 0.5rem;">
                                                    <span style="margin-right: 0.5rem;">✏️</span>
                                                    <span style="color: #10B981; font-weight: bold;">write-file</span>
                                                </div>
                                                <div style="background: var(--bg-tertiary); padding: 0.75rem; border-radius: var(--radius-sm);">
                                                    <pre style="margin: 0; white-space: pre-wrap;"><code>Operation 'write-file' not permitted</code></pre>
                                                </div>
                                            </div><div style="margin-bottom: 1rem;">
                                                <div style="display: flex; align-items: center; margin-bottom: 0.5rem;">
                                                    <span style="margin-right: 0.5rem;">❓</span>
                                                    <span style="color: #6B7280; font-weight: bold;">format-disk</span>
                                                </div>
                                                <div style="background: var(--bg-tertiary); padding: 0.75rem; border-radius: var(--radius-sm);">
                                                    <pre style="margin: 0; white-space: pre-wrap;"><code>Operation 'format-disk' not permitted</code></pre>
                                                </div>
                                            </div>
                                        </div>
                                        "#;

const EVERY_OPERATION_HTML: &str = r#"<div style="background: var(--bg-secondary); border: 1px solid var(--border-color); border-radius: var(--radius-md); padding: 1rem;">
                                            <h3 style="color: var(--accent-primary); margin-bottom: 0.75rem;">Filesystem Operation Results</h3>
                                            <div style="margin-bottom: 1rem;">
                                                <div style="display: flex; align-items: center; margin-bottom: 0.5rem;">
                                                    <span style="margin-right: 0.5rem;">📄</span>
                                                    <span style="color: #3B82F6; font-weight: bold;">read-file</span>
                                                </div>
                                                <div style="background: var(--bg-tertiary); padding: 0.75rem; border-radius: var(--radius-sm);">
                                                    <pre style="margin: 0; white-space: pre-wrap;"><code>m</code></pre>
                                                </div>
                                            </div><div style="margin-bottom: 1rem;">
                                                <div style="display: flex; align-items: center; margin-bottom: 0.5rem;">
                                                    <span style="margin-right: 0.5rem;">✏️</span>
                                                    <span style="color: #10B981; font-weight: bold;">write-file</span>
                                                </div>
                                                <div style="background: var(--bg-tertiary); padding: 0.75rem; border-radius: var(--radius-sm);">
                                                    <pre style="margin: 0; white-space: pre-wrap;"><code>m</code></pre>
                                                </div>
                                            </div><div style="margin-bottom: 1rem;">
                                                <div style="display: flex; align-items: center; margin-bottom: 0.5rem;">
                                                    <span style="margin-right: 0.5rem;">🔄</span>
                                                    <span style="color: #8B5CF6; font-weight: bold;">edit-file</span>
                                                </div>
                                                <div style="background: var(--bg-tertiary); padding: 0.75rem; border-radius: var(--radius-sm);">
                                                    <pre style="margin: 0; white-space: pre-wrap;"><code>m</code></pre>
                                                </div>
                                            </div><div style="margin-bottom: 1rem;">
                                                <div style="display: flex; align-items: center; margin-bottom: 0.5rem;">
                                                    <span style="margin-right: 0.5rem;">📁</span>
                                                    <span style="color: #F59E0B; font-weight: bold;">list-files</span>
                                                </div>
                                                <div style="background: var(--bg-tertiary); padding: 0.75rem; border-radius: var(--radius-sm);">
                                                    <pre style="margin: 0; white-space: pre-wrap;"><code>m</code></pre>
                                                </div>
                                            </div><div style="margin-bottom: 1rem;">
                                                <div style="display: flex; align-items: center; margin-bottom: 0.5rem;">
                                                    <span style="margin-right: 0.5rem;">📂</span>
                                                    <span style="color: #10B981; font-weight: bold;">create-dir</span>
                                                </div>
                                                <div style="background: var(--bg-tertiary); padding: 0.75rem; border-radius: var(--radius-sm);">
                                                    <pre style="margin: 0; white-space: pre-wrap;"><code>m</code></pre>
                                                </div>
                                            </div><div style="margin-bottom: 1rem;">
                                                <div style="display: flex; align-items: center; margin-bottom: 0.5rem;">
                                                    <span style="margin-right: 0.5rem;">🗑️</span>
                                                    <span style="color: #EF4444; font-weight: bold;">delete-file</span>
                                                </div>
                                                <div style="background: var(--bg-tertiary); padding: 0.75rem; border-radius: var(--radius-sm);">
                                                    <pre style="margin: 0; white-space: pre-wrap;"><code>m</code></pre>
                                                </div>
                                            </div>
                                        </div>
                                        "#;

const EMPTY_TRANSCRIPT_HTML: &str = r#"<div style="background: var(--bg-secondary); border: 1px solid var(--border-color); border-radius: var(--radius-md); padding: 1rem;">
                                            <h3 style="color: var(--accent-primary); margin-bottom: 0.75rem;">Filesystem Operation Results</h3>
                                            
                                        </div>
                                        "#;

const LOAD_FAILURE_HTML: &str = r#"<div style="background: var(--bg-secondary); border: 1px solid var(--border-color); border-radius: var(--radius-md); padding: 1rem;">
                                <h3 style="color: #EF4444; margin-bottom: 0.75rem;">Error</h3>
                                <div style="background: var(--bg-tertiary); padding: 0.75rem; border-radius: var(--radius-sm);">
                                    <p style="margin: 0;">Failed to load message: Failed to load message from store</p>
                                </div>
                            </div>
                            "#;

fn session(name: Option<&str>, permissions: &[&str]) -> State {
    State {
        name: name.map(|n| n.to_string()),
        child_id: None,
        store_id: None,
        base_path: ".".to_string(),
        permissions: permissions.iter().map(|p| p.to_string()).collect(),
    }
}

fn bound(name: Option<&str>, permissions: &[&str]) -> State {
    State {
        child_id: Some("child-1".to_string()),
        store_id: Some("store-1".to_string()),
        ..session(name, permissions)
    }
}

fn snapshot(state: &State) -> (Option<String>, Option<String>, Option<String>, String, Vec<String>) {
    (
        state.name.clone(),
        state.child_id.clone(),
        state.store_id.clone(),
        state.base_path.clone(),
        state.permissions.clone(),
    )
}

fn reply_of(dispatch: Dispatch) -> ChildMessage {
    match dispatch {
        Dispatch::Reply(reply) => reply,
        Dispatch::Load(head) => panic!("asked to load {}", head),
    }
}

fn loaded_reply(loaded: Loaded) -> ChildMessage {
    match loaded {
        Loaded::Reply(reply) => reply,
        Loaded::Run(commands) => panic!("asked to run {} commands", commands.len()),
    }
}

fn user(content: &str) -> ChainEntry {
    ChainEntry {
        parent: None,
        id: Some("head-1".to_string()),
        data: MessageData::Chat(ChatMessage::Structured(Message::User {
            content: content.to_string(),
        })),
    }
}

fn result(operation: &str, message: &str, success: bool) -> ExecutionResult {
    ExecutionResult { operation: operation.to_string(), message: message.to_string(), success }
}

fn some(s: &str) -> Option<String> {
    Some(s.to_string())
}

#[test]
fn introduction_binds_identity_and_store_and_describes_the_session() {
    let mut state = session(Some("alpha"), &["read", "write"]);
    let message =
        br#"{"msg_type":"introduction","data":{"child_id":"child-1","store_id":"store-1","head":"head-0"}}"#;
    let reply = reply_of(state.handle_request(message));
    assert_eq!(state.child_id, some("child-1"));
    assert_eq!(state.store_id, some("store-1"));
    assert_eq!(reply.child_id, "child-1");
    assert_eq!(reply.text, NAMED_TEXT);
    assert_eq!(reply.html.as_deref(), Some(NAMED_HTML));
    assert_eq!(reply.parent_id, some("head-0"));
    assert!(reply.data.is_empty());
}

#[test]
fn introduction_of_an_unnamed_session_shows_the_bare_marker() {
    let mut state = session(None, &["read"]);
    let message = br#"{"msg_type":"introduction","data":{"child_id":"c","store_id":"s"}}"#;
    let reply = reply_of(state.handle_request(message));
    assert_eq!(reply.text, BARE_TEXT);
    assert_eq!(reply.html.as_deref(), Some(BARE_HTML));
    assert_eq!(reply.parent_id, None);
}

#[test]
fn first_binding_wins() {
    let mut state = bound(None, &["read"]);
    let message = br#"{"msg_type":"introduction","data":{"child_id":"other","store_id":"elsewhere"}}"#;
    let reply = reply_of(state.handle_request(message));
    assert_eq!(state.child_id, some("child-1"));
    assert_eq!(state.store_id, some("store-1"));
    assert_eq!(reply.child_id, "child-1");
}

#[test]
fn introduction_without_identity_or_store_changes_nothing() {
    let cases: [&[u8]; 4] = [
        br#"{"msg_type":"introduction","data":{"child_id":"c"}}"#,
        br#"{"msg_type":"introduction","data":{"store_id":"s","head":"h"}}"#,
        br#"{"msg_type":"introduction"}"#,
        br#"{"msg_type":"introduction","data":{"child_id":1,"store_id":"s"}}"#,
    ];
    for message in cases {
        let mut state = session(Some("alpha"), &["read"]);
        let before = snapshot(&state);
        let reply = reply_of(state.handle_request(message));
        assert_eq!(snapshot(&state), before);
        assert_eq!(reply.child_id, "");
        assert_eq!(reply.text, "Failed to get child_id or store_id from introduction");
        assert_eq!(
            reply.html.as_deref(),
            Some("<div style=\"color: var(--text-primary); padding: 0.5rem;\"><p>Failed to get child_id or store_id from introduction</p></div>")
        );
        assert_eq!(reply.parent_id, None);
        assert!(reply.data.is_empty());
    }
}

#[test]
fn head_update_asks_for_the_entry_at_the_head() {
    let mut state = bound(None, &["read"]);
    let before = snapshot(&state);
    let next = state.handle_request(br#"{"msg_type":"head-update","data":{"head":"head-1"}}"#);
    assert!(matches!(next, Dispatch::Load(head) if head == "head-1"));
    assert_eq!(snapshot(&state), before);
}

#[test]
fn head_update_without_identity_or_head_is_acknowledged() {
    let mut unbound = session(None, &["read"]);
    let reply =
        reply_of(unbound.handle_request(br#"{"msg_type":"head-update","data":{"head":"head-1"}}"#));
    assert_eq!(reply.child_id, "");
    assert_eq!(reply.text, "");
    assert_eq!(reply.html, None);
    assert_eq!(reply.parent_id, some("head-1"));
    assert!(reply.data.is_empty());

    let mut state = bound(None, &["read"]);
    let reply = reply_of(state.handle_request(br#"{"msg_type":"head-update","data":{}}"#));
    assert_eq!(reply.child_id, "child-1");
    assert_eq!(reply.text, "");
    assert_eq!(reply.html, None);
    assert_eq!(reply.parent_id, None);
}

#[test]
fn unknown_message_type_is_reported() {
    let mut state = bound(None, &["read"]);
    let before = snapshot(&state);
    let reply = reply_of(state.handle_request(br#"{"msg_type":"ping","data":{"head":"h"}}"#));
    assert_eq!(snapshot(&state), before);
    assert_eq!(reply.child_id, "child-1");
    assert_eq!(reply.text, "Unknown message type: ping");
    assert_eq!(
        reply.html.as_deref(),
        Some("<div style=\"color: var(--text-primary); padding: 0.5rem;\"><p>Unknown message type: ping</p></div>")
    );
    assert_eq!(reply.parent_id, some("h"));
    assert!(reply.data.is_empty());
}

#[test]
fn message_without_a_type_is_reported() {
    let cases: [&[u8]; 4] =
        [br#"{"data":{"head":"h"}}"#, br#"{"msg_type":5,"data":{"head":"h"}}"#, b"not json", b""];
    for (i, message) in cases.iter().enumerate() {
        let mut state = bound(None, &["read"]);
        let before = snapshot(&state);
        let reply = reply_of(state.handle_request(message));
        assert_eq!(snapshot(&state), before);
        assert_eq!(reply.text, "No message type provided");
        assert_eq!(
            reply.html.as_deref(),
            Some("<div style=\"color: var(--text-primary); padding: 0.5rem;\"><p>No message type provided</p></div>")
        );
        assert_eq!(reply.parent_id, if i < 2 { some("h") } else { None });
    }
}

#[test]
fn inbound_message_is_read_field_by_field() {
    let inbound = Inbound::read(
        br#"{"msg_type":"introduction","child_id":"top","data":{"child_id":"c","store_id":"s","head":"h","extra":1}}"#,
    );
    assert_eq!(inbound.msg_type, some("introduction"));
    assert_eq!(inbound.child_id, some("c"));
    assert_eq!(inbound.store_id, some("s"));
    assert_eq!(inbound.head, some("h"));
    let inbound = Inbound::read(br#"{"msg_type":"x","data":"text"}"#);
    assert_eq!(inbound.msg_type, some("x"));
    assert_eq!((inbound.child_id, inbound.store_id, inbound.head), (None, None, None));
}

#[test]
fn dispatch_works_on_a_message_given_by_hand() {
    let mut state = session(Some("alpha"), &["read", "write"]);
    let inbound = Inbound {
        msg_type: some("introduction"),
        child_id: some("child-1"),
        store_id: some("store-1"),
        head: None,
    };
    let reply = reply_of(state.dispatch(inbound));
    assert_eq!(reply.text, NAMED_TEXT);
    assert_eq!(state.child_id, some("child-1"));
}

#[test]
fn store_error_on_head_update_is_reported_and_changes_nothing() {
    let state = bound(None, &["read", "write"]);
    let before = snapshot(&state);
    let loaded = decode_response(br#"{"status":"error"}"#);
    let error = match loaded {
        Err(error) => error,
        Ok(_) => panic!("status error gave bytes"),
    };
    assert!(matches!(error, LoadError::StoreError(_)));
    let reply = loaded_reply(state.entry_loaded("head-1", Err(error)));
    assert_eq!(snapshot(&state), before);
    assert_eq!(reply.child_id, "child-1");
    assert_eq!(reply.text, "Failed to load message: Failed to load message from store");
    assert_eq!(reply.html.as_deref(), Some(LOAD_FAILURE_HTML));
    assert_eq!(reply.parent_id, some("head-1"));
    assert_eq!(reply.data, vec![("head".to_string(), "head-1".to_string())]);
}

#[test]
fn load_without_a_store_is_reported() {
    let state = State { store_id: None, ..bound(None, &["read"]) };
    let error = match state.load_message("head-1") {
        Err(error) => error,
        Ok(_) => panic!("a call without a store"),
    };
    let reply = loaded_reply(state.entry_loaded("head-1", Err(error)));
    assert_eq!(reply.text, "Failed to load message: Store ID not set");
}

#[test]
fn rollup_is_acknowledged_and_never_read() {
    let state = bound(None, &["read", "write"]);
    let before = snapshot(&state);
    let inner = ChildMessage {
        child_id: "other".to_string(),
        text: "<fs-command><operation>delete-file</operation><path>a</path></fs-command>"
            .to_string(),
        html: None,
        parent_id: None,
        data: vec![],
    };
    let entry = ChainEntry {
        parent: some("head-0"),
        id: some("head-1"),
        data: MessageData::ChildRollup(vec![inner]),
    };
    let reply = loaded_reply(state.entry_loaded("head-1", Ok(entry)));
    assert_eq!(snapshot(&state), before);
    assert_eq!(reply.child_id, "child-1");
    assert_eq!(reply.text, "");
    assert_eq!(reply.html, None);
    assert_eq!(reply.parent_id, some("head-1"));
    assert!(reply.data.is_empty());
}

#[test]
fn chat_message_without_commands_is_acknowledged() {
    let state = bound(Some("alpha"), &["read"]);
    let entry = user("hello <fs-command><operation>read-file</operation><path>a</path></fs-command>");
    let reply = loaded_reply(state.entry_loaded("head-1", Ok(entry)));
    assert_eq!(reply.text, "");
    assert_eq!(reply.html, None);
    assert_eq!(reply.parent_id, some("head-1"));
}

#[test]
fn chat_message_with_commands_has_them_run() {
    let state = bound(Some("alpha"), &["read"]);
    let entry = user(
        "<fs-command name=\"alpha\"><operation>read-file</operation><path>a</path></fs-command>\
         <fs-command name=\"beta\"><operation>read-file</operation><path>b</path></fs-command>",
    );
    match state.entry_loaded("head-1", Ok(entry)) {
        Loaded::Run(commands) => {
            assert_eq!(commands.len(), 1);
            assert_eq!(commands[0].path, "a");
        }
        Loaded::Reply(_) => panic!("commands were not found"),
    }
}

#[test]
fn messages_of_every_form_and_author_are_read() {
    let state = bound(None, &["read"]);
    let markup = "<fs-command><operation>read-file</operation><path>a</path></fs-command>";
    let assistant = Message::Assistant {
        content: markup.to_string(),
        id: "m".to_string(),
        model: "model".to_string(),
        stop_reason: "end_turn".to_string(),
        stop_sequence: None,
        message_type: "message".to_string(),
        usage: Usage { input_tokens: 1, output_tokens: 2 },
    };
    assert_eq!(assistant.content(), markup);
    assert_eq!(Message::User { content: "hi".to_string() }.content(), "hi");
    let simple = ChatMessage::Simple { role: "user".to_string(), content: markup.to_string() };
    assert_eq!(simple.content(), markup);
    for message in [ChatMessage::Structured(assistant), simple] {
        let entry = ChainEntry { parent: None, id: None, data: MessageData::Chat(message) };
        assert!(matches!(state.entry_loaded("h", Ok(entry)), Loaded::Run(_)));
    }
}

#[test]
fn transcript_joins_the_outcomes_with_a_blank_line() {
    let state = bound(None, &["read"]);
    let results = vec![
        result("read-file", "Contents of 'a.txt': hi", true),
        result("write-file", "Operation 'write-file' not permitted", false),
        result("format-disk", "Operation 'format-disk' not permitted", false),
    ];
    let reply = state.transcript("head-1", &results);
    assert_eq!(reply.child_id, "child-1");
    assert_eq!(
        reply.text,
        "Contents of 'a.txt': hi\n\nOperation 'write-file' not permitted\n\nOperation 'format-disk' not permitted"
    );
    assert_eq!(reply.html.as_deref(), Some(TRANSCRIPT_HTML));
    assert_eq!(reply.parent_id, some("head-1"));
    assert_eq!(reply.data, vec![("head".to_string(), "head-1".to_string())]);
}

#[test]
fn transcript_marks_every_operation() {
    let state = bound(None, &[]);
    let results: Vec<ExecutionResult> =
        ["read-file", "write-file", "edit-file", "list-files", "create-dir", "delete-file"]
            .iter()
            .map(|operation| result(operation, "m", true))
            .collect();
    let reply = state.transcript("h", &results);
    assert_eq!(reply.text, "m\n\nm\n\nm\n\nm\n\nm\n\nm");
    assert_eq!(reply.html.as_deref(), Some(EVERY_OPERATION_HTML));
}

#[test]
fn transcript_of_no_outcomes_is_empty() {
    let state = bound(None, &[]);
    let reply = state.transcript("h", &vec![]);
    assert_eq!(reply.text, "");
    assert_eq!(reply.html.as_deref(), Some(EMPTY_TRANSCRIPT_HTML));
}
