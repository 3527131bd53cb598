//! The dispatcher: what a session does with each message from the host.
//!
//! A message is an introduction, which binds the session's identity and
//! store, or the update of a chain head, which has the entry at the head
//! loaded and its commands run. Everything else is answered with a notice.
//! The dispatcher makes the decisions between the outside steps; the store
//! and the file resource are the caller's to drive.

use crate::chain::{ChainEntry, ChildMessage, MessageData};
use crate::command::{command_texts, optional_text, CommandText, FsCommand, OperationKind};
use crate::executor::{ExecutionResult, ResultText};
use crate::extract::{commands_in, opening_marker};
use crate::json::{json_document, json_model, member, parse, text_member, Json};
use crate::loader::LoadError;
use crate::session::{State, StateText};
use crate::text::{join, joined, replace_all, replaced, same_text, texts};
use crate::wording::{
    ERROR_HTML_CLOSE, ERROR_HTML_OPEN, INTRODUCTION, INTRODUCTION_HTML_0, INTRODUCTION_HTML_1,
    INTRODUCTION_HTML_2, INTRODUCTION_HTML_3, INTRODUCTION_HTML_4, NOTICE_HTML_CLOSE,
    NOTICE_HTML_OPEN, OUTCOME_HTML_0, OUTCOME_HTML_1, OUTCOME_HTML_2, OUTCOME_HTML_3,
    OUTCOME_HTML_4, TRANSCRIPT_HTML_CLOSE, TRANSCRIPT_HTML_OPEN,
};
use vstd::prelude::*;

verus! {

/// What the dispatcher reads of a message from the host.
#[derive(Debug)]
pub struct Inbound {
    /// The declared type of the message.
    pub msg_type: Option<String>,
    /// The identity that the message's data assigns.
    pub child_id: Option<String>,
    /// The store handle that the message's data assigns.
    pub store_id: Option<String>,
    /// The chain head that the message's data names.
    pub head: Option<String>,
}

/// The characters of an inbound message.
pub struct InboundText {
    pub msg_type: Option<Seq<char>>,
    pub child_id: Option<Seq<char>>,
    pub store_id: Option<Seq<char>>,
    pub head: Option<Seq<char>>,
}

impl View for Inbound {
    type V = InboundText;

    open spec fn view(&self) -> InboundText {
        InboundText {
            msg_type: optional_text(self.msg_type),
            child_id: optional_text(self.child_id),
            store_id: optional_text(self.store_id),
            head: optional_text(self.head),
        }
    }
}

/// The characters of a reply.
pub struct ReplyText {
    pub child_id: Seq<char>,
    pub text: Seq<char>,
    pub html: Option<Seq<char>>,
    pub parent_id: Option<Seq<char>>,
    pub data: Seq<(Seq<char>, Seq<char>)>,
}

impl View for ChildMessage {
    type V = ReplyText;

    open spec fn view(&self) -> ReplyText {
        ReplyText {
            child_id: self.child_id@,
            text: self.text@,
            html: optional_text(self.html),
            parent_id: optional_text(self.parent_id),
            data: members(self.data@),
        }
    }
}

/// The characters of the members of a data object.
pub open spec fn members(data: Seq<(String, String)>) -> Seq<(Seq<char>, Seq<char>)> {
    data.map_values(|member: (String, String)| (member.0@, member.1@))
}

/// What to do with a message from the host.
#[derive(Debug)]
pub enum Dispatch {
    /// Send this reply.
    Reply(ChildMessage),
    /// Load the chain entry with this identifier, and hand it to
    /// [`State::entry_loaded`].
    Load(String),
}

/// The characters of a dispatch.
pub enum DispatchText {
    Reply(ReplyText),
    Load(Seq<char>),
}

impl View for Dispatch {
    type V = DispatchText;

    open spec fn view(&self) -> DispatchText {
        match self {
            Dispatch::Reply(reply) => DispatchText::Reply(reply@),
            Dispatch::Load(head) => DispatchText::Load(head@),
        }
    }
}

/// What to do once the load of a chain entry has ended.
#[derive(Debug)]
pub enum Loaded {
    /// Send this reply.
    Reply(ChildMessage),
    /// Run these commands, and hand their outcomes to [`State::transcript`].
    Run(Vec<FsCommand>),
}

/// The characters of a [`Loaded`].
pub enum LoadedText {
    Reply(ReplyText),
    Run(Seq<CommandText>),
}

impl View for Loaded {
    type V = LoadedText;

    open spec fn view(&self) -> LoadedText {
        match self {
            Loaded::Reply(reply) => LoadedText::Reply(reply@),
            Loaded::Run(commands) => LoadedText::Run(command_texts(commands@)),
        }
    }
}

/// What the dispatcher reads of a message: the string under `msg_type`, and
/// the strings under `child_id`, `store_id` and `head` of the object under
/// `data`. Of a message that is no JSON document it reads nothing.
pub open spec fn inbound_of(document: Option<Json>) -> InboundText {
    match document {
        Some(message) => {
            let data = match message.member("data"@) {
                Some(data) => data,
                None => Json::Null,
            };
            InboundText {
                msg_type: message.text_at("msg_type"@),
                child_id: data.text_at("child_id"@),
                store_id: data.text_at("store_id"@),
                head: data.text_at("head"@),
            }
        },
        None => InboundText { msg_type: None, child_id: None, store_id: None, head: None },
    }
}

/// The identity under which a session replies: the one bound, or the empty
/// text before any is.
pub open spec fn identity(state: StateText) -> Seq<char> {
    match state.child_id {
        Some(id) => id,
        None => Seq::empty(),
    }
}

/// A reply that carries a notice.
pub open spec fn notice(state: StateText, text: Seq<char>, parent: Option<Seq<char>>) -> ReplyText {
    ReplyText {
        child_id: identity(state),
        text,
        html: Some(NOTICE_HTML_OPEN@ + text + NOTICE_HTML_CLOSE@),
        parent_id: parent,
        data: Seq::empty(),
    }
}

/// The reply that carries nothing: there was nothing to do.
pub open spec fn acknowledgement(state: StateText, parent: Option<Seq<char>>) -> ReplyText {
    ReplyText {
        child_id: identity(state),
        text: Seq::empty(),
        html: None,
        parent_id: parent,
        data: Seq::empty(),
    }
}

/// The name by which a session is called in replies.
pub open spec fn label(name: Option<Seq<char>>) -> Seq<char> {
    match name {
        Some(name) => name,
        None => "default"@,
    }
}

/// The opening marker as the introduction's text shows it, with `{name}`
/// in the place of the instance name.
pub open spec fn marker_pattern(name: Option<Seq<char>>) -> Seq<char> {
    match name {
        Some(_) => "<fs-command name=\"{name}\">"@,
        None => "<fs-command>"@,
    }
}

/// The opening marker as the introduction's markup shows it.
pub open spec fn marker_html(name: Option<Seq<char>>) -> Seq<char> {
    match name {
        Some(name) => "&lt;fs-command name=\""@ + name + "\"&gt;"@,
        None => "&lt;fs-command&gt;"@,
    }
}

/// The permission set in words.
pub open spec fn permissions_text(permissions: Seq<Seq<char>>) -> Seq<char> {
    joined(permissions, ", "@)
}

/// The text of the reply to an introduction.
pub open spec fn introduction_text(state: StateText) -> Seq<char> {
    replaced(
        replaced(
            replaced(INTRODUCTION@, "{marker}"@, marker_pattern(state.name)),
            "{name}"@,
            label(state.name),
        ),
        "{permissions}"@,
        permissions_text(state.permissions),
    )
}

/// The markup of the reply to an introduction.
pub open spec fn introduction_html(state: StateText) -> Seq<char> {
    INTRODUCTION_HTML_0@ + label(state.name) + INTRODUCTION_HTML_1@ + permissions_text(
        state.permissions,
    ) + INTRODUCTION_HTML_2@ + marker_html(state.name) + INTRODUCTION_HTML_3@ + marker_html(
        state.name,
    ) + INTRODUCTION_HTML_4@
}

/// The reply to an introduction: what the session can do and how to ask.
pub open spec fn introduction(state: StateText, parent: Option<Seq<char>>) -> ReplyText {
    ReplyText {
        child_id: identity(state),
        text: introduction_text(state),
        html: Some(introduction_html(state)),
        parent_id: parent,
        data: Seq::empty(),
    }
}

/// Whether a message is an introduction that carries both an identity and
/// a store handle.
pub open spec fn introduces(inbound: InboundText) -> bool {
    inbound.msg_type == Some("introduction"@) && inbound.child_id is Some && inbound.store_id
        is Some
}

/// The session after a message. Only an introduction that carries both an
/// identity and a store handle changes it, and it binds only what is not
/// bound yet.
pub open spec fn next_state(state: StateText, inbound: InboundText) -> StateText {
    if introduces(inbound) {
        StateText {
            child_id: if state.child_id is Some {
                state.child_id
            } else {
                inbound.child_id
            },
            store_id: if state.store_id is Some {
                state.store_id
            } else {
                inbound.store_id
            },
            ..state
        }
    } else {
        state
    }
}

/// What a session in `state` does with a message.
pub open spec fn dispatched(state: StateText, inbound: InboundText) -> DispatchText {
    match inbound.msg_type {
        None => DispatchText::Reply(notice(state, "No message type provided"@, inbound.head)),
        Some(kind) => if kind == "introduction"@ {
            if introduces(inbound) {
                DispatchText::Reply(introduction(next_state(state, inbound), inbound.head))
            } else {
                DispatchText::Reply(
                    notice(state, "Failed to get child_id or store_id from introduction"@, None),
                )
            }
        } else if kind == "head-update"@ {
            match (state.child_id, inbound.head) {
                (Some(_), Some(head)) => DispatchText::Load(head),
                _ => DispatchText::Reply(acknowledgement(state, inbound.head)),
            }
        } else {
            DispatchText::Reply(notice(state, "Unknown message type: "@ + kind, inbound.head))
        },
    }
}

/// The data of a reply that answers the chain entry `head`.
pub open spec fn correlation(head: Seq<char>) -> Seq<(Seq<char>, Seq<char>)> {
    seq![("head"@, head)]
}

/// The reply that reports a failed load.
pub open spec fn load_failure(state: StateText, head: Seq<char>, reason: Seq<char>) -> ReplyText {
    let text = "Failed to load message: "@ + reason;
    ReplyText {
        child_id: identity(state),
        text,
        html: Some(ERROR_HTML_OPEN@ + text + ERROR_HTML_CLOSE@),
        parent_id: Some(head),
        data: correlation(head),
    }
}

/// The commands that a chain entry asks a session to run. Only a chat
/// message asks for any; a rollup is never read.
pub open spec fn commands_of(state: StateText, entry: ChainEntry) -> Seq<CommandText> {
    match entry.data {
        MessageData::Chat(message) => commands_in(
            message.content_text(),
            opening_marker(state.name),
        ),
        MessageData::ChildRollup(_) => Seq::empty(),
    }
}

/// What a session does once the load of the entry at `head` has ended.
pub open spec fn loaded_outcome(
    state: StateText,
    head: Seq<char>,
    loaded: Result<ChainEntry, LoadError>,
) -> LoadedText {
    match loaded {
        Err(error) => LoadedText::Reply(load_failure(state, head, error@.message())),
        Ok(entry) => if commands_of(state, entry).len() > 0 {
            LoadedText::Run(commands_of(state, entry))
        } else {
            LoadedText::Reply(acknowledgement(state, Some(head)))
        },
    }
}

/// The icon and the colour under which the markup shows an operation.
pub open spec fn badge(operation: Seq<char>) -> (Seq<char>, Seq<char>) {
    match OperationKind::named(operation) {
        Some(OperationKind::ReadFile) => ("\u{1f4c4}"@, "#3B82F6"@),
        Some(OperationKind::WriteFile) => ("\u{270f}\u{fe0f}"@, "#10B981"@),
        Some(OperationKind::EditFile) => ("\u{1f504}"@, "#8B5CF6"@),
        Some(OperationKind::ListFiles) => ("\u{1f4c1}"@, "#F59E0B"@),
        Some(OperationKind::CreateDir) => ("\u{1f4c2}"@, "#10B981"@),
        Some(OperationKind::DeleteFile) => ("\u{1f5d1}\u{fe0f}"@, "#EF4444"@),
        None => ("\u{2753}"@, "#6B7280"@),
    }
}

/// The markup of one outcome.
pub open spec fn outcome_html(result: ResultText) -> Seq<char> {
    OUTCOME_HTML_0@ + badge(result.operation).0 + OUTCOME_HTML_1@ + badge(result.operation).1
        + OUTCOME_HTML_2@ + result.operation + OUTCOME_HTML_3@ + result.message + OUTCOME_HTML_4@
}

/// The messages of the outcomes, in order.
pub open spec fn messages(results: Seq<ExecutionResult>) -> Seq<Seq<char>> {
    results.map_values(|r: ExecutionResult| r.message@)
}

/// The markup of the outcomes, outcome by outcome.
pub open spec fn outcomes_html(results: Seq<ExecutionResult>) -> Seq<Seq<char>> {
    results.map_values(|r: ExecutionResult| outcome_html(r@))
}

/// The reply that reports the outcomes of the commands of the entry at
/// `head`: the messages in the order of the commands, a blank line between
/// neighbours.
pub open spec fn transcript_reply(
    state: StateText,
    head: Seq<char>,
    results: Seq<ExecutionResult>,
) -> ReplyText {
    ReplyText {
        child_id: identity(state),
        text: joined(messages(results), "\n\n"@),
        html: Some(
            TRANSCRIPT_HTML_OPEN@ + joined(outcomes_html(results), Seq::empty())
                + TRANSCRIPT_HTML_CLOSE@,
        ),
        parent_id: Some(head),
        data: correlation(head),
    }
}

/// No message changes a session's name, base path or permission set, and
/// an identity or a store that is bound stays bound to what it was.
pub proof fn law_settings_are_kept(state: StateText, inbound: InboundText)
    ensures
        next_state(state, inbound).name == state.name,
        next_state(state, inbound).base_path == state.base_path,
        next_state(state, inbound).permissions == state.permissions,
        state.child_id is Some ==> next_state(state, inbound).child_id == state.child_id,
        state.store_id is Some ==> next_state(state, inbound).store_id == state.store_id,
{
}

/// Only an introduction that carries both an identity and a store handle
/// changes a session.
pub proof fn law_only_introduction_binds(state: StateText, inbound: InboundText)
    requires
        !introduces(inbound),
    ensures
        next_state(state, inbound) == state,
{
}

/// A rollup is acknowledged with an empty reply, whatever its replies hold.
pub proof fn law_rollup_is_not_read(state: StateText, head: Seq<char>, entry: ChainEntry)
    requires
        entry.data is ChildRollup,
    ensures
        loaded_outcome(state, head, Ok(entry)) == LoadedText::Reply(
            acknowledgement(state, Some(head)),
        ),
        acknowledgement(state, Some(head)).text.len() == 0,
{
}

/// The data of a reply that carries none.
fn no_data() -> (data: Vec<(String, String)>)
    ensures
        members(data@) == Seq::<(Seq<char>, Seq<char>)>::empty(),
{
    let data: Vec<(String, String)> = Vec::new();
    proof {
        assert(members(data@) =~= Seq::<(Seq<char>, Seq<char>)>::empty());
    }
    data
}

/// The data of a reply that answers the chain entry `head`.
fn head_data(head: &str) -> (data: Vec<(String, String)>)
    ensures
        members(data@) == correlation(head@),
{
    let mut data: Vec<(String, String)> = Vec::new();
    data.push((String::from_str("head"), String::from_str(head)));
    proof {
        assert(members(data@) =~= correlation(head@));
    }
    data
}

/// The icon and the colour under which the markup shows an operation.
fn badge_of(operation: &str) -> (badge: (&'static str, &'static str))
    ensures
        (badge.0@, badge.1@) == self::badge(operation@),
{
    match OperationKind::parse(operation) {
        Some(OperationKind::ReadFile) => ("\u{1f4c4}", "#3B82F6"),
        Some(OperationKind::WriteFile) => ("\u{270f}\u{fe0f}", "#10B981"),
        Some(OperationKind::EditFile) => ("\u{1f504}", "#8B5CF6"),
        Some(OperationKind::ListFiles) => ("\u{1f4c1}", "#F59E0B"),
        Some(OperationKind::CreateDir) => ("\u{1f4c2}", "#10B981"),
        Some(OperationKind::DeleteFile) => ("\u{1f5d1}\u{fe0f}", "#EF4444"),
        None => ("\u{2753}", "#6B7280"),
    }
}

/// The markup of one outcome.
fn render_outcome(result: &ExecutionResult) -> (html: String)
    ensures
        html@ == outcome_html(result@),
{
    let (icon, colour) = badge_of(result.operation.as_str());
    let mut html = String::from_str(OUTCOME_HTML_0);
    html.append(icon);
    html.append(OUTCOME_HTML_1);
    html.append(colour);
    html.append(OUTCOME_HTML_2);
    html.append(result.operation.as_str());
    html.append(OUTCOME_HTML_3);
    html.append(result.message.as_str());
    html.append(OUTCOME_HTML_4);
    html
}

impl Inbound {
    /// Reads a message from the host.
    pub fn read(message: &[u8]) -> (inbound: Inbound)
        ensures
            inbound@ == inbound_of(json_document(message@)),
    {
        match parse(message) {
            Err(_) => Inbound { msg_type: None, child_id: None, store_id: None, head: None },
            Ok(document) => {
                let msg_type = text_member(&document, "msg_type");
                match member(&document, "data") {
                    Some(data) => Inbound {
                        msg_type,
                        child_id: text_member(data, "child_id"),
                        store_id: text_member(data, "store_id"),
                        head: text_member(data, "head"),
                    },
                    None => Inbound { msg_type, child_id: None, store_id: None, head: None },
                }
            },
        }
    }
}

impl State {
    /// The identity under which the session replies.
    fn identity(&self) -> (id: String)
        ensures
            id@ == identity(self@),
    {
        match &self.child_id {
            Some(id) => id.clone(),
            None => String::new(),
        }
    }

    fn notice(&self, text: String, parent: Option<String>) -> (reply: ChildMessage)
        ensures
            reply@ == notice(self@, text@, optional_text(parent)),
    {
        let mut html = String::from_str(NOTICE_HTML_OPEN);
        html.append(text.as_str());
        html.append(NOTICE_HTML_CLOSE);
        ChildMessage {
            child_id: self.identity(),
            text,
            html: Some(html),
            parent_id: parent,
            data: no_data(),
        }
    }

    fn acknowledgement(&self, parent: Option<String>) -> (reply: ChildMessage)
        ensures
            reply@ == acknowledgement(self@, optional_text(parent)),
    {
        ChildMessage {
            child_id: self.identity(),
            text: String::new(),
            html: None,
            parent_id: parent,
            data: no_data(),
        }
    }

    fn introduction(&self, parent: Option<String>) -> (reply: ChildMessage)
        ensures
            reply@ == introduction(self@, optional_text(parent)),
    {
        let permissions = join(&self.permissions, ", ");
        let (pattern, shown, name) = match &self.name {
            Some(name) => {
                let mut shown = String::from_str("&lt;fs-command name=\"");
                shown.append(name.as_str());
                shown.append("\"&gt;");
                ("<fs-command name=\"{name}\">", shown, name.as_str())
            },
            None => ("<fs-command>", String::from_str("&lt;fs-command&gt;"), "default"),
        };
        let text = replace_all(INTRODUCTION, "{marker}", pattern);
        let text = replace_all(text.as_str(), "{name}", name);
        let text = replace_all(text.as_str(), "{permissions}", permissions.as_str());
        let mut html = String::from_str(INTRODUCTION_HTML_0);
        html.append(name);
        html.append(INTRODUCTION_HTML_1);
        html.append(permissions.as_str());
        html.append(INTRODUCTION_HTML_2);
        html.append(shown.as_str());
        html.append(INTRODUCTION_HTML_3);
        html.append(shown.as_str());
        html.append(INTRODUCTION_HTML_4);
        ChildMessage {
            child_id: self.identity(),
            text,
            html: Some(html),
            parent_id: parent,
            data: no_data(),
        }
    }

    /// Decides what to do with a message that has been read.
    ///
    /// An introduction that carries an identity and a store handle binds
    /// what the session has not bound yet and is answered with the
    /// description of what the session can do. The update of a chain head
    /// asks for the entry at the head, if the session has an identity and
    /// the message names a head, and is acknowledged otherwise. Every other
    /// message is answered with a notice and leaves the session as it was.
    pub fn dispatch(&mut self, inbound: Inbound) -> (next: Dispatch)
        ensures
            final(self)@ == next_state(old(self)@, inbound@),
            next@ == dispatched(old(self)@, inbound@),
    {
        let Inbound { msg_type, child_id, store_id, head } = inbound;
        let kind = match msg_type {
            Some(kind) => kind,
            None => {
                return Dispatch::Reply(
                    self.notice(String::from_str("No message type provided"), head),
                );
            },
        };
        if same_text(kind.as_str(), "introduction") {
            match (child_id, store_id) {
                (Some(child_id), Some(store_id)) => {
                    if self.child_id.is_none() {
                        self.child_id = Some(child_id);
                    }
                    if self.store_id.is_none() {
                        self.store_id = Some(store_id);
                    }
                    Dispatch::Reply(self.introduction(head))
                },
                _ => Dispatch::Reply(
                    self.notice(
                        String::from_str("Failed to get child_id or store_id from introduction"),
                        None,
                    ),
                ),
            }
        } else if same_text(kind.as_str(), "head-update") {
            if self.child_id.is_some() {
                match head {
                    Some(head) => Dispatch::Load(head),
                    None => Dispatch::Reply(self.acknowledgement(None)),
                }
            } else {
                Dispatch::Reply(self.acknowledgement(head))
            }
        } else {
            let mut text = String::from_str("Unknown message type: ");
            text.append(kind.as_str());
            Dispatch::Reply(self.notice(text, head))
        }
    }

    /// Reads a message from the host and decides what to do with it. A
    /// message that is no JSON document is treated as one without a type.
    pub fn handle_request(&mut self, message: &[u8]) -> (next: Dispatch)
        ensures
            final(self)@ == next_state(old(self)@, inbound_of(json_document(message@))),
            next@ == dispatched(old(self)@, inbound_of(json_document(message@))),
    {
        let inbound = Inbound::read(message);
        self.dispatch(inbound)
    }

    /// Decides what to do once the load of the entry at `head` has ended.
    ///
    /// A failed load is reported. A chat message is searched for the
    /// session's command blocks; if it holds any, they are to be run. A
    /// chat message without commands and a rollup are acknowledged with an
    /// empty reply.
    pub fn entry_loaded(&self, head: &str, loaded: Result<ChainEntry, LoadError>) -> (next: Loaded)
        ensures
            next@ == loaded_outcome(self@, head@, loaded),
    {
        match loaded {
            Err(error) => {
                let mut text = String::from_str("Failed to load message: ");
                let reason = error.message();
                text.append(reason.as_str());
                let mut html = String::from_str(ERROR_HTML_OPEN);
                html.append(text.as_str());
                html.append(ERROR_HTML_CLOSE);
                let data = head_data(head);
                Loaded::Reply(
                    ChildMessage {
                        child_id: self.identity(),
                        text,
                        html: Some(html),
                        parent_id: Some(String::from_str(head)),
                        data,
                    },
                )
            },
            Ok(entry) => {
                match &entry.data {
                    MessageData::Chat(message) => {
                        let scope = match &self.name {
                            Some(name) => Some(name.as_str()),
                            None => None,
                        };
                        let commands = State::extract_fs_commands(message.content(), scope);
                        if commands.len() > 0 {
                            return Loaded::Run(commands);
                        }
                    },
                    MessageData::ChildRollup(_) => {},
                }
                Loaded::Reply(self.acknowledgement(Some(String::from_str(head))))
            },
        }
    }

    /// The reply that reports the outcomes of the commands of the entry at
    /// `head`.
    pub fn transcript(&self, head: &str, results: &Vec<ExecutionResult>) -> (reply: ChildMessage)
        ensures
            reply@ == transcript_reply(self@, head@, results@),
    {
        let mut lines: Vec<String> = Vec::new();
        let mut blocks: Vec<String> = Vec::new();
        let mut i: usize = 0;
        while i < results.len()
            invariant
                i <= results.len(),
                texts(lines@) == messages(results@).take(i as int),
                texts(blocks@) == outcomes_html(results@).take(i as int),
            decreases results.len() - i,
        {
            let ghost had_lines = texts(lines@);
            let ghost had_blocks = texts(blocks@);
            let line = results[i].message.clone();
            let block = render_outcome(&results[i]);
            lines.push(line);
            blocks.push(block);
            proof {
                assert(texts(lines@) =~= had_lines.push(results@[i as int].message@));
                assert(messages(results@).take(i + 1) =~= messages(results@).take(i as int).push(
                    results@[i as int].message@,
                ));
                assert(texts(blocks@) =~= had_blocks.push(outcome_html(results@[i as int]@)));
                assert(outcomes_html(results@).take(i + 1) =~= outcomes_html(results@).take(
                    i as int,
                ).push(outcome_html(results@[i as int]@)));
            }
            i = i + 1;
        }
        proof {
            assert(messages(results@).take(results.len() as int) == messages(results@));
            assert(outcomes_html(results@).take(results.len() as int) == outcomes_html(results@));
            assert(""@ =~= Seq::<char>::empty()) by {
                reveal_strlit("");
            }
        }
        let text = join(&lines, "\n\n");
        let mut html = String::from_str(TRANSCRIPT_HTML_OPEN);
        let inner = join(&blocks, "");
        html.append(inner.as_str());
        html.append(TRANSCRIPT_HTML_CLOSE);
        let data = head_data(head);
        ChildMessage {
            child_id: self.identity(),
            text,
            html: Some(html),
            parent_id: Some(String::from_str(head)),
            data,
        }
    }
}

} // verus!
