//! The session: what an actor keeps between two requests.

use crate::command::optional_text;
use crate::json::{as_items, json_document, member, parse, text_items, text_member, texts_among, Json};
use crate::text::texts;
use vstd::prelude::*;

verus! {

/// The persisted state of one actor.
#[derive(Debug)]
pub struct State {
    /// The instance name, which scopes the command blocks that the actor reads.
    pub name: Option<String>,
    /// The identity that the host assigned on introduction.
    pub child_id: Option<String>,
    /// The handle of the message store, assigned on introduction.
    pub store_id: Option<String>,
    /// The directory under which relative paths are resolved.
    pub base_path: String,
    /// The permission set.
    pub permissions: Vec<String>,
}

/// The characters that a session holds.
pub struct StateText {
    pub name: Option<Seq<char>>,
    pub child_id: Option<Seq<char>>,
    pub store_id: Option<Seq<char>>,
    pub base_path: Seq<char>,
    pub permissions: Seq<Seq<char>>,
}

impl View for State {
    type V = StateText;

    open spec fn view(&self) -> StateText {
        StateText {
            name: optional_text(self.name),
            child_id: optional_text(self.child_id),
            store_id: optional_text(self.store_id),
            base_path: self.base_path@,
            permissions: texts(self.permissions@),
        }
    }
}

/// The path that a command's path stands for under `base_path`: itself
/// where it begins with a slash, else the two joined by a slash. Nothing
/// in the path is normalised.
pub open spec fn resolved(base_path: Seq<char>, path: Seq<char>) -> Seq<char> {
    if path.len() > 0 && path[0] == '/' {
        path
    } else {
        base_path + "/"@ + path
    }
}

/// The permission set of a session that was given none.
pub open spec fn default_permissions() -> Seq<Seq<char>> {
    seq!["read"@, "write"@]
}

/// The session that the given settings make. A missing base path is `.`, a
/// missing permission set holds `read` and `write`; no identity and no
/// store are bound.
pub open spec fn fresh(
    name: Option<Seq<char>>,
    base_path: Option<Seq<char>>,
    permissions: Option<Seq<Seq<char>>>,
) -> StateText {
    StateText {
        name,
        child_id: None,
        store_id: None,
        base_path: match base_path {
            Some(path) => path,
            None => "."@,
        },
        permissions: match permissions {
            Some(tokens) => tokens,
            None => default_permissions(),
        },
    }
}

/// The permission tokens that a configuration gives: the strings of the
/// array under `permissions`, if there is an array there.
pub open spec fn configured_permissions(config: Json) -> Option<Seq<Seq<char>>> {
    match config.member("permissions"@) {
        Some(listed) => match listed.items() {
            Some(items) => Some(texts_among(items)),
            None => None,
        },
        None => None,
    }
}

/// The session that a configuration document makes. Without a document
/// every setting is missing.
pub open spec fn configured(config: Option<Json>) -> StateText {
    match config {
        Some(config) => fresh(
            config.text_at("name"@),
            config.text_at("base_path"@),
            configured_permissions(config),
        ),
        None => fresh(None, None, None),
    }
}

impl State {
    /// The session that the given settings make.
    pub fn from_config(
        name: Option<String>,
        base_path: Option<String>,
        permissions: Option<Vec<String>>,
    ) -> (state: State)
        ensures
            state@ == fresh(
                optional_text(name),
                optional_text(base_path),
                match permissions {
                    Some(tokens) => Some(texts(tokens@)),
                    None => None,
                },
            ),
    {
        let base_path = match base_path {
            Some(path) => path,
            None => String::from_str("."),
        };
        let permissions = match permissions {
            Some(tokens) => tokens,
            None => {
                let mut tokens: Vec<String> = Vec::new();
                tokens.push(String::from_str("read"));
                tokens.push(String::from_str("write"));
                proof {
                    assert(texts(tokens@) =~= default_permissions());
                }
                tokens
            },
        };
        State { name, child_id: None, store_id: None, base_path, permissions }
    }

    /// The session that an actor starts with. `init_data` is the actor's
    /// configuration, a JSON object with the optional members `name`,
    /// `base_path` and `permissions`. Data that is no JSON document counts
    /// as no data.
    pub fn new(init_data: Option<Vec<u8>>) -> (state: State)
        ensures
            state@ == configured(
                match init_data {
                    Some(data) => json_document(data@),
                    None => None,
                },
            ),
    {
        if let Some(data) = init_data {
            if let Ok(config) = parse(data.as_slice()) {
                let name = text_member(&config, "name");
                let base_path = text_member(&config, "base_path");
                let permissions = match member(&config, "permissions") {
                    Some(listed) => match as_items(listed) {
                        Some(items) => Some(text_items(items)),
                        None => None,
                    },
                    None => None,
                };
                return State::from_config(name, base_path, permissions);
            }
        }
        State::from_config(None, None, None)
    }

    /// Resolves a command's path against the session's base path.
    pub fn resolve_path(&self, relative_path: &str) -> (path: String)
        ensures
            path@ == resolved(self.base_path@, relative_path@),
    {
        if !relative_path.is_empty() && relative_path.get_char(0) == '/' {
            String::from_str(relative_path)
        } else {
            let mut path = self.base_path.clone();
            path.append("/");
            path.append(relative_path);
            path
        }
    }
}

} // verus!
