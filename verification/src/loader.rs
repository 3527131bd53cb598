//! Loading entries of the message chain from the store.
//!
//! A load is one round trip: a request that names the entry, and the
//! store's answer, a JSON envelope that holds the serialized entry as an
//! array of byte values. Two envelope shapes are read. The library builds
//! the request and opens the envelope; sending the one and decoding the
//! bytes of the other is left to the caller.

use crate::command::optional_text;
use crate::json::{as_items, as_natural, error_text, json_document, json_model, json_models, member, parse, text_member, Json};
use crate::session::State;
use crate::text::same_text;
use vstd::prelude::*;

verus! {

/// Why an entry could not be loaded.
#[derive(Debug)]
pub enum LoadError {
    /// The session has no store bound.
    NotConfigured,
    /// The store could not be reached, or what it answered could not be
    /// read. The text says which.
    StoreError(String),
}

/// The characters of a load error.
pub enum LoadFailure {
    NotConfigured,
    StoreError(Seq<char>),
}

impl View for LoadError {
    type V = LoadFailure;

    open spec fn view(&self) -> LoadFailure {
        match self {
            LoadError::NotConfigured => LoadFailure::NotConfigured,
            LoadError::StoreError(text) => LoadFailure::StoreError(text@),
        }
    }
}

impl LoadFailure {
    /// The failure in words.
    pub open spec fn message(self) -> Seq<char> {
        match self {
            LoadFailure::NotConfigured => "Store ID not set"@,
            LoadFailure::StoreError(text) => text,
        }
    }
}

impl LoadError {
    /// The failure in words.
    pub fn message(&self) -> (text: String)
        ensures
            text@ == self@.message(),
    {
        match self {
            LoadError::NotConfigured => String::from_str("Store ID not set"),
            LoadError::StoreError(text) => text.clone(),
        }
    }
}

/// What a request asks of the store.
#[derive(Debug)]
pub enum Action {
    /// The entry with the given identifier.
    Get(String),
}

/// A request to the store.
#[derive(Debug)]
pub struct Request {
    /// The tag of the envelope; always `request`.
    pub _type: String,
    pub data: Action,
}

/// A request together with the store that it goes to.
#[derive(Debug)]
pub struct StoreCall {
    pub store_id: String,
    pub request: Request,
}

impl StoreCall {
    /// Whether the call asks the store `store` for the entry `id`.
    pub open spec fn asks(self, store: Seq<char>, id: Seq<char>) -> bool {
        &&& self.store_id@ == store
        &&& self.request._type@ == "request"@
        &&& match self.request.data {
            Action::Get(wanted) => wanted@ == id,
        }
    }
}

/// What stands in the place of an envelope's payload.
#[derive(Debug)]
pub enum Payload {
    /// An array. Each item is the unsigned integer that it is, if it is
    /// one.
    Items(Vec<Option<u64>>),
    /// Anything but an array.
    Other,
}

/// What the loader reads of a store's answer.
#[derive(Debug)]
pub struct StoreResponse {
    /// The string under `status`.
    pub status: Option<String>,
    /// What stands under `data.Get.value`, the payload's place in the later
    /// envelope shape.
    pub nested: Option<Payload>,
    /// What stands under `value`, the payload's place in the earlier
    /// envelope shape.
    pub direct: Option<Payload>,
}

/// The failure reported for an answer that is no success or holds no payload.
pub open spec fn no_entry() -> LoadFailure {
    LoadFailure::StoreError("Failed to load message from store"@)
}

/// The failure reported for a payload that is no array of byte values.
pub open spec fn no_bytes() -> LoadFailure {
    LoadFailure::StoreError("Expected byte array"@)
}

/// Whether an item of the payload is a byte value: an unsigned integer
/// that is at most 255.
pub open spec fn is_byte(item: Option<u64>) -> bool {
    match item {
        Some(n) => n <= 255,
        None => false,
    }
}

/// Whether every item of the payload is a byte value.
pub open spec fn all_bytes(items: Seq<Option<u64>>) -> bool {
    forall|i: int| 0 <= i < items.len() ==> is_byte(#[trigger] items[i])
}

/// The byte that a byte value is.
pub open spec fn byte_of(item: Option<u64>) -> u8
    recommends
        is_byte(item),
{
    match item {
        Some(n) => n as u8,
        None => 0u8,
    }
}

/// The bytes that the items of a payload are, where each is a byte value.
pub open spec fn bytes_of(items: Seq<Option<u64>>) -> Seq<u8>
    recommends
        all_bytes(items),
{
    items.map_values(|item: Option<u64>| byte_of(item))
}

/// The bytes that an array in the payload's place carries. An array with
/// an item that is no byte value carries none.
pub open spec fn payload_bytes(items: Seq<Option<u64>>) -> Result<Seq<u8>, LoadFailure> {
    if all_bytes(items) {
        Ok(bytes_of(items))
    } else {
        Err(no_bytes())
    }
}

/// The bytes that an answer carries.
///
/// The status has to be `ok`. The payload is looked for in the place of the
/// later envelope shape first, then in that of the earlier one, and has to
/// be an array of byte values.
pub open spec fn answered(
    status: Option<Seq<char>>,
    nested: Option<Payload>,
    direct: Option<Payload>,
) -> Result<Seq<u8>, LoadFailure> {
    if status != Some("ok"@) {
        Err(no_entry())
    } else {
        let found = if nested is Some {
            nested
        } else {
            direct
        };
        match found {
            None => Err(no_entry()),
            Some(Payload::Other) => Err(no_bytes()),
            Some(Payload::Items(items)) => payload_bytes(items@),
        }
    }
}

/// The unsigned integers that the items of an array hold, item by item.
pub open spec fn naturals(items: Seq<Json>) -> Seq<Option<u64>> {
    items.map_values(|item: Json| item.natural())
}

/// What stands under `data.Get.value` in an envelope.
pub open spec fn nested_value(envelope: Json) -> Option<Json> {
    match envelope.member("data"@) {
        Some(data) => match data.member("Get"@) {
            Some(got) => got.member("value"@),
            None => None,
        },
        None => None,
    }
}

/// The bytes that an envelope carries.
pub open spec fn envelope_answer(envelope: Json) -> Result<Seq<u8>, LoadFailure> {
    if envelope.text_at("status"@) != Some("ok"@) {
        Err(no_entry())
    } else {
        let found = match nested_value(envelope) {
            Some(value) => Some(value),
            None => envelope.member("value"@),
        };
        match found {
            None => Err(no_entry()),
            Some(value) => match value.items() {
                None => Err(no_bytes()),
                Some(items) => payload_bytes(naturals(items)),
            },
        }
    }
}

/// Whether `payload` is what the loader reads of `value`.
spec fn payload_reads(payload: Option<Payload>, value: Option<Json>) -> bool {
    match (payload, value) {
        (None, None) => true,
        (Some(Payload::Other), Some(value)) => value.items() is None,
        (Some(Payload::Items(items)), Some(value)) => match value.items() {
            Some(list) => items@ == naturals(list),
            None => false,
        },
        _ => false,
    }
}

/// Reads what stands in the payload's place.
fn read_payload(value: &serde_json::Value) -> (payload: Payload)
    ensures
        payload_reads(Some(payload), Some(json_model(*value))),
{
    match as_items(value) {
        None => Payload::Other,
        Some(list) => {
            let mut items: Vec<Option<u64>> = Vec::new();
            let mut i: usize = 0;
            while i < list.len()
                invariant
                    i <= list.len(),
                    items@ == naturals(json_models(list@).take(i as int)),
                decreases list.len() - i,
            {
                let item = as_natural(&list[i]);
                items.push(item);
                proof {
                    assert(items@ =~= naturals(json_models(list@).take(i + 1)));
                }
                i = i + 1;
            }
            proof {
                assert(json_models(list@).take(list.len() as int) == json_models(list@));
            }
            Payload::Items(items)
        },
    }
}

fn read_optional_payload(value: Option<&serde_json::Value>) -> (payload: Option<Payload>)
    ensures
        payload_reads(
            payload,
            match value {
                Some(v) => Some(json_model(*v)),
                None => None,
            },
        ),
{
    match value {
        Some(value) => Some(read_payload(value)),
        None => None,
    }
}

impl StoreResponse {
    /// Reads a parsed envelope.
    fn read(envelope: &serde_json::Value) -> (response: StoreResponse)
        ensures
            optional_text(response.status) == json_model(*envelope).text_at("status"@),
            payload_reads(response.nested, nested_value(json_model(*envelope))),
            payload_reads(response.direct, json_model(*envelope).member("value"@)),
    {
        let status = text_member(envelope, "status");
        let nested = match member(envelope, "data") {
            Some(data) => match member(data, "Get") {
                Some(got) => member(got, "value"),
                None => None,
            },
            None => None,
        };
        let nested = read_optional_payload(nested);
        let direct = read_optional_payload(member(envelope, "value"));
        StoreResponse { status, nested, direct }
    }

    /// The bytes that the answer carries, or why it carries none.
    pub fn payload(&self) -> (payload: Result<Vec<u8>, LoadError>)
        ensures
            match payload {
                Ok(bytes) => answered(optional_text(self.status), self.nested, self.direct) == Ok::<
                    Seq<u8>,
                    LoadFailure,
                >(bytes@),
                Err(error) => answered(optional_text(self.status), self.nested, self.direct)
                    == Err::<Seq<u8>, LoadFailure>(error@),
            },
    {
        let ok = match &self.status {
            Some(status) => same_text(status.as_str(), "ok"),
            None => false,
        };
        if !ok {
            return Err(LoadError::StoreError(String::from_str("Failed to load message from store")));
        }
        let found = if self.nested.is_some() {
            &self.nested
        } else {
            &self.direct
        };
        match found {
            None => Err(
                LoadError::StoreError(String::from_str("Failed to load message from store")),
            ),
            Some(Payload::Other) => Err(LoadError::StoreError(String::from_str("Expected byte array"))),
            Some(Payload::Items(items)) => {
                let mut bytes: Vec<u8> = Vec::new();
                let mut i: usize = 0;
                while i < items.len()
                    invariant
                        i <= items.len(),
                        answered(optional_text(self.status), self.nested, self.direct)
                            == payload_bytes(items@),
                        all_bytes(items@.take(i as int)),
                        bytes@ == bytes_of(items@.take(i as int)),
                    decreases items.len() - i,
                {
                    let byte: u8 = match items[i] {
                        Some(n) if n <= 255 => n as u8,
                        _ => {
                            proof {
                                assert(!is_byte(items@[i as int]));
                            }
                            return Err(
                                LoadError::StoreError(String::from_str("Expected byte array")),
                            );
                        },
                    };
                    bytes.push(byte);
                    proof {
                        let before = items@.take(i as int);
                        let now = items@.take(i + 1);
                        assert forall|k: int| 0 <= k < now.len() implies is_byte(
                            #[trigger] now[k],
                        ) by {
                            if k < i {
                                assert(now[k] == before[k]);
                            }
                        }
                        assert(bytes@ =~= bytes_of(now));
                    }
                    i = i + 1;
                }
                proof {
                    assert(items@.take(items.len() as int) == items@);
                }
                Ok(bytes)
            },
        }
    }
}

/// What the loader reads of an envelope gives the bytes that the envelope carries.
proof fn lemma_read_answer(response: StoreResponse, envelope: Json)
    requires
        optional_text(response.status) == envelope.text_at("status"@),
        payload_reads(response.nested, nested_value(envelope)),
        payload_reads(response.direct, envelope.member("value"@)),
    ensures
        answered(optional_text(response.status), response.nested, response.direct)
            == envelope_answer(envelope),
{
}

/// An envelope carries an entry only if its status is `ok` and an array
/// of byte values stands in the payload's place.
pub proof fn law_entry_needs_bytes(envelope: Json)
    requires
        envelope_answer(envelope) is Ok,
    ensures
        envelope.text_at("status"@) == Some("ok"@),
        ({
            let found = match nested_value(envelope) {
                Some(value) => Some(value),
                None => envelope.member("value"@),
            };
            found matches Some(value) && value.items() matches Some(items) && all_bytes(
                naturals(items),
            )
        }),
{
}

/// An envelope whose status is not `ok` carries no entry, whatever else it
/// holds.
pub proof fn law_status_decides(envelope: Json)
    requires
        envelope.text_at("status"@) != Some("ok"@),
    ensures
        envelope_answer(envelope) == Err::<Seq<u8>, LoadFailure>(no_entry()),
{
}

/// Opens the envelope that the store answered with: the bytes of the
/// serialized entry, or the failure to report. An answer that is no JSON
/// document is a store error whose text is the parser's.
pub fn decode_response(response: &[u8]) -> (payload: Result<Vec<u8>, LoadError>)
    ensures
        match json_document(response@) {
            Some(envelope) => match payload {
                Ok(bytes) => envelope_answer(envelope) == Ok::<Seq<u8>, LoadFailure>(bytes@),
                Err(error) => envelope_answer(envelope) == Err::<Seq<u8>, LoadFailure>(error@),
            },
            None => payload matches Err(LoadError::StoreError(_)),
        },
{
    match parse(response) {
        Err(error) => Err(LoadError::StoreError(error_text(&error))),
        Ok(envelope) => {
            let read = StoreResponse::read(&envelope);
            proof {
                lemma_read_answer(read, json_model(envelope));
            }
            read.payload()
        },
    }
}

impl State {
    /// Begins the load of the entry `id`: the request to send and the store
    /// to send it to. Without a store bound there is nothing to send.
    pub fn load_message(&self, id: &str) -> (call: Result<StoreCall, LoadError>)
        ensures
            match self.store_id {
                None => call matches Err(LoadError::NotConfigured),
                Some(store) => match call {
                    Ok(call) => call.asks(store@, id@),
                    Err(_) => false,
                },
            },
    {
        match &self.store_id {
            None => Err(LoadError::NotConfigured),
            Some(store) => Ok(
                StoreCall {
                    store_id: store.clone(),
                    request: Request {
                        _type: String::from_str("request"),
                        data: Action::Get(String::from_str(id)),
                    },
                },
            ),
        }
    }
}

} // verus!
