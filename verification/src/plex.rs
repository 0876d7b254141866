//! The webhook endpoint: the event record, the form body that carries it, and
//! the decoder that finds the one in the other.
//!
//! Each record type has a view that holds its strings as sequences of
//! characters. A part is viewed as its name and its bytes joined, a form body
//! as the sequence of its parts; the contracts speak of those views.

use crate::dispatch::{call_command, Dispatch, DispatchView, Stage};
use crate::json::{json_member, json_parse};
use crate::schema::{decode_payload, decoded};
use crate::App;
use vstd::prelude::*;

verus! {

/// The account that caused the event.
#[derive(Debug, Clone, PartialEq, Eq)]
pub struct Account {
    pub id: u64,
    pub thumb: String,
    pub title: String,
}

/// The media server that sent the event.
#[derive(Debug, Clone, PartialEq, Eq)]
pub struct Server {
    pub title: String,
    pub uuid: String,
}

/// The player on which the event happened.
#[derive(Debug, Clone, PartialEq, Eq)]
pub struct Player {
    pub local: bool,
    pub public_address: String,
    pub title: String,
    pub uuid: String,
}

/// One decoded event: every field is present, or there is no record at all.
#[derive(Debug, Clone, PartialEq, Eq)]
pub struct Payload {
    pub event: String,
    pub user: bool,
    pub owner: bool,
    pub account: Account,
    pub server: Server,
    pub player: Player,
}

pub struct AccountView {
    pub id: u64,
    pub thumb: Seq<char>,
    pub title: Seq<char>,
}

pub struct ServerView {
    pub title: Seq<char>,
    pub uuid: Seq<char>,
}

pub struct PlayerView {
    pub local: bool,
    pub public_address: Seq<char>,
    pub title: Seq<char>,
    pub uuid: Seq<char>,
}

pub struct PayloadView {
    pub event: Seq<char>,
    pub user: bool,
    pub owner: bool,
    pub account: AccountView,
    pub server: ServerView,
    pub player: PlayerView,
}

impl View for Account {
    type V = AccountView;

    open spec fn view(&self) -> AccountView {
        AccountView { id: self.id, thumb: self.thumb@, title: self.title@ }
    }
}

impl View for Server {
    type V = ServerView;

    open spec fn view(&self) -> ServerView {
        ServerView { title: self.title@, uuid: self.uuid@ }
    }
}

impl View for Player {
    type V = PlayerView;

    open spec fn view(&self) -> PlayerView {
        PlayerView {
            local: self.local,
            public_address: self.public_address@,
            title: self.title@,
            uuid: self.uuid@,
        }
    }
}

impl View for Payload {
    type V = PayloadView;

    open spec fn view(&self) -> PayloadView {
        PayloadView {
            event: self.event@,
            user: self.user,
            owner: self.owner,
            account: self.account@,
            server: self.server@,
            player: self.player@,
        }
    }
}

/// What `value` holds, by its view.
pub open spec fn viewed<T: View>(value: Option<T>) -> Option<T::V> {
    match value {
        Some(t) => Some(t@),
        None => None,
    }
}

/// What was read of one part: its chunks in the order they came, or a failure
/// of the transport while reading them.
#[derive(Debug, Clone, PartialEq, Eq)]
pub enum PartData {
    Read(Vec<Vec<u8>>),
    Failed,
}

/// One named part of a multipart form body.
#[derive(Debug, Clone, PartialEq, Eq)]
pub struct Part {
    pub name: String,
    pub data: PartData,
}

/// A multipart form body: its parts in order, or a body that could not be
/// taken apart.
#[derive(Debug, Clone, PartialEq, Eq)]
pub enum FormData {
    Parts(Vec<Part>),
    Failed,
}

/// Why a form body gave no record.
#[derive(Debug, Clone, Copy, PartialEq, Eq, Structural)]
pub enum DecodeError {
    /// The body was malformed, or the payload part could not be read.
    StreamError,
    /// No part is named `payload`, or that part holds no record.
    NotFound,
}

pub struct PartView {
    pub name: Seq<char>,
    /// The bytes of the part, or `None` where reading it failed.
    pub data: Option<Seq<u8>>,
}

/// The chunks one after the other.
pub open spec fn joined(chunks: Seq<Vec<u8>>) -> Seq<u8>
    decreases chunks.len(),
{
    if chunks.len() == 0 {
        Seq::empty()
    } else {
        joined(chunks.drop_last()) + chunks.last()@
    }
}

impl View for PartData {
    type V = Option<Seq<u8>>;

    open spec fn view(&self) -> Option<Seq<u8>> {
        match self {
            PartData::Read(chunks) => Some(joined(chunks@)),
            PartData::Failed => None,
        }
    }
}

impl View for Part {
    type V = PartView;

    open spec fn view(&self) -> PartView {
        PartView { name: self.name@, data: self.data@ }
    }
}

impl View for FormData {
    type V = Option<Seq<PartView>>;

    open spec fn view(&self) -> Option<Seq<PartView>> {
        match self {
            FormData::Parts(parts) => Some(parts@.map_values(|p: Part| p@)),
            FormData::Failed => None,
        }
    }
}

/// The name of the part that carries the event.
pub open spec fn payload_name() -> Seq<char> {
    "payload"@
}

/// The first of `parts` that is named `payload`.
pub open spec fn first_payload(parts: Seq<PartView>) -> Option<PartView>
    decreases parts.len(),
{
    if parts.len() == 0 {
        None
    } else if parts[0].name == payload_name() {
        Some(parts[0])
    } else {
        first_payload(parts.skip(1))
    }
}

/// What a form body decodes to. The first part named `payload` decides alone:
/// its record where it holds one, `NotFound` where it holds none or there is
/// no such part, `StreamError` where it or the body could not be read.
pub open spec fn decode_outcome(form: Option<Seq<PartView>>) -> Result<PayloadView, DecodeError> {
    match form {
        None => Err(DecodeError::StreamError),
        Some(parts) => match first_payload(parts) {
            None => Err(DecodeError::NotFound),
            Some(part) => match part.data {
                None => Err(DecodeError::StreamError),
                Some(bytes) => match decoded(bytes) {
                    Some(record) => Ok(record),
                    None => Err(DecodeError::NotFound),
                },
            },
        },
    }
}

/// What `outcome` holds, the record by its view.
pub open spec fn outcome_view(outcome: Result<Payload, DecodeError>) -> Result<
    PayloadView,
    DecodeError,
> {
    match outcome {
        Ok(record) => Ok(record@),
        Err(e) => Err(e),
    }
}

/// Whether a part of this name carries the event: the name is exactly
/// `payload`.
pub fn is_payload_name(name: &String) -> (is: bool)
    ensures
        is == (name@ == payload_name()),
{
    let wanted = "payload".to_owned();
    *name == wanted
}

/// Joins the chunks of a part into one buffer, in the order they came.
pub fn join_chunks(chunks: &Vec<Vec<u8>>) -> (buffer: Vec<u8>)
    ensures
        buffer@ == joined(chunks@),
{
    let mut buffer: Vec<u8> = Vec::new();
    let mut i: usize = 0;
    while i < chunks.len()
        invariant
            i <= chunks.len(),
            buffer@ == joined(chunks@.take(i as int)),
        decreases chunks.len() - i,
    {
        let ghost before = buffer@;
        buffer.extend_from_slice(chunks[i].as_slice());
        proof {
            assert(buffer@ =~= before + chunks[i as int]@);
            assert(chunks@.take(i + 1).drop_last() =~= chunks@.take(i as int));
        }
        i = i + 1;
    }
    proof {
        assert(chunks@.take(i as int) =~= chunks@);
    }
    buffer
}

/// Decodes a form body into the event record it carries.
///
/// Parts are looked at in order and the first one named `payload` decides:
/// its chunks are joined and decoded. Parts after it are never looked at, and
/// a payload part that holds no record is not made up for by a later one.
pub fn decode(form: &FormData) -> (outcome: Result<Payload, DecodeError>)
    ensures
        outcome_view(outcome) == decode_outcome(form@),
{
    let parts = match form {
        FormData::Parts(parts) => parts,
        FormData::Failed => { return Err(DecodeError::StreamError); },
    };
    let ghost views = parts@.map_values(|p: Part| p@);
    proof {
        assert(views.skip(0) =~= views);
    }
    let mut i: usize = 0;
    while i < parts.len()
        invariant
            i <= parts.len(),
            form@ == Some(views),
            views == parts@.map_values(|p: Part| p@),
            first_payload(views) == first_payload(views.skip(i as int)),
        decreases parts.len() - i,
    {
        let part = &parts[i];
        proof {
            assert(views.skip(i as int)[0] == part@);
            assert(views.skip(i as int).skip(1) =~= views.skip(i + 1));
        }
        if is_payload_name(&part.name) {
            return match &part.data {
                PartData::Failed => Err(DecodeError::StreamError),
                PartData::Read(chunks) => {
                    let buffer = join_chunks(chunks);
                    match decode_payload(buffer.as_slice()) {
                        Some(record) => Ok(record),
                        None => Err(DecodeError::NotFound),
                    }
                },
            };
        }
        i = i + 1;
    }
    Err(DecodeError::NotFound)
}

/// The status of a request whose event was decoded and handed on.
pub const OK: u16 = 200;

/// The status of a request that carries no event.
pub const BAD_REQUEST: u16 = 400;

/// The status of a request whose body could not be read.
pub const INTERNAL_SERVER_ERROR: u16 = 500;

/// The status that answers a request, by what its body decoded to.
pub open spec fn status_of(outcome: Result<PayloadView, DecodeError>) -> u16 {
    match outcome {
        Ok(_) => OK,
        Err(DecodeError::NotFound) => BAD_REQUEST,
        Err(DecodeError::StreamError) => INTERNAL_SERVER_ERROR,
    }
}

/// What a request is answered with: the status for the sender, and the
/// dispatch to run where there is an event. The status does not wait for the
/// dispatch and says nothing of how it ends.
#[derive(Debug, Clone, PartialEq, Eq)]
pub struct Reply {
    pub status: u16,
    pub dispatch: Option<Dispatch>,
}

/// Answers one request to the webhook.
///
/// The body is decoded once. A record starts a dispatch to the command of
/// `app`, which stands before its first step, and the status is 200; without
/// a record there is no dispatch, and the status is 400 where no event was
/// found and 500 where the body could not be read.
pub fn handle_webhook(form: &FormData, app: &App) -> (reply: Reply)
    ensures
        reply.status == status_of(decode_outcome(form@)),
        decode_outcome(form@) is Err ==> reply.dispatch is None,
        decode_outcome(form@) matches Ok(record) ==> {
            &&& reply.dispatch matches Some(dispatch)
            &&& dispatch@ == (DispatchView {
                stage: Stage::Resolve,
                cmd: app.cmd@,
                timeout: app.timeout,
                record,
            })
        },
{
    match decode(form) {
        Ok(record) => Reply { status: OK, dispatch: Some(call_command(app, record)) },
        Err(DecodeError::NotFound) => Reply { status: BAD_REQUEST, dispatch: None },
        Err(DecodeError::StreamError) => Reply { status: INTERNAL_SERVER_ERROR, dispatch: None },
    }
}

/// A body none of whose parts is named `payload` decodes to `NotFound`, and
/// its request is answered with 400.
pub proof fn lemma_no_payload_part(parts: Seq<PartView>)
    requires
        forall|i: int| 0 <= i < parts.len() ==> parts[i].name != payload_name(),
    ensures
        first_payload(parts) is None,
        decode_outcome(Some(parts)) == Err::<PayloadView, DecodeError>(DecodeError::NotFound),
        status_of(decode_outcome(Some(parts))) == BAD_REQUEST,
    decreases parts.len(),
{
    if parts.len() > 0 {
        lemma_no_payload_part(parts.skip(1));
    }
}

/// The keys that a sent document must have at its top.
pub open spec fn is_required_key(key: Seq<char>) -> bool {
    ||| key == "event"@
    ||| key == "user"@
    ||| key == "owner"@
    ||| key == "Account"@
    ||| key == "Server"@
    ||| key == "Player"@
}

/// A body whose payload part is a JSON document that lacks a required member
/// decodes to `NotFound`, and its request is answered with 400.
pub proof fn lemma_missing_member(parts: Seq<PartView>, key: Seq<char>)
    requires
        first_payload(parts) matches Some(part) && part.data matches Some(bytes) && json_parse(
            bytes,
        ) matches Some(doc) && json_member(doc, key) is None,
        is_required_key(key),
    ensures
        decode_outcome(Some(parts)) == Err::<PayloadView, DecodeError>(DecodeError::NotFound),
        status_of(decode_outcome(Some(parts))) == BAD_REQUEST,
{
}

/// The keys that the nested object under `outer` must have in a sent
/// document.
pub open spec fn is_required_in(outer: Seq<char>, key: Seq<char>) -> bool {
    ||| outer == "Account"@ && (key == "id"@ || key == "thumb"@ || key == "title"@)
    ||| outer == "Server"@ && (key == "title"@ || key == "uuid"@)
    ||| outer == "Player"@ && (key == "local"@ || key == "publicAddress"@ || key == "title"@
        || key == "uuid"@)
}

/// A body whose payload part is a JSON document in which one of the nested
/// objects lacks a required member decodes to `NotFound`, and its request is
/// answered with 400.
pub proof fn lemma_missing_nested_member(parts: Seq<PartView>, outer: Seq<char>, key: Seq<char>)
    requires
        first_payload(parts) matches Some(part) && part.data matches Some(bytes) && json_parse(
            bytes,
        ) matches Some(doc) && json_member(doc, outer) matches Some(inner) && json_member(
            inner,
            key,
        ) is None,
        is_required_in(outer, key),
    ensures
        decode_outcome(Some(parts)) == Err::<PayloadView, DecodeError>(DecodeError::NotFound),
        status_of(decode_outcome(Some(parts))) == BAD_REQUEST,
{
}

} // verus!
