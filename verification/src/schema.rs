//! The shape of an event record as a JSON document.
//!
//! A record is an object whose members carry the fields. The three nested
//! objects stand under capitalised keys, and the members of the player are in
//! camel case. A record is written as it is read: the document that a command
//! receives holds the record under the same keys as the one that was sent.

use crate::json::{
    as_bool, as_str, as_u64, from_bool, from_members, from_str, from_u64, json_bool, json_bytes,
    json_from_bool, json_from_members, json_from_str, json_from_u64, json_member, json_parse,
    json_str, json_u64, last_under, member, member_views, parse, to_bytes,
};
use crate::plex::{
    viewed, Account, AccountView, Payload, PayloadView, Player, PlayerView, Server, ServerView,
};
use serde_json::Value;
use vstd::prelude::*;

verus! {

/// The text of the member of `doc` under `key`.
pub open spec fn text_at(doc: Value, key: Seq<char>) -> Option<Seq<char>> {
    match json_member(doc, key) {
        Some(v) => json_str(v),
        None => None,
    }
}

/// The flag of the member of `doc` under `key`.
pub open spec fn flag_at(doc: Value, key: Seq<char>) -> Option<bool> {
    match json_member(doc, key) {
        Some(v) => json_bool(v),
        None => None,
    }
}

/// The number of the member of `doc` under `key`.
pub open spec fn number_at(doc: Value, key: Seq<char>) -> Option<u64> {
    match json_member(doc, key) {
        Some(v) => json_u64(v),
        None => None,
    }
}

/// The account that `doc` holds: all three members, or none.
pub open spec fn account_in(doc: Value) -> Option<AccountView> {
    match (number_at(doc, "id"@), text_at(doc, "thumb"@), text_at(doc, "title"@)) {
        (Some(id), Some(thumb), Some(title)) => Some(AccountView { id, thumb, title }),
        _ => None,
    }
}

/// The server that `doc` holds.
pub open spec fn server_in(doc: Value) -> Option<ServerView> {
    match (text_at(doc, "title"@), text_at(doc, "uuid"@)) {
        (Some(title), Some(uuid)) => Some(ServerView { title, uuid }),
        _ => None,
    }
}

/// The player that `doc` holds.
pub open spec fn player_in(doc: Value) -> Option<PlayerView> {
    match (
        flag_at(doc, "local"@),
        text_at(doc, "publicAddress"@),
        text_at(doc, "title"@),
        text_at(doc, "uuid"@),
    ) {
        (Some(local), Some(public_address), Some(title), Some(uuid)) => Some(
            PlayerView { local, public_address, title, uuid },
        ),
        _ => None,
    }
}

/// The account of the member of `doc` under `key`.
pub open spec fn account_at(doc: Value, key: Seq<char>) -> Option<AccountView> {
    match json_member(doc, key) {
        Some(v) => account_in(v),
        None => None,
    }
}

/// The server of the member of `doc` under `key`.
pub open spec fn server_at(doc: Value, key: Seq<char>) -> Option<ServerView> {
    match json_member(doc, key) {
        Some(v) => server_in(v),
        None => None,
    }
}

/// The player of the member of `doc` under `key`.
pub open spec fn player_at(doc: Value, key: Seq<char>) -> Option<PlayerView> {
    match json_member(doc, key) {
        Some(v) => player_in(v),
        None => None,
    }
}

/// The record that `doc` holds: every field present and of its type, or no
/// record.
pub open spec fn record_in(doc: Value) -> Option<PayloadView> {
    match (
        text_at(doc, "event"@),
        flag_at(doc, "user"@),
        flag_at(doc, "owner"@),
        account_at(doc, "Account"@),
        server_at(doc, "Server"@),
        player_at(doc, "Player"@),
    ) {
        (Some(event), Some(user), Some(owner), Some(account), Some(server), Some(player)) => Some(
            PayloadView { event, user, owner, account, server, player },
        ),
        _ => None,
    }
}

fn read_text(doc: &Value, key: &str) -> (text: Option<String>)
    ensures
        viewed(text) == text_at(*doc, key@),
{
    match member(doc, key) {
        Some(v) => match as_str(v) {
            Some(s) => Some(s.to_owned()),
            None => None,
        },
        None => None,
    }
}

fn read_flag(doc: &Value, key: &str) -> (flag: Option<bool>)
    ensures
        flag == flag_at(*doc, key@),
{
    match member(doc, key) {
        Some(v) => as_bool(v),
        None => None,
    }
}

fn read_number(doc: &Value, key: &str) -> (number: Option<u64>)
    ensures
        number == number_at(*doc, key@),
{
    match member(doc, key) {
        Some(v) => as_u64(v),
        None => None,
    }
}

fn read_account(doc: &Value, key: &str) -> (account: Option<Account>)
    ensures
        viewed(account) == account_at(*doc, key@),
{
    let inner = match member(doc, key) {
        Some(v) => v,
        None => { return None; },
    };
    let id = read_number(inner, "id");
    let thumb = read_text(inner, "thumb");
    let title = read_text(inner, "title");
    match (id, thumb, title) {
        (Some(id), Some(thumb), Some(title)) => Some(Account { id, thumb, title }),
        _ => None,
    }
}

fn read_server(doc: &Value, key: &str) -> (server: Option<Server>)
    ensures
        viewed(server) == server_at(*doc, key@),
{
    let inner = match member(doc, key) {
        Some(v) => v,
        None => { return None; },
    };
    let title = read_text(inner, "title");
    let uuid = read_text(inner, "uuid");
    match (title, uuid) {
        (Some(title), Some(uuid)) => Some(Server { title, uuid }),
        _ => None,
    }
}

fn read_player(doc: &Value, key: &str) -> (player: Option<Player>)
    ensures
        viewed(player) == player_at(*doc, key@),
{
    let inner = match member(doc, key) {
        Some(v) => v,
        None => { return None; },
    };
    let local = read_flag(inner, "local");
    let public_address = read_text(inner, "publicAddress");
    let title = read_text(inner, "title");
    let uuid = read_text(inner, "uuid");
    match (local, public_address, title, uuid) {
        (Some(local), Some(public_address), Some(title), Some(uuid)) => Some(
            Player { local, public_address, title, uuid },
        ),
        _ => None,
    }
}

/// Reads the record out of a document. There is a record exactly where every
/// field is present and of its type.
pub fn payload_from_json(doc: &Value) -> (record: Option<Payload>)
    ensures
        viewed(record) == record_in(*doc),
{
    let event = read_text(doc, "event");
    let user = read_flag(doc, "user");
    let owner = read_flag(doc, "owner");
    let account = read_account(doc, "Account");
    let server = read_server(doc, "Server");
    let player = read_player(doc, "Player");
    match (event, user, owner, account, server, player) {
        (Some(event), Some(user), Some(owner), Some(account), Some(server), Some(player)) => Some(
            Payload { event, user, owner, account, server, player },
        ),
        _ => None,
    }
}

/// The object that is written for an account.
pub open spec fn account_document(account: AccountView) -> Value {
    json_from_members(
        seq![
            ("id"@, json_from_u64(account.id)),
            ("thumb"@, json_from_str(account.thumb)),
            ("title"@, json_from_str(account.title)),
        ],
    )
}

/// The object that is written for a server.
pub open spec fn server_document(server: ServerView) -> Value {
    json_from_members(
        seq![("title"@, json_from_str(server.title)), ("uuid"@, json_from_str(server.uuid))],
    )
}

/// The object that is written for a player.
pub open spec fn player_document(player: PlayerView) -> Value {
    json_from_members(
        seq![
            ("local"@, json_from_bool(player.local)),
            ("publicAddress"@, json_from_str(player.public_address)),
            ("title"@, json_from_str(player.title)),
            ("uuid"@, json_from_str(player.uuid)),
        ],
    )
}

/// The document that is written for a record: its fields in their order,
/// under the keys that a record is read from.
pub open spec fn payload_document(record: PayloadView) -> Value {
    json_from_members(
        seq![
            ("event"@, json_from_str(record.event)),
            ("user"@, json_from_bool(record.user)),
            ("owner"@, json_from_bool(record.owner)),
            ("Account"@, account_document(record.account)),
            ("Server"@, server_document(record.server)),
            ("Player"@, player_document(record.player)),
        ],
    )
}

/// A key that no later pair of `members` has is found with its own document.
proof fn lemma_last_under(members: Seq<(Seq<char>, Value)>, i: int)
    requires
        0 <= i < members.len(),
        forall|j: int| i < j < members.len() ==> members[j].0 != members[i].0,
    ensures
        last_under(members, members[i].0) == Some(members[i].1),
    decreases members.len(),
{
    if i < members.len() - 1 {
        lemma_last_under(members.drop_last(), i);
    }
}

fn server_json(server: &Server) -> (doc: Value)
    ensures
        doc == server_document(server@),
        server_in(doc) == Some(server@),
{
    let mut members: Vec<(&str, Value)> = Vec::new();
    members.push(("title", from_str(server.title.as_str())));
    members.push(("uuid", from_str(server.uuid.as_str())));
    let ghost pairs = member_views(members@);
    let doc = from_members(members);
    proof {
        reveal_strlit("title");
        reveal_strlit("uuid");
        assert("title"@.len() == 5 && "uuid"@.len() == 4);
        assert(pairs =~= seq![
            ("title"@, json_from_str(server.title@)),
            ("uuid"@, json_from_str(server.uuid@)),
        ]);
        lemma_last_under(pairs, 0);
        lemma_last_under(pairs, 1);
    }
    doc
}

fn account_json(account: &Account) -> (doc: Value)
    ensures
        doc == account_document(account@),
        account_in(doc) == Some(account@),
{
    let mut members: Vec<(&str, Value)> = Vec::new();
    members.push(("id", from_u64(account.id)));
    members.push(("thumb", from_str(account.thumb.as_str())));
    members.push(("title", from_str(account.title.as_str())));
    let ghost pairs = member_views(members@);
    let doc = from_members(members);
    proof {
        reveal_strlit("id");
        reveal_strlit("thumb");
        reveal_strlit("title");
        assert("id"@.len() == 2 && "thumb"@[1] == 'h' && "title"@[1] == 'i');
        assert(pairs =~= seq![
            ("id"@, json_from_u64(account.id)),
            ("thumb"@, json_from_str(account.thumb@)),
            ("title"@, json_from_str(account.title@)),
        ]);
        lemma_last_under(pairs, 0);
        lemma_last_under(pairs, 1);
        lemma_last_under(pairs, 2);
    }
    doc
}

fn player_json(player: &Player) -> (doc: Value)
    ensures
        doc == player_document(player@),
        player_in(doc) == Some(player@),
{
    let mut members: Vec<(&str, Value)> = Vec::new();
    members.push(("local", from_bool(player.local)));
    members.push(("publicAddress", from_str(player.public_address.as_str())));
    members.push(("title", from_str(player.title.as_str())));
    members.push(("uuid", from_str(player.uuid.as_str())));
    let ghost pairs = member_views(members@);
    let doc = from_members(members);
    proof {
        reveal_strlit("local");
        reveal_strlit("publicAddress");
        reveal_strlit("title");
        reveal_strlit("uuid");
        assert("local"@[0] == 'l' && "title"@[0] == 't');
        assert("publicAddress"@.len() == 13 && "uuid"@.len() == 4 && "title"@.len() == 5);
        assert(pairs =~= seq![
            ("local"@, json_from_bool(player.local)),
            ("publicAddress"@, json_from_str(player.public_address@)),
            ("title"@, json_from_str(player.title@)),
            ("uuid"@, json_from_str(player.uuid@)),
        ]);
        lemma_last_under(pairs, 0);
        lemma_last_under(pairs, 1);
        lemma_last_under(pairs, 2);
        lemma_last_under(pairs, 3);
    }
    doc
}

/// Builds the document that a command receives for `record`. Read back, the
/// document holds that record: every field has the value it had.
pub fn payload_to_json(record: &Payload) -> (doc: Value)
    ensures
        doc == payload_document(record@),
        record_in(doc) == Some(record@),
{
    let mut members: Vec<(&str, Value)> = Vec::new();
    members.push(("event", from_str(record.event.as_str())));
    members.push(("user", from_bool(record.user)));
    members.push(("owner", from_bool(record.owner)));
    members.push(("Account", account_json(&record.account)));
    members.push(("Server", server_json(&record.server)));
    members.push(("Player", player_json(&record.player)));
    let ghost pairs = member_views(members@);
    let doc = from_members(members);
    proof {
        reveal_strlit("event");
        reveal_strlit("user");
        reveal_strlit("owner");
        reveal_strlit("Account");
        reveal_strlit("Server");
        reveal_strlit("Player");
        assert("event"@[0] == 'e' && "owner"@[0] == 'o');
        assert("Server"@[0] == 'S' && "Player"@[0] == 'P');
        assert("user"@.len() == 4 && "event"@.len() == 5 && "Account"@.len() == 7);
        assert("Server"@.len() == 6);
        assert(pairs =~= seq![
            ("event"@, json_from_str(record.event@)),
            ("user"@, json_from_bool(record.user)),
            ("owner"@, json_from_bool(record.owner)),
            ("Account"@, account_document(record.account@)),
            ("Server"@, server_document(record.server@)),
            ("Player"@, player_document(record.player@)),
        ]);
        lemma_last_under(pairs, 0);
        lemma_last_under(pairs, 1);
        lemma_last_under(pairs, 2);
        lemma_last_under(pairs, 3);
        lemma_last_under(pairs, 4);
        lemma_last_under(pairs, 5);
    }
    doc
}

/// The record that the bytes of a sent event hold: they are a JSON document,
/// and that document holds a record.
pub open spec fn decoded(bytes: Seq<u8>) -> Option<PayloadView> {
    match json_parse(bytes) {
        Some(doc) => record_in(doc),
        None => None,
    }
}

/// Decodes the bytes of a sent event: a record where they are a JSON document
/// that holds every field, nothing otherwise.
pub fn decode_payload(bytes: &[u8]) -> (record: Option<Payload>)
    ensures
        viewed(record) == decoded(bytes@),
{
    match parse(bytes) {
        Some(doc) => payload_from_json(&doc),
        None => None,
    }
}

/// Writes `record` as the JSON text that a command receives on its standard
/// input: the text that `serde_json` writes for `payload_document`.
pub fn encode(record: &Payload) -> (text: Vec<u8>)
    ensures
        text@ == json_bytes(payload_document(record@)),
{
    let doc = payload_to_json(record);
    to_bytes(&doc).unwrap()
}

} // verus!
