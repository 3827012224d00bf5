//! The clipboard: short texts shared per room through the key-value store.
//!
//! A room's texts are a list in the store, pushed at the head so that the
//! newest comes first; the rooms' display names are a hash beside it. This
//! module says which commands are sent and how the replies are read. Sending
//! them is the caller's part.
//!
//! Nothing here bounds a room's list or lets it expire, and the same text
//! may be stored any number of times.

use vstd::prelude::*;
use vstd::string::StringExecFns;
use vstd::utf8::encode_utf8;

use deadpool_redis::redis::Cmd;

verus! {

/// `deadpool_redis::redis::Cmd`, a command for the store: its name and its
/// arguments, held as bytes.
#[verifier::external_type_specification]
#[verifier::external_body]
pub struct ExCmd(Cmd);

/// What a client sends to store a text.
#[derive(Debug, Clone, PartialEq, Eq)]
pub struct ClipboardPayload {
    pub content: String,
    pub room_id: String,
    pub room_name: String,
}

/// A room as the list of rooms shows it.
#[derive(Debug, Clone, PartialEq, Eq)]
pub struct RoomInfo {
    pub room_id: String,
    pub room_name: String,
}

/// What contracts see of [`RoomInfo`]: its content as mathematical values.
pub struct RoomInfoView {
    pub room_id: Seq<char>,
    pub room_name: Seq<char>,
}

impl View for RoomInfo {
    type V = RoomInfoView;

    open spec fn view(&self) -> RoomInfoView {
        RoomInfoView { room_id: self.room_id@, room_name: self.room_name@ }
    }
}

/// The hash that maps room ids to display names.
pub open spec fn registry_key() -> Seq<char> {
    "clipboard_keys"@
}

/// The prefix of the keys under which the rooms' lists are kept.
pub open spec fn key_prefix() -> Seq<char> {
    "clipboard:"@
}

/// The key of a room's list: the prefix, a colon, and the room id.
pub open spec fn room_key(room_id: Seq<char>) -> Seq<char> {
    key_prefix() + ":"@ + room_id
}

/// The words of a command, the command's name first, as the bytes that go
/// over the wire.
pub uninterp spec fn cmd_words(cmd: Cmd) -> Seq<Seq<u8>>;

/// The bytes of each of `words`.
pub open spec fn wire(words: Seq<Seq<char>>) -> Seq<Seq<u8>> {
    Seq::new(words.len(), |i: int| encode_utf8(words[i]))
}

/// Starts a command through `deadpool_redis::redis::cmd`: its only word so
/// far is the name.
#[verifier::external_body]
fn cmd_named(name: &str) -> (cmd: Cmd)
    ensures
        cmd_words(cmd) == seq![encode_utf8(name@)],
{
    deadpool_redis::redis::cmd(name)
}

/// Adds one argument through `deadpool_redis::redis::Cmd::arg`: a string is
/// written as its bytes and becomes the command's last word.
#[verifier::external_body]
fn cmd_push(cmd: &mut Cmd, word: &str)
    ensures
        cmd_words(*final(cmd)) == cmd_words(*old(cmd)).push(encode_utf8(word@)),
{
    cmd.arg(word);
}

/// The key of the list that holds the texts of room `room_id`.
pub fn clipboard_key(room_id: &str) -> (key: String)
    ensures
        key@ == room_key(room_id@),
{
    let mut key = String::from_str("clipboard:");
    key.append(":");
    key.append(room_id);
    key
}

/// The command that pushes `content` at the head of the list of the room
/// `room_id`.
pub fn push_command(room_id: &str, content: &str) -> (cmd: Cmd)
    ensures
        cmd_words(cmd) == wire(seq!["LPUSH"@, room_key(room_id@), content@]),
{
    let key = clipboard_key(room_id);
    let mut cmd = cmd_named("LPUSH");
    cmd_push(&mut cmd, key.as_str());
    cmd_push(&mut cmd, content);
    assert(cmd_words(cmd) =~= wire(seq!["LPUSH"@, room_key(room_id@), content@]));
    cmd
}

/// The command that registers the display name `room_name` for `room_id`.
pub fn register_command(room_id: &str, room_name: &str) -> (cmd: Cmd)
    ensures
        cmd_words(cmd) == wire(seq!["HSET"@, registry_key(), room_id@, room_name@]),
{
    let mut cmd = cmd_named("HSET");
    cmd_push(&mut cmd, "clipboard_keys");
    cmd_push(&mut cmd, room_id);
    cmd_push(&mut cmd, room_name);
    assert(cmd_words(cmd) =~= wire(seq!["HSET"@, registry_key(), room_id@, room_name@]));
    cmd
}

/// Storing a text: the two commands to send, in this order. The first pushes
/// the text at the head of the list of the room named in the request's path,
/// `room_id`; the second registers the display name under the room id that
/// the payload itself names.
pub fn store_clipboard(payload: &ClipboardPayload, room_id: &str) -> (cmds: (Cmd, Cmd))
    ensures
        cmd_words(cmds.0) == wire(seq!["LPUSH"@, room_key(room_id@), payload.content@]),
        cmd_words(cmds.1) == wire(
            seq!["HSET"@, registry_key(), payload.room_id@, payload.room_name@],
        ),
{
    let push = push_command(room_id, payload.content.as_str());
    let register = register_command(payload.room_id.as_str(), payload.room_name.as_str());
    (push, register)
}

/// Reading a room: the command that asks for the whole list of room
/// `room_id`, from its first entry (index 0) to its last (index -1). The
/// store answers newest first.
pub fn get_clipboard(room_id: &str) -> (cmd: Cmd)
    ensures
        cmd_words(cmd) == wire(seq!["LRANGE"@, room_key(room_id@), "0"@, "-1"@]),
{
    let key = clipboard_key(room_id);
    let mut cmd = cmd_named("LRANGE");
    cmd_push(&mut cmd, key.as_str());
    cmd_push(&mut cmd, "0");
    cmd_push(&mut cmd, "-1");
    assert(cmd_words(cmd) =~= wire(seq!["LRANGE"@, room_key(room_id@), "0"@, "-1"@]));
    cmd
}

/// Listing the rooms: the command that asks for the whole registry.
pub fn clipboard_keys_query() -> (cmd: Cmd)
    ensures
        cmd_words(cmd) == wire(seq!["HGETALL"@, registry_key()]),
{
    let mut cmd = cmd_named("HGETALL");
    cmd_push(&mut cmd, "clipboard_keys");
    assert(cmd_words(cmd) =~= wire(seq!["HGETALL"@, registry_key()]));
    cmd
}

/// A text is read from where it was stored: the command that reads room
/// `room_id` names the key that the command storing under the same room
/// pushes to, and that command's last word is the text itself.
pub proof fn lemma_get_reads_what_store_pushes_to(room_id: Seq<char>, content: Seq<char>)
    ensures
        wire(seq!["LPUSH"@, room_key(room_id), content])[1] == wire(
            seq!["LRANGE"@, room_key(room_id), "0"@, "-1"@],
        )[1],
        wire(seq!["LPUSH"@, room_key(room_id), content])[1] == encode_utf8(room_key(room_id)),
        wire(seq!["LPUSH"@, room_key(room_id), content])[2] == encode_utf8(content),
{
}

/// The room that one registry entry stands for: the field is the room id
/// as it was registered, the value is the display name.
pub open spec fn room_of(entry: (String, String)) -> RoomInfoView {
    RoomInfoView { room_id: entry.0@, room_name: entry.1@ }
}

/// Listing the rooms: the rooms that the registry's entries stand for, one
/// for each entry and no other, each with its id and its name as they were
/// registered, in the order in which the entries are given.
pub fn get_clipboard_keys(entries: Vec<(String, String)>) -> (rooms: Vec<RoomInfo>)
    ensures
        rooms@.len() == entries@.len(),
        forall|i: int| 0 <= i < entries@.len() ==> (#[trigger] rooms@[i])@ == room_of(entries@[i]),
{
    let ghost all = entries@;
    let mut rooms: Vec<RoomInfo> = Vec::new();
    for entry in it: entries.into_iter()
        invariant
            it.seq() == all,
            rooms@.len() == it.index(),
            forall|i: int| 0 <= i < it.index() ==> (#[trigger] rooms@[i])@ == room_of(all[i]),
    {
        let (field, value) = entry;
        rooms.push(RoomInfo { room_id: field, room_name: value });
    }
    rooms
}

} // verus!
