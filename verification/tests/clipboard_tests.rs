use fileshare::api::v1::clipboard::clipboard_key;
use fileshare::api::v1::clipboard::clipboard_keys_query;
use fileshare::api::v1::clipboard::get_clipboard;
use fileshare::api::v1::clipboard::get_clipboard_keys;
use fileshare::api::v1::clipboard::push_command;
use fileshare::api::v1::clipboard::register_command;
use fileshare::api::v1::clipboard::store_clipboard;
use fileshare::api::v1::clipboard::ClipboardPayload;
use fileshare::api::v1::clipboard::RoomInfo;
use deadpool_redis::redis::Arg;
use deadpool_redis::redis::Cmd;

/// A stand-in for the key-value store that knows the four commands the
/// clipboard sends: lists are pushed at the head and read as a whole, the
/// registry is a table of fields and values.
struct Store {
    lists: Vec<(Vec<u8>, Vec<Vec<u8>>)>,
    registry: Vec<(Vec<u8>, Vec<(Vec<u8>, Vec<u8>)>)>,
}

fn words(cmd: &Cmd) -> Vec<Vec<u8>> {
    cmd.args_iter()
        .map(|arg| match arg {
            Arg::Simple(bytes) => bytes.to_vec(),
            _ => panic!("the clipboard sends no cursor"),
        })
        .collect()
}

fn text(bytes: &[u8]) -> String {
    String::from_utf8(bytes.to_vec()).expect("the store holds text")
}

impl Store {
    fn new() -> Store {
        Store { lists: Vec::new(), registry: Vec::new() }
    }

    fn send(&mut self, cmd: &Cmd) -> Vec<Vec<u8>> {
        let words = words(cmd);
        match (words[0].as_slice(), words.len()) {
            (b"LPUSH", 3) => {
                match self.lists.iter_mut().find(|(key, _)| *key == words[1]) {
                    Some((_, list)) => list.insert(0, words[2].clone()),
                    None => self.lists.push((words[1].clone(), vec![words[2].clone()])),
                }
                Vec::new()
            }
            (b"LRANGE", 4) => {
                assert_eq!(words[2], b"0".to_vec());
                assert_eq!(words[3], b"-1".to_vec());
                match self.lists.iter().find(|(key, _)| *key == words[1]) {
                    Some((_, list)) => list.clone(),
                    None => Vec::new(),
                }
            }
            (b"HSET", 4) => {
                if !self.registry.iter().any(|(key, _)| *key == words[1]) {
                    self.registry.push((words[1].clone(), Vec::new()));
                }
                let (_, table) = self
                    .registry
                    .iter_mut()
                    .find(|(key, _)| *key == words[1])
                    .expect("the table was just made");
                match table.iter_mut().find(|(field, _)| *field == words[2]) {
                    Some((_, value)) => *value = words[3].clone(),
                    None => table.push((words[2].clone(), words[3].clone())),
                }
                Vec::new()
            }
            (b"HGETALL", 2) => match self.registry.iter().find(|(key, _)| *key == words[1]) {
                Some((_, table)) => {
                    table.iter().flat_map(|(field, value)| [field.clone(), value.clone()]).collect()
                }
                None => Vec::new(),
            },
            _ => panic!("the clipboard does not send {:?}", text(&words[0])),
        }
    }

    fn store(&mut self, room_id: &str, payload: &ClipboardPayload) {
        let (push, register) = store_clipboard(payload, room_id);
        self.send(&push);
        self.send(&register);
    }

    fn get(&mut self, room_id: &str) -> Vec<String> {
        self.send(&get_clipboard(room_id)).iter().map(|entry| text(entry)).collect()
    }

    fn keys(&mut self) -> Vec<RoomInfo> {
        let reply = self.send(&clipboard_keys_query());
        let entries = reply.chunks(2).map(|pair| (text(&pair[0]), text(&pair[1]))).collect();
        get_clipboard_keys(entries)
    }
}

fn payload(content: &str, room_id: &str, room_name: &str) -> ClipboardPayload {
    ClipboardPayload {
        content: content.to_string(),
        room_id: room_id.to_string(),
        room_name: room_name.to_string(),
    }
}

#[test]
fn room_key_has_the_prefix_and_a_colon() {
    assert_eq!(clipboard_key("room1"), "clipboard::room1");
    assert_eq!(clipboard_key(""), "clipboard::");
    assert_eq!(clipboard_key("a:b"), "clipboard::a:b");
}

#[test]
fn push_command_is_lpush_on_the_room_key() {
    let cmd = push_command("room1", "x");
    assert_eq!(
        cmd.get_packed_command(),
        b"*3\r\n$5\r\nLPUSH\r\n$16\r\nclipboard::room1\r\n$1\r\nx\r\n".to_vec()
    );
}

#[test]
fn register_command_is_hset_on_the_registry() {
    let cmd = register_command("room1", "Room One");
    assert_eq!(
        cmd.get_packed_command(),
        b"*4\r\n$4\r\nHSET\r\n$14\r\nclipboard_keys\r\n$5\r\nroom1\r\n$8\r\nRoom One\r\n".to_vec()
    );
}

#[test]
fn clipboard_store_then_get_sends_lpush_hset_and_lrange() {
    let (push, register) = store_clipboard(&payload("x", "room1", "Room One"), "room1");
    assert_eq!(
        push.get_packed_command(),
        b"*3\r\n$5\r\nLPUSH\r\n$16\r\nclipboard::room1\r\n$1\r\nx\r\n".to_vec()
    );
    assert_eq!(
        register.get_packed_command(),
        b"*4\r\n$4\r\nHSET\r\n$14\r\nclipboard_keys\r\n$5\r\nroom1\r\n$8\r\nRoom One\r\n".to_vec()
    );
    let (push, _) = store_clipboard(&payload("y", "room1", "Room One"), "room1");
    assert_eq!(
        push.get_packed_command(),
        b"*3\r\n$5\r\nLPUSH\r\n$16\r\nclipboard::room1\r\n$1\r\ny\r\n".to_vec()
    );
    let read = get_clipboard("room1");
    assert_eq!(
        read.get_packed_command(),
        b"*4\r\n$6\r\nLRANGE\r\n$16\r\nclipboard::room1\r\n$1\r\n0\r\n$2\r\n-1\r\n".to_vec()
    );
}

#[test]
fn store_pushes_to_the_room_of_the_path_and_registers_the_room_of_the_payload() {
    let (push, register) = store_clipboard(&payload("text", "inner", "Inner"), "outer");
    assert_eq!(
        push.get_packed_command(),
        b"*3\r\n$5\r\nLPUSH\r\n$16\r\nclipboard::outer\r\n$4\r\ntext\r\n".to_vec()
    );
    assert_eq!(
        register.get_packed_command(),
        b"*4\r\n$4\r\nHSET\r\n$14\r\nclipboard_keys\r\n$5\r\ninner\r\n$5\r\nInner\r\n".to_vec()
    );
}

#[test]
fn command_words_are_sent_as_utf8_bytes() {
    let cmd = push_command("caf\u{e9}", "\u{2603}");
    let mut expected = b"*3\r\n$5\r\nLPUSH\r\n$16\r\nclipboard::caf".to_vec();
    expected.extend_from_slice("\u{e9}".as_bytes());
    expected.extend_from_slice(b"\r\n$3\r\n");
    expected.extend_from_slice("\u{2603}".as_bytes());
    expected.extend_from_slice(b"\r\n");
    assert_eq!(cmd.get_packed_command(), expected);
}

#[test]
fn get_command_is_what_the_integer_arguments_give() {
    let mut with_integers = deadpool_redis::redis::cmd("LRANGE");
    with_integers.arg("clipboard::r").arg(0).arg(-1);
    assert_eq!(get_clipboard("r").get_packed_command(), with_integers.get_packed_command());
}

#[test]
fn keys_query_is_hgetall_on_the_registry() {
    assert_eq!(
        clipboard_keys_query().get_packed_command(),
        b"*2\r\n$7\r\nHGETALL\r\n$14\r\nclipboard_keys\r\n".to_vec()
    );
}

#[test]
fn rooms_are_listed_in_the_order_of_the_entries() {
    let entries = vec![
        ("room1".to_string(), "Room One".to_string()),
        ("room2".to_string(), "Room Two".to_string()),
        ("".to_string(), String::new()),
    ];
    assert_eq!(
        get_clipboard_keys(entries),
        vec![
            RoomInfo { room_id: "room1".to_string(), room_name: "Room One".to_string() },
            RoomInfo { room_id: "room2".to_string(), room_name: "Room Two".to_string() },
            RoomInfo { room_id: String::new(), room_name: String::new() },
        ]
    );
}

#[test]
fn rooms_are_listed_with_their_ids_as_registered() {
    let entries = vec![
        ("clipboard:".to_string(), "Prefix".to_string()),
        ("clipboard:room2".to_string(), "Room Two".to_string()),
        ("a-clipboard:-b".to_string(), "Middle".to_string()),
        ("clipboard::room1".to_string(), "Key".to_string()),
    ];
    assert_eq!(
        get_clipboard_keys(entries),
        vec![
            RoomInfo { room_id: "clipboard:".to_string(), room_name: "Prefix".to_string() },
            RoomInfo { room_id: "clipboard:room2".to_string(), room_name: "Room Two".to_string() },
            RoomInfo { room_id: "a-clipboard:-b".to_string(), room_name: "Middle".to_string() },
            RoomInfo { room_id: "clipboard::room1".to_string(), room_name: "Key".to_string() },
        ]
    );
}

#[test]
fn empty_registry_lists_no_room() {
    assert_eq!(get_clipboard_keys(Vec::new()), Vec::<RoomInfo>::new());
}

#[test]
fn stored_texts_are_read_newest_first() {
    let mut store = Store::new();
    assert_eq!(store.get("room1"), Vec::<String>::new());
    store.store("room1", &payload("x", "room1", "Room One"));
    assert_eq!(store.get("room1"), vec!["x"]);
    store.store("room1", &payload("y", "room1", "Room One"));
    assert_eq!(store.get("room1"), vec!["y", "x"]);
    store.store("room1", &payload("x", "room1", "Room One"));
    assert_eq!(store.get("room1"), vec!["x", "y", "x"]);
}

#[test]
fn rooms_keep_their_texts_apart() {
    let mut store = Store::new();
    store.store("room1", &payload("one", "room1", "Room One"));
    store.store("room2", &payload("two", "room2", "Room Two"));
    store.store("room1", &payload("three", "room1", "Room One"));
    assert_eq!(store.get("room1"), vec!["three", "one"]);
    assert_eq!(store.get("room2"), vec!["two"]);
    assert_eq!(store.get("room3"), Vec::<String>::new());
}

#[test]
fn room_registered_under_the_prefix_keeps_its_id() {
    let mut store = Store::new();
    store.store("clipboard:", &payload("x", "clipboard:", "Odd"));
    assert_eq!(
        store.keys(),
        vec![RoomInfo { room_id: "clipboard:".to_string(), room_name: "Odd".to_string() }]
    );
    assert_eq!(store.get("clipboard:"), vec!["x"]);
}

#[test]
fn stored_rooms_are_registered_with_their_names() {
    let mut store = Store::new();
    assert_eq!(store.keys(), Vec::<RoomInfo>::new());
    store.store("room1", &payload("x", "room1", "Room One"));
    store.store("room2", &payload("y", "room2", "Room Two"));
    store.store("room1", &payload("z", "room1", "First Room"));
    assert_eq!(
        store.keys(),
        vec![
            RoomInfo { room_id: "room1".to_string(), room_name: "First Room".to_string() },
            RoomInfo { room_id: "room2".to_string(), room_name: "Room Two".to_string() },
        ]
    );
}
