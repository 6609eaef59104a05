//! The client side of the connection to the server: the greeting it sends,
//! the directives it looks for in what the server sends, and what it does
//! on each connection event.
use vstd::prelude::*;
use vstd::string::StringSliceAdditionalSpecFns;

verus! {

/// `needle` occurs in `hay` starting at `i`.
pub open spec fn occurs_at(hay: Seq<u8>, needle: Seq<u8>, i: int) -> bool {
    &&& 0 <= i
    &&& i + needle.len() <= hay.len()
    &&& hay.subrange(i, i + needle.len()) == needle
}

/// `needle` occurs somewhere in `hay`.
pub open spec fn contains_bytes(hay: Seq<u8>, needle: Seq<u8>) -> bool {
    exists|i: int| occurs_at(hay, needle, i)
}

/// Whether `needle` occurs in `hay`.
pub fn find_bytes(hay: &[u8], needle: &[u8]) -> (r: bool)
    ensures
        r == contains_bytes(hay@, needle@),
{
    let n = hay.len();
    let m = needle.len();
    if m > n {
        assert forall|i: int| !occurs_at(hay@, needle@, i) by {}
        return false;
    }
    let mut i: usize = 0;
    while i <= n - m
        invariant
            n == hay@.len(),
            m == needle@.len(),
            m <= n,
            i <= n - m + 1,
            forall|k: int| 0 <= k < i ==> !occurs_at(hay@, needle@, k),
        decreases n - m + 1 - i,
    {
        let mut j: usize = 0;
        let mut same = true;
        while j < m
            invariant_except_break
                same,
            invariant
                n == hay@.len(),
                m == needle@.len(),
                i + m <= n,
                j <= m,
                forall|jj: int| 0 <= jj < j ==> hay@[i + jj] == needle@[jj],
            ensures
                same == (forall|jj: int| 0 <= jj < m ==> hay@[i + jj] == needle@[jj]),
            decreases m - j,
        {
            if hay[i + j] != needle[j] {
                same = false;
                assert(!(forall|jj: int| 0 <= jj < m ==> hay@[i + jj] == needle@[jj]));
                break;
            }
            j += 1;
        }
        if same {
            assert(hay@.subrange(i as int, i + m) =~= needle@);
            assert(occurs_at(hay@, needle@, i as int));
            return true;
        }
        assert(!occurs_at(hay@, needle@, i as int)) by {
            if occurs_at(hay@, needle@, i as int) {
                assert forall|jj: int| 0 <= jj < m implies hay@[i + jj] == needle@[jj] by {
                    assert(hay@.subrange(i as int, i + m)[jj] == hay@[i + jj]);
                }
            }
        }
        i += 1;
    }
    assert forall|k: int| !occurs_at(hay@, needle@, k) by {
        if 0 <= k && k + m <= n {
            assert(k < i);
        }
    }
    false
}

/// The greeting the client sends as soon as it is connected.
pub open spec fn hello_text() -> Seq<char> {
    "{\"type\":\"hello\",\"data\":{\"client\":\"RebornMP\"}}\n"@
}

/// The greeting, as the UTF-8 bytes that go on the wire.
pub fn hello_message() -> (r: Vec<u8>)
    ensures
        r@ == vstd::utf8::encode_utf8(hello_text()),
{
    let text: &str = "{\"type\":\"hello\",\"data\":{\"client\":\"RebornMP\"}}\n";
    let bytes = text.as_bytes();
    vstd::slice::slice_to_vec(bytes)
}

/// The keys the client looks for in a message from the server.
pub open spec fn free_mode_key() -> Seq<char> {
    "\"freeMode\""@
}

pub open spec fn spawn_key() -> Seq<char> {
    "\"spawn\""@
}

pub open spec fn disable_story_key() -> Seq<char> {
    "\"disableStory\""@
}

/// The directives found in one message from the server.
pub struct ServerDirectives {
    /// Switch the game to free mode.
    pub free_mode: bool,
    /// Move the player to the spawn point.
    pub spawn: bool,
    /// Turn the story missions off.
    pub disable_story: bool,
}

/// The bytes of a short ASCII text, one per character.
proof fn lemma_ascii_bytes(chars: Seq<char>, bytes: Seq<u8>)
    requires
        chars.len() == bytes.len(),
        forall|i: int|
            #![trigger chars[i]]
            0 <= i < chars.len() ==> chars[i] as u8 == bytes[i] && '\0' <= chars[i] <= '\u{7f}',
    ensures
        vstd::utf8::encode_utf8(chars) == bytes,
{
    assert forall|i: int| 0 <= i < chars.len() implies '\0' <= #[trigger] chars[i] <= '\u{7f}' by {}
    assert(vstd::utf8::is_ascii_chars(chars));
    vstd::utf8::is_ascii_chars_encode_utf8(chars);
    assert(vstd::utf8::encode_utf8(chars) =~= bytes);
}

/// On the wire the directive keys are these bytes, quotes included:
/// `"freeMode"`, `"spawn"` and `"disableStory"`.
pub proof fn lemma_directive_key_bytes()
    ensures
        vstd::utf8::encode_utf8(free_mode_key()) == seq![0x22u8, 0x66, 0x72, 0x65, 0x65, 0x4D, 0x6F, 0x64, 0x65, 0x22],
        vstd::utf8::encode_utf8(spawn_key()) == seq![0x22u8, 0x73, 0x70, 0x61, 0x77, 0x6E, 0x22],
        vstd::utf8::encode_utf8(disable_story_key()) == seq![
            0x22u8, 0x64, 0x69, 0x73, 0x61, 0x62, 0x6C, 0x65, 0x53, 0x74, 0x6F, 0x72, 0x79, 0x22,
        ],
{
    reveal_strlit("\"freeMode\"");
    reveal_strlit("\"spawn\"");
    reveal_strlit("\"disableStory\"");
    lemma_ascii_bytes(free_mode_key(), seq![0x22u8, 0x66, 0x72, 0x65, 0x65, 0x4D, 0x6F, 0x64, 0x65, 0x22]);
    lemma_ascii_bytes(spawn_key(), seq![0x22u8, 0x73, 0x70, 0x61, 0x77, 0x6E, 0x22]);
    lemma_ascii_bytes(
        disable_story_key(),
        seq![0x22u8, 0x64, 0x69, 0x73, 0x61, 0x62, 0x6C, 0x65, 0x53, 0x74, 0x6F, 0x72, 0x79, 0x22],
    );
}

/// Looks for each directive key, quotes included, in the bytes received.
pub fn handle_server_message(msg: &[u8]) -> (r: ServerDirectives)
    ensures
        r.free_mode == contains_bytes(msg@, vstd::utf8::encode_utf8(free_mode_key())),
        r.spawn == contains_bytes(msg@, vstd::utf8::encode_utf8(spawn_key())),
        r.disable_story == contains_bytes(msg@, vstd::utf8::encode_utf8(disable_story_key())),
        r.free_mode == contains_bytes(msg@, seq![0x22u8, 0x66, 0x72, 0x65, 0x65, 0x4D, 0x6F, 0x64, 0x65, 0x22]),
        r.spawn == contains_bytes(msg@, seq![0x22u8, 0x73, 0x70, 0x61, 0x77, 0x6E, 0x22]),
        r.disable_story == contains_bytes(
            msg@,
            seq![0x22u8, 0x64, 0x69, 0x73, 0x61, 0x62, 0x6C, 0x65, 0x53, 0x74, 0x6F, 0x72, 0x79, 0x22],
        ),
{
    proof {
        lemma_directive_key_bytes();
    }
    let free_mode = find_bytes(msg, "\"freeMode\"".as_bytes());
    let spawn = find_bytes(msg, "\"spawn\"".as_bytes());
    let disable_story = find_bytes(msg, "\"disableStory\"".as_bytes());
    ServerDirectives { free_mode, spawn, disable_story }
}

/// What happened to the connection.
pub enum LinkEvent {
    /// The connection to the server was made.
    Connected,
    /// The connection attempt failed.
    ConnectFailed,
    /// A read returned this many bytes.
    Received(usize),
    /// A read failed.
    ReadFailed,
}

/// What the client does next.
pub enum LinkAction {
    /// Send the greeting, then read.
    SendHello,
    /// Handle the bytes just read, then read again.
    HandleMessage,
    /// Drop the connection and connect again at once.
    Reconnect,
    /// Wait this many seconds, then try to connect again.
    RetryAfter(u64),
}

/// Seconds between two failed connection attempts.
pub const RETRY_SECONDS: u64 = 5;

/// The client's answer to each connection event: greet after connecting,
/// handle what arrives, reconnect at once when the server closes the
/// connection or a read fails, and wait before retrying a failed connect.
pub fn next_link_action(event: LinkEvent) -> (r: LinkAction)
    ensures
        match event {
            LinkEvent::Connected => r == LinkAction::SendHello,
            LinkEvent::ConnectFailed => r == LinkAction::RetryAfter(RETRY_SECONDS),
            LinkEvent::Received(n) => if n == 0 {
                r == LinkAction::Reconnect
            } else {
                r == LinkAction::HandleMessage
            },
            LinkEvent::ReadFailed => r == LinkAction::Reconnect,
        },
{
    match event {
        LinkEvent::Connected => LinkAction::SendHello,
        LinkEvent::ConnectFailed => LinkAction::RetryAfter(RETRY_SECONDS),
        LinkEvent::Received(n) => if n == 0 {
            LinkAction::Reconnect
        } else {
            LinkAction::HandleMessage
        },
        LinkEvent::ReadFailed => LinkAction::Reconnect,
    }
}

} // verus!
