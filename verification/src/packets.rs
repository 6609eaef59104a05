//! The binary protocol between the game client and the server core: packet
//! type codes, the handshake the server sends, what it reads from a client,
//! and the player numbers it hands out.
use vstd::prelude::*;
use vstd::utf8::valid_utf8;
use vstd::string::StringSliceAdditionalSpecFns;
use crate::memscan::le_u32;

verus! {

/// The kinds of packet.
#[derive(PartialEq, Eq, Structural, Clone, Copy, Debug)]
pub enum PacketType {
    Handshake,
    Position,
    Chat,
    Disconnect,
}

pub open spec fn spec_packet_code(t: PacketType) -> u8 {
    match t {
        PacketType::Handshake => 0x01,
        PacketType::Position => 0x02,
        PacketType::Chat => 0x03,
        PacketType::Disconnect => 0xFF,
    }
}

impl PacketType {
    /// The byte that starts a packet of this type.
    pub fn code(&self) -> (r: u8)
        ensures
            r == spec_packet_code(*self),
            *self == PacketType::Handshake ==> r == 0x01,
            *self == PacketType::Position ==> r == 0x02,
            *self == PacketType::Chat ==> r == 0x03,
            *self == PacketType::Disconnect ==> r == 0xFF,
    {
        match self {
            PacketType::Handshake => 0x01,
            PacketType::Position => 0x02,
            PacketType::Chat => 0x03,
            PacketType::Disconnect => 0xFF,
        }
    }

    /// The type that `code` starts, if any.
    pub fn from_code(code: u8) -> (r: Option<PacketType>)
        ensures
            r matches Some(t) ==> spec_packet_code(t) == code,
            r is None ==> forall|t: PacketType| spec_packet_code(t) != code,
            code == 0x01 ==> r == Some(PacketType::Handshake),
            code == 0x02 ==> r == Some(PacketType::Position),
            code == 0x03 ==> r == Some(PacketType::Chat),
            code == 0xFF ==> r == Some(PacketType::Disconnect),
            code != 0x01 && code != 0x02 && code != 0x03 && code != 0xFF ==> r is None,
    {
        if code == 0x01 {
            Some(PacketType::Handshake)
        } else if code == 0x02 {
            Some(PacketType::Position)
        } else if code == 0x03 {
            Some(PacketType::Chat)
        } else if code == 0xFF {
            Some(PacketType::Disconnect)
        } else {
            None
        }
    }
}

/// Each packet type's code is the first byte `parse_client_message` reads
/// it by: a packet that starts with the handshake code is read as a
/// handshake, the position code as a position, the chat code as a chat; the
/// disconnect code is one the reader does not handle.
pub proof fn lemma_codes_are_wire_values()
    ensures
        spec_packet_code(PacketType::Handshake) == 0x01,
        spec_packet_code(PacketType::Position) == 0x02,
        spec_packet_code(PacketType::Chat) == 0x03,
        spec_packet_code(PacketType::Disconnect) == 0xFF,
        spec_handshake_packet(0)[0] == spec_packet_code(PacketType::Handshake),
{
}

/// Each packet type has its own code, and the code gives the type back.
pub proof fn lemma_packet_code_roundtrip(t: PacketType, u: PacketType)
    ensures
        spec_packet_code(t) == spec_packet_code(u) ==> t == u,
{
}

/// The little-endian bytes of a 32-bit number.
pub open spec fn le_bytes(v: u32) -> Seq<u8> {
    seq![(v % 0x100) as u8, (v / 0x100 % 0x100) as u8, (v / 0x10000 % 0x100) as u8, (v / 0x1000000) as u8]
}

/// The handshake sent to a client that just connected: the handshake code
/// and the player's number, little-endian.
pub open spec fn spec_handshake_packet(player_id: u32) -> Seq<u8> {
    seq![0x01u8] + le_bytes(player_id)
}

pub fn handshake_packet(player_id: u32) -> (r: Vec<u8>)
    ensures
        r@ == spec_handshake_packet(player_id),
{
    let mut r: Vec<u8> = Vec::new();
    r.push(PacketType::Handshake.code());
    r.push((player_id % 0x100) as u8);
    r.push((player_id / 0x100 % 0x100) as u8);
    r.push((player_id / 0x10000 % 0x100) as u8);
    r.push((player_id / 0x1000000) as u8);
    assert(r@ =~= spec_handshake_packet(player_id));
    r
}

/// Reading the number back from a handshake gives the number sent.
pub proof fn lemma_handshake_roundtrip(player_id: u32)
    ensures
        spec_handshake_packet(player_id).len() == 5,
        spec_handshake_packet(player_id)[0] == spec_packet_code(PacketType::Handshake),
        le_u32(
            spec_handshake_packet(player_id)[1],
            spec_handshake_packet(player_id)[2],
            spec_handshake_packet(player_id)[3],
            spec_handshake_packet(player_id)[4],
        ) == player_id,
{
    let p = spec_handshake_packet(player_id);
    let v = player_id as int;
    assert(p[1] == v % 0x100);
    assert(p[2] == v / 0x100 % 0x100);
    assert(p[3] == v / 0x10000 % 0x100);
    assert(p[4] == v / 0x1000000);
    assert(v % 0x100 + (v / 0x100 % 0x100) * 0x100 + (v / 0x10000 % 0x100) * 0x10000 + (v / 0x1000000)
        * 0x1000000 == v) by (nonlinear_arith)
        requires
            0 <= v < 0x100000000,
    ;
}

/// Calls `std::str::from_utf8`, which
/// succeeds exactly on valid UTF-8 (std documentation: "Returns Err if the
/// slice is not UTF-8"), and the text it returns is made of exactly the
/// given bytes.
#[verifier::external_body]
fn utf8_str(bytes: &[u8]) -> (r: Option<&str>)
    ensures
        r is Some <==> valid_utf8(bytes@),
        r matches Some(s) ==> s.spec_bytes() == bytes@,
{
    std::str::from_utf8(bytes).ok()
}

/// What the server makes of the bytes of one read from a client.
pub enum ClientMessage {
    /// Nothing was read: the client has gone.
    Disconnected,
    /// A handshake packet.
    Handshake,
    /// A position packet; `x_bits` and `y_bits` are the bits of the two
    /// 32-bit floats at bytes 5..9 and 9..13.
    Position { x_bits: u32, y_bits: u32 },
    /// A position packet shorter than 13 bytes.
    ShortPosition,
    /// A chat packet whose text is valid UTF-8.
    Chat(String),
    /// A chat packet whose text is not valid UTF-8.
    InvalidChat,
    /// A packet of a type the server does not handle.
    Unknown(u8),
}

/// The bytes after the first one of a read.
pub open spec fn payload(read: Seq<u8>) -> Seq<u8> {
    read.subrange(1, read.len() as int)
}

/// Decodes the bytes of one read from a client.
pub fn parse_client_message(read: &[u8]) -> (r: ClientMessage)
    ensures
        read@.len() == 0 <==> r is Disconnected,
        read@.len() > 0 ==> match r {
            ClientMessage::Disconnected => false,
            ClientMessage::Handshake => read@[0] == 0x01,
            ClientMessage::Position { x_bits, y_bits } => read@[0] == 0x02 && read@.len() >= 13
                && x_bits == le_u32(read@[5], read@[6], read@[7], read@[8])
                && y_bits == le_u32(read@[9], read@[10], read@[11], read@[12]),
            ClientMessage::ShortPosition => read@[0] == 0x02 && read@.len() < 13,
            ClientMessage::Chat(text) => read@[0] == 0x03 && valid_utf8(payload(read@))
                && text@ == vstd::utf8::decode_utf8(payload(read@)),
            ClientMessage::InvalidChat => read@[0] == 0x03 && !valid_utf8(payload(read@)),
            ClientMessage::Unknown(code) => code == read@[0] && code != 0x01 && code != 0x02
                && code != 0x03,
        },
{
    let n = read.len();
    if n == 0 {
        return ClientMessage::Disconnected;
    }
    let code = read[0];
    if code == 0x01 {
        ClientMessage::Handshake
    } else if code == 0x02 {
        if n >= 13 {
            let x_bits = read_le_u32(read, 5);
            let y_bits = read_le_u32(read, 9);
            ClientMessage::Position { x_bits, y_bits }
        } else {
            ClientMessage::ShortPosition
        }
    } else if code == 0x03 {
        let body = &read[1..n];
        assert(body@ == payload(read@));
        match utf8_str(body) {
            Some(s) => {
                let text = s.to_owned();
                proof {
                    vstd::utf8::encode_utf8_decode_utf8(s@);
                }
                ClientMessage::Chat(text)
            },
            None => ClientMessage::InvalidChat,
        }
    } else {
        ClientMessage::Unknown(code)
    }
}

/// The 32-bit number stored little-endian at `at`.
pub fn read_le_u32(bytes: &[u8], at: usize) -> (r: u32)
    requires
        at + 4 <= bytes@.len(),
    ensures
        r == le_u32(bytes@[at as int], bytes@[at + 1], bytes@[at + 2], bytes@[at + 3]),
{
    bytes[at] as u32 + bytes[at + 1] as u32 * 0x100 + bytes[at + 2] as u32 * 0x10000 + bytes[at + 3] as u32
        * 0x1000000
}

/// The player numbers the server hands out: 1, 2, 3, ... in order of
/// connection.
pub struct PlayerIds {
    next: u32,
}

impl View for PlayerIds {
    type V = u32;

    closed spec fn view(&self) -> u32 {
        self.next
    }
}

impl PlayerIds {
    /// The first number handed out is 1.
    pub fn new() -> (r: Self)
        ensures
            r@ == 1,
    {
        PlayerIds { next: 1 }
    }

    /// Whether another number can be handed out.
    pub fn can_assign(&self) -> (r: bool)
        ensures
            r == (self@ < u32::MAX),
    {
        self.next < u32::MAX
    }

    /// Hands out the next number.
    pub fn assign(&mut self) -> (id: u32)
        requires
            old(self)@ < u32::MAX,
        ensures
            id == old(self)@,
            final(self)@ == old(self)@ + 1,
    {
        let id = self.next;
        self.next = self.next + 1;
        id
    }
}

/// `assign` called `ids.len()` times in a row on one `PlayerIds`, whose
/// view is `states[i]` before call `i` and `states[ids.len()]` after the
/// last: call `i` gets `states[0] + i`, the counter ends at
/// `states[0] + ids.len()`, and no two calls get the same number.
pub proof fn lemma_ids_distinct(states: Seq<u32>, ids: Seq<u32>)
    requires
        states.len() == ids.len() + 1,
        forall|i: int|
            0 <= i < ids.len() ==> #[trigger] ids[i] == states[i] && states[i + 1] == states[i] + 1,
    ensures
        forall|i: int| 0 <= i < ids.len() ==> #[trigger] ids[i] == states[0] + i,
        states[ids.len() as int] == states[0] + ids.len(),
        forall|i: int, j: int| 0 <= i < j < ids.len() ==> #[trigger] ids[i] != #[trigger] ids[j],
    decreases ids.len(),
{
    if ids.len() > 0 {
        let n = ids.len() - 1;
        lemma_ids_distinct(states.subrange(0, n + 1), ids.subrange(0, n));
        assert forall|i: int| 0 <= i < n implies #[trigger] ids[i] == states[0] + i by {
            assert(ids.subrange(0, n)[i] == ids[i]);
        }
        assert(states.subrange(0, n + 1)[n] == states[n]);
        assert(ids[n] == states[n]);
    }
}

} // verus!
