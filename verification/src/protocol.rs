use vstd::prelude::*;

verus! {

/// Maximum players the server will accept.
pub const MAX_PLAYERS: usize = 16;

/// Server tick rate in Hz (how many times per second the server broadcasts world state).
pub const SERVER_TICK_RATE: u64 = 20;

/// Default server port.
pub const DEFAULT_PORT: u16 = 7878;

/// Magic bytes prepended to every packet for basic validation ("RPGE").
pub const PROTOCOL_MAGIC: [u8; 4] = [0x52, 0x50, 0x47, 0x45];

/// Protocol version: clients and server must match.
pub const PROTOCOL_VERSION: u8 = 3;

/// Maximum characters per account.
pub const MAX_CHARACTERS_PER_ACCOUNT: usize = 5;

/// Bytes before the payload: magic (4), version (1), type (1), length (4).
pub const HEADER_LEN: usize = 10;

/// Unique identity of a connected player.
pub type PlayerId = u64;

/// Summary of a character for the select screen.
#[derive(Debug, Clone)]
pub struct CharacterSummaryNet {
    pub id: i32,
    pub name: String,
    pub appearance: CharacterAppearanceNet,
    pub current_hp: i32,
    pub max_hp: i32,
    pub current_mp: i32,
    pub max_mp: i32,
}

/// Network-friendly character appearance: the skin and the optional layers.
#[derive(Debug, Clone)]
pub struct CharacterAppearanceNet {
    pub skin: String,
    pub shoes: Option<String>,
    pub clothes: Option<String>,
    pub gloves: Option<String>,
    pub hairstyle: Option<String>,
    pub facial_hair: Option<String>,
    pub eye_color: Option<String>,
    pub eyelashes: Option<String>,
    pub headgear: Option<String>,
    pub addon: Option<String>,
}

/// Who sent a packet.
#[derive(Clone, Copy, Debug, PartialEq, Eq, Structural)]
pub enum PacketKind {
    Client,
    Server,
}

/// The type byte written for each kind of packet.
pub open spec fn kind_byte(kind: PacketKind) -> u8 {
    match kind {
        PacketKind::Client => 0x01,
        PacketKind::Server => 0x02,
    }
}

pub open spec fn magic() -> Seq<u8> {
    seq![0x52u8, 0x50u8, 0x47u8, 0x45u8]
}

/// The four little-endian bytes of `n`.
pub open spec fn le32(n: u32) -> Seq<u8> {
    seq![(n % 256) as u8, ((n / 256) % 256) as u8, ((n / 65536) % 256) as u8, ((n / 16777216) % 256) as u8]
}

/// The number whose little-endian bytes are the first four of `b`.
pub open spec fn le32_value(b: Seq<u8>) -> int {
    b[0] + 256 * b[1] + 65536 * b[2] + 16777216 * b[3]
}

/// A packet: magic, version, type, the payload length as a little-endian
/// `u32` (taken modulo 2^32), then the payload.
pub open spec fn frame(kind: PacketKind, payload: Seq<u8>) -> Seq<u8> {
    magic() + seq![PROTOCOL_VERSION, kind_byte(kind)] + le32(payload.len() as u32) + payload
}

/// What a received packet holds: its kind and payload, or nothing when it
/// is too short, has the wrong magic or version, an unknown type, or
/// fewer payload bytes than its length field announces. Bytes after the
/// payload are ignored.
pub open spec fn parse(data: Seq<u8>) -> Option<(PacketKind, Seq<u8>)> {
    if data.len() < 10 || data.subrange(0, 4) != magic() || data[4] != PROTOCOL_VERSION {
        None
    } else {
        let len = le32_value(data.subrange(6, 10));
        if data.len() < 10 + len {
            None
        } else if data[5] == 0x01 {
            Some((PacketKind::Client, data.subrange(10, 10 + len)))
        } else if data[5] == 0x02 {
            Some((PacketKind::Server, data.subrange(10, 10 + len)))
        } else {
            None
        }
    }
}

fn push_le32(out: &mut Vec<u8>, n: u32)
    ensures
        final(out)@ == old(out)@ + le32(n),
{
    let b0 = (n % 256) as u8;
    let b1 = ((n / 256) % 256) as u8;
    let b2 = ((n / 65536) % 256) as u8;
    let b3 = ((n / 16777216) % 256) as u8;
    out.push(b0);
    out.push(b1);
    out.push(b2);
    out.push(b3);
    assert(final(out)@ =~= old(out)@ + le32(n));
}

fn read_le32(b0: u8, b1: u8, b2: u8, b3: u8) -> (n: u32)
    ensures
        n == b0 + 256 * b1 + 65536 * b2 + 16777216 * b3,
{
    b0 as u32 + 256 * (b1 as u32) + 65536 * (b2 as u32) + 16777216 * (b3 as u32)
}

/// Frames a payload for sending: magic, version, type byte, the payload
/// length as a little-endian `u32`, then the payload.
pub fn frame_packet(kind: PacketKind, payload: &[u8]) -> (packet: Vec<u8>)
    ensures
        packet@ == frame(kind, payload@),
{
    let mut packet: Vec<u8> = Vec::new();
    packet.push(PROTOCOL_MAGIC[0]);
    packet.push(PROTOCOL_MAGIC[1]);
    packet.push(PROTOCOL_MAGIC[2]);
    packet.push(PROTOCOL_MAGIC[3]);
    packet.push(PROTOCOL_VERSION);
    let type_byte: u8 = match kind {
        PacketKind::Client => 0x01,
        PacketKind::Server => 0x02,
    };
    packet.push(type_byte);
    let len = #[verifier::truncate] (payload.len() as u32);
    push_le32(&mut packet, len);
    let ghost head = packet@;
    assert(head =~= magic() + seq![PROTOCOL_VERSION, kind_byte(kind)] + le32(payload@.len() as u32));
    let mut i: usize = 0;
    while i < payload.len()
        invariant
            i <= payload.len(),
            packet@ == head + payload@.subrange(0, i as int),
        decreases payload.len() - i,
    {
        packet.push(payload[i]);
        i = i + 1;
        assert(packet@ =~= head + payload@.subrange(0, i as int));
    }
    assert(payload@.subrange(0, payload.len() as int) =~= payload@);
    packet
}

/// Reads a received packet: its kind and payload when it is well formed
/// (see [`parse`]).
pub fn parse_packet(data: &[u8]) -> (r: Option<(PacketKind, Vec<u8>)>)
    ensures
        match r {
            Some((k, p)) => parse(data@) == Some((k, p@)),
            None => parse(data@) is None,
        },
{
    if data.len() < HEADER_LEN {
        return None;
    }
    let magic_ok = data[0] == PROTOCOL_MAGIC[0] && data[1] == PROTOCOL_MAGIC[1] && data[2]
        == PROTOCOL_MAGIC[2] && data[3] == PROTOCOL_MAGIC[3];
    assert(magic_ok == (data@.subrange(0, 4) == magic())) by {
        if magic_ok {
            assert(data@.subrange(0, 4) =~= magic());
        } else {
            if data@.subrange(0, 4) == magic() {
                assert(data@.subrange(0, 4)[0] == data@[0]);
                assert(data@.subrange(0, 4)[1] == data@[1]);
                assert(data@.subrange(0, 4)[2] == data@[2]);
                assert(data@.subrange(0, 4)[3] == data@[3]);
            }
        }
    }
    if !magic_ok {
        return None;
    }
    if data[4] != PROTOCOL_VERSION {
        return None;
    }
    let msg_type = data[5];
    let len = read_le32(data[6], data[7], data[8], data[9]);
    assert(len == le32_value(data@.subrange(6, 10)));
    if ((data.len() - HEADER_LEN) as u64) < len as u64 {
        return None;
    }
    let kind = if msg_type == 0x01 {
        PacketKind::Client
    } else if msg_type == 0x02 {
        PacketKind::Server
    } else {
        return None;
    };
    let end = HEADER_LEN + len as usize;
    let mut payload: Vec<u8> = Vec::new();
    let mut i: usize = HEADER_LEN;
    while i < end
        invariant
            HEADER_LEN <= i <= end,
            end <= data.len(),
            payload@ == data@.subrange(HEADER_LEN as int, i as int),
        decreases end - i,
    {
        payload.push(data[i]);
        i = i + 1;
        assert(payload@ =~= data@.subrange(HEADER_LEN as int, i as int));
    }
    Some((kind, payload))
}

/// Parsing a framed payload gives back its kind and payload, whatever
/// bytes follow the packet, as long as the length fits in the `u32`
/// length field.
pub proof fn lemma_parse_frame(kind: PacketKind, payload: Seq<u8>, trailing: Seq<u8>)
    requires
        payload.len() <= u32::MAX,
    ensures
        frame(kind, payload).len() == 10 + payload.len(),
        parse(frame(kind, payload) + trailing) == Some((kind, payload)),
{
    let data = frame(kind, payload) + trailing;
    let n = payload.len() as u32;
    assert(data.subrange(0, 4) =~= magic());
    assert(data.subrange(6, 10) =~= le32(n));
    let b = le32(n);
    assert(le32_value(b) == n as int) by (nonlinear_arith)
        requires
            b[0] == n % 256,
            b[1] == (n / 256) % 256,
            b[2] == (n / 65536) % 256,
            b[3] == (n / 16777216) % 256,
            0 <= n < 0x1_0000_0000,
    ;
    assert(data.subrange(10, 10 + payload.len() as int) =~= payload);
}

/// A packet that parses is the frame of what it parses to, followed by
/// whatever came after it.
pub proof fn lemma_parse_is_frame(data: Seq<u8>)
    requires
        parse(data) is Some,
    ensures
        ({
            let (kind, payload) = parse(data).unwrap();
            data == frame(kind, payload) + data.subrange(10 + payload.len() as int, data.len() as int)
        }),
{
    let (kind, payload) = parse(data).unwrap();
    let len = le32_value(data.subrange(6, 10));
    let n = payload.len() as u32;
    let b = data.subrange(6, 10);
    assert(b[0] + 256 * b[1] + 65536 * b[2] + 16777216 * b[3] == n as int);
    assert(b[0] == n % 256 && b[1] == (n / 256) % 256 && b[2] == (n / 65536) % 256 && b[3] == (n
        / 16777216) % 256) by (nonlinear_arith)
        requires
            b[0] + 256 * b[1] + 65536 * b[2] + 16777216 * b[3] == n as int,
            0 <= b[0] < 256,
            0 <= b[1] < 256,
            0 <= b[2] < 256,
            0 <= b[3] < 256,
    ;
    assert(data =~= frame(kind, payload) + data.subrange(10 + payload.len() as int, data.len() as int));
}

/// The view of a list of `(model, file)` pairs.
pub open spec fn pairs_view(v: Seq<(String, String)>) -> Seq<(Seq<char>, Seq<char>)> {
    v.map_values(|e: (String, String)| (e.0@, e.1@))
}

/// Some entry of `p` names model `m`.
pub open spec fn has_model(p: Seq<(Seq<char>, Seq<char>)>, m: Seq<char>) -> bool {
    exists|j: int| 0 <= j < p.len() && (#[trigger] p[j]).0 == m
}

/// The palette of a chunk: each model once, with the file of its first
/// placement, in the order of first appearance.
pub open spec fn palette_of(ms: Seq<(Seq<char>, Seq<char>)>) -> Seq<(Seq<char>, Seq<char>)>
    decreases ms.len(),
{
    if ms.len() == 0 {
        seq![]
    } else {
        let p = palette_of(ms.drop_last());
        if has_model(p, ms.last().0) {
            p
        } else {
            p.push(ms.last())
        }
    }
}

/// No model occurs twice in the palette.
pub open spec fn distinct_models(p: Seq<(Seq<char>, Seq<char>)>) -> bool {
    forall|a: int, b: int| 0 <= a < p.len() && 0 <= b < p.len() && a != b ==> (#[trigger] p[a]).0 != (#[trigger] p[b]).0
}

fn find_model(palette: &Vec<(String, String)>, model: &String) -> (r: Option<usize>)
    ensures
        match r {
            Some(j) => j < palette.len() && pairs_view(palette@)[j as int].0 == model@,
            None => !has_model(pairs_view(palette@), model@),
        },
{
    let mut j: usize = 0;
    while j < palette.len()
        invariant
            j <= palette.len(),
            forall|k: int| 0 <= k < j ==> (#[trigger] pairs_view(palette@)[k]).0 != model@,
        decreases palette.len() - j,
    {
        if palette[j].0 == *model {
            return Some(j);
        }
        j = j + 1;
    }
    None
}

/// The model palette of a chunk and, for each placement, the index of its
/// model in the palette.
pub fn chunk_palette(entries: &Vec<(String, String)>) -> (r: (Vec<(String, String)>, Vec<u16>))
    requires
        entries.len() <= 65536,
    ensures
        pairs_view(r.0@) == palette_of(pairs_view(entries@)),
        distinct_models(pairs_view(r.0@)),
        r.1.len() == entries.len(),
        forall|i: int|
            0 <= i < entries.len() ==> (#[trigger] r.1[i]) < r.0.len() && pairs_view(r.0@)[r.1[i] as int].0
                == pairs_view(entries@)[i].0,
{
    let ghost ms = pairs_view(entries@);
    let mut palette: Vec<(String, String)> = Vec::new();
    let mut indices: Vec<u16> = Vec::new();
    let mut i: usize = 0;
    assert(ms.take(0) =~= seq![]);
    assert(pairs_view(palette@) =~= seq![]);
    while i < entries.len()
        invariant
            ms == pairs_view(entries@),
            entries.len() <= 65536,
            i <= entries.len(),
            palette.len() <= i,
            pairs_view(palette@) == palette_of(ms.take(i as int)),
            distinct_models(pairs_view(palette@)),
            indices.len() == i,
            forall|k: int|
                0 <= k < i ==> (#[trigger] indices[k]) < palette.len() && pairs_view(palette@)[indices[k] as int].0
                    == ms[k].0,
        decreases entries.len() - i,
    {
        assert(ms.take(i + 1).drop_last() =~= ms.take(i as int));
        assert(ms.take(i + 1).last() == ms[i as int]);
        let model = &entries[i].0;
        assert(model@ == ms[i as int].0);
        match find_model(&palette, model) {
            Some(j) => {
                indices.push(j as u16);
            },
            None => {
                let idx = palette.len() as u16;
                let ghost old_pal = pairs_view(palette@);
                palette.push((entries[i].0.clone(), entries[i].1.clone()));
                assert(pairs_view(palette@) =~= old_pal.push(ms[i as int]));
                indices.push(idx);
            },
        }
        i = i + 1;
    }
    assert(ms.take(entries.len() as int) =~= ms);
    (palette, indices)
}

} // verus!
