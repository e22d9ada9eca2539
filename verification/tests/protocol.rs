use rpg_engine::protocol::{
    chunk_palette, frame_packet, parse_packet, PacketKind, DEFAULT_PORT, MAX_CHARACTERS_PER_ACCOUNT,
    MAX_PLAYERS, PROTOCOL_MAGIC, PROTOCOL_VERSION, SERVER_TICK_RATE,
};

#[test]
fn protocol_constants() {
    assert_eq!(PROTOCOL_MAGIC, *b"RPGE");
    assert_eq!(PROTOCOL_VERSION, 3);
    assert_eq!(MAX_PLAYERS, 16);
    assert_eq!(DEFAULT_PORT, 7878);
    assert_eq!(SERVER_TICK_RATE, 20);
    assert_eq!(MAX_CHARACTERS_PER_ACCOUNT, 5);
}

#[test]
fn frame_layout_is_magic_version_type_length_payload() {
    let p = frame_packet(PacketKind::Client, &[7, 8, 9]);
    assert_eq!(p, vec![0x52, 0x50, 0x47, 0x45, 3, 0x01, 3, 0, 0, 0, 7, 8, 9]);
    let s = frame_packet(PacketKind::Server, &[]);
    assert_eq!(s, vec![0x52, 0x50, 0x47, 0x45, 3, 0x02, 0, 0, 0, 0]);
}

#[test]
fn frame_length_is_little_endian() {
    let payload = vec![0xAB; 0x0102];
    let p = frame_packet(PacketKind::Server, &payload);
    assert_eq!(&p[6..10], &[0x02, 0x01, 0x00, 0x00]);
    assert_eq!(p.len(), 10 + 0x0102);
}

#[test]
fn parse_gives_back_framed_payload() {
    let payload: Vec<u8> = (0..300u32).map(|i| (i % 251) as u8).collect();
    for kind in [PacketKind::Client, PacketKind::Server] {
        let p = frame_packet(kind, &payload);
        let (k, body) = parse_packet(&p).expect("a framed packet parses");
        assert_eq!(k, kind);
        assert_eq!(body, payload);
    }
}

#[test]
fn parse_ignores_trailing_bytes() {
    let mut p = frame_packet(PacketKind::Client, &[1, 2]);
    p.extend_from_slice(&[9, 9, 9]);
    assert_eq!(parse_packet(&p), Some((PacketKind::Client, vec![1, 2])));
}

#[test]
fn parse_rejects_malformed_packets() {
    let good = frame_packet(PacketKind::Client, &[1, 2, 3]);
    assert!(parse_packet(&good[..9]).is_none(), "too short for a header");
    assert!(parse_packet(&good[..12]).is_none(), "payload cut short");
    let mut bad_magic = good.clone();
    bad_magic[0] = b'X';
    assert!(parse_packet(&bad_magic).is_none());
    let mut bad_version = good.clone();
    bad_version[4] = 2;
    assert!(parse_packet(&bad_version).is_none());
    let mut bad_type = good.clone();
    bad_type[5] = 0x03;
    assert!(parse_packet(&bad_type).is_none());
}

#[test]
fn palette_lists_models_once_in_first_seen_order() {
    let entries: Vec<(String, String)> = vec![
        ("grass".to_string(), "ground_grass.glb".to_string()),
        ("path".to_string(), "ground_path.glb".to_string()),
        ("grass".to_string(), "elsewhere.glb".to_string()),
        ("tree_a".to_string(), "tree_a.glb".to_string()),
        ("path".to_string(), "ground_path.glb".to_string()),
    ];
    let (palette, indices) = chunk_palette(&entries);
    assert_eq!(
        palette,
        vec![
            ("grass".to_string(), "ground_grass.glb".to_string()),
            ("path".to_string(), "ground_path.glb".to_string()),
            ("tree_a".to_string(), "tree_a.glb".to_string()),
        ]
    );
    assert_eq!(indices, vec![0, 1, 0, 2, 1]);
}

#[test]
fn palette_of_nothing_is_empty() {
    let (palette, indices) = chunk_palette(&Vec::new());
    assert!(palette.is_empty() && indices.is_empty());
}
