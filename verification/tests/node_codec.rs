use commander::error::DecodeError;
use commander::flags::{BrigadierFlags, MinMax};
use commander::node::{Node, NodeName};
use commander::parser::{Parser, SuggestionsType};

fn round_trip(n: &Node) -> Vec<u8> {
    let mut buf: Vec<u8> = Vec::new();
    n.encode(&mut buf);
    assert_eq!(n.size(), buf.len() as u64);
    let (decoded, end) = Node::decode(&buf, 0).expect("node should decode");
    assert_eq!(&decoded, n);
    assert_eq!(end, buf.len());
    buf
}

#[test]
fn node_root_round_trip() {
    let root = Node::new(
        BrigadierFlags::new(false, false, false, false, false),
        (2, vec![1, 2]),
        None,
        None,
        None,
        None,
    );
    let buf = round_trip(&root);
    // flags byte, count, and the two child indices.
    assert_eq!(buf, vec![0x00, 0x02, 0x01, 0x02]);
}

#[test]
fn node_literal_round_trip() {
    let node = Node::new(
        BrigadierFlags::new(true, false, true, false, false),
        (1, vec![2]),
        None,
        Some(NodeName::new("teleport").unwrap()),
        None,
        None,
    );
    let buf = round_trip(&node);
    let mut expected: Vec<u8> = vec![0x05, 0x01, 0x02, 8];
    expected.extend_from_slice(b"teleport");
    assert_eq!(buf, expected);
}

#[test]
fn node_argument_round_trip() {
    let node = Node::new(
        BrigadierFlags::new(false, true, true, false, true),
        (0, vec![]),
        None,
        Some(NodeName::new("amount").unwrap()),
        Some(Parser::Integer {
            bits: MinMax::new(true, true),
            min: Some(0),
            max: Some(64),
        }),
        Some(SuggestionsType::AskServer),
    );
    round_trip(&node);
}

#[test]
fn node_redirect_round_trip() {
    let node = Node::new(
        BrigadierFlags::new(true, false, false, true, false),
        (0, vec![]),
        Some(0),
        Some(NodeName::new("again").unwrap()),
        None,
        None,
    );
    round_trip(&node);
}

#[test]
fn node_unset_presence_bits_read_no_bytes() {
    // A literal node without redirect, parser or suggestions: after the name
    // the decoder must stop, leaving trailing bytes untouched.
    let node = Node::new(
        BrigadierFlags::new(true, false, false, false, false),
        (0, vec![]),
        None,
        Some(NodeName::new("x").unwrap()),
        None,
        None,
    );
    let mut buf: Vec<u8> = Vec::new();
    node.encode(&mut buf);
    let node_len = buf.len();
    buf.push(0xee);
    let (decoded, end) = Node::decode(&buf, 0).unwrap();
    assert_eq!(decoded, node);
    assert_eq!(end, node_len);
}

#[test]
fn node_name_survives_decode() {
    let node = Node::new(
        BrigadierFlags::new(true, false, false, false, false),
        (0, vec![]),
        None,
        Some(NodeName::new("exécuter").unwrap()),
        None,
        None,
    );
    let mut buf: Vec<u8> = Vec::new();
    node.encode(&mut buf);
    let (decoded, _) = Node::decode(&buf, 0).unwrap();
    assert_eq!(decoded.name.as_ref().unwrap().as_str(), "exécuter");
}

#[test]
fn node_name_rejects_invalid_text() {
    // A literal node whose one-byte name is not valid UTF-8.
    let buf: Vec<u8> = vec![0x01, 0x00, 0x01, 0xff];
    assert_eq!(Node::decode(&buf, 0), Err(DecodeError::InvalidText));
}

#[test]
fn node_truncated_children_fail() {
    // Count of two, but only one child index present.
    let buf: Vec<u8> = vec![0x00, 0x02, 0x01];
    assert_eq!(Node::decode(&buf, 0), Err(DecodeError::UnexpectedEnd));
}

#[test]
fn node_name_bounds() {
    assert!(NodeName::new(&"a".repeat(32767)).is_some());
    assert!(NodeName::new(&"a".repeat(32768)).is_none());
    assert!(NodeName::from_bytes(vec![0xff]).is_none());
    let n = NodeName::from_bytes(b"fine".to_vec()).unwrap();
    assert_eq!(n.as_bytes(), b"fine");
    assert_eq!(n.len(), 4);
    assert_eq!(n.to_text(), "fine");
}
