use neo_eink::payload::select_payload;
use neo_eink::payload::Bitmap;
use neo_eink::payload::HalMode;
use neo_eink::payload::PayloadData;
use neo_eink::payload::{ABEMA_OFFSET, ABEMA_SIDE, RUST_OFFSET, RUST_SIDE};

const RUST: [u8; 3] = [1, 2, 3];
const ABEMA: [u8; 2] = [9, 8];

#[test]
fn rust_selects_first_picture_at_28() {
    let payload = select_payload(Some("rust"), "stdin", &RUST, &ABEMA);
    assert_eq!(
        payload,
        PayloadData::Image(28, 28, Bitmap { data: &RUST, width: 144, height: 144 })
    );
}

#[test]
fn abema_selects_second_picture_at_24() {
    let payload = select_payload(Some("abema"), "stdin", &RUST, &ABEMA);
    assert_eq!(
        payload,
        PayloadData::Image(24, 24, Bitmap { data: &ABEMA, width: 151, height: 151 })
    );
}

#[test]
fn picture_constants_match_the_mapping() {
    assert_eq!((RUST_OFFSET, RUST_SIDE), (28, 144));
    assert_eq!((ABEMA_OFFSET, ABEMA_SIDE), (24, 151));
}

#[test]
fn selection_is_repeatable() {
    for name in ["rust", "abema", "ameba", ""] {
        let first = select_payload(Some(name), 7u8, &RUST, &ABEMA);
        let second = select_payload(Some(name), 7u8, &RUST, &ABEMA);
        assert_eq!(first, second);
    }
}

#[test]
fn unknown_names_select_nothing_to_draw() {
    for name in ["ameba", "Rust", "RUST", "rust ", " rust", "", "abem", "abemaa", "other", "rüst"] {
        let payload = select_payload(Some(name), "stdin", &RUST, &ABEMA);
        assert_eq!(payload, PayloadData::Internal, "for {:?}", name);
    }
}

#[test]
fn no_name_selects_text_and_keeps_the_source() {
    let payload = select_payload(None, vec!["a", "b"], &RUST, &ABEMA);
    assert_eq!(payload, PayloadData::Text(vec!["a", "b"]));
}

#[test]
fn bitmap_completeness_counts_padded_rows() {
    let bytes = [0u8; 2869];
    assert!(Bitmap::new(&bytes, 151, 151).is_complete());
    assert!(!Bitmap::new(&bytes[..2868], 151, 151).is_complete());
    assert!(Bitmap::new(&bytes[..2592], 144, 144).is_complete());
    assert!(!Bitmap::new(&bytes[..2591], 144, 144).is_complete());
    assert!(Bitmap::new(&bytes[..0], 0, 7).is_complete());
    assert!(Bitmap::new(&bytes[..0], 7, 0).is_complete());
    assert!(!Bitmap::new(&bytes, u32::MAX, u32::MAX).is_complete());
}

#[test]
fn hal_mode_neo_is_recognized() {
    assert_eq!(HalMode::from_arg(Some("neo")), HalMode::Neo);
    assert_eq!(HalMode::Neo.notice(), "Neo mode not implemented yet");
}

#[test]
fn hal_mode_defaults_to_rpi() {
    for arg in [None, Some("rpi"), Some("NEO"), Some(""), Some("neo ")] {
        assert_eq!(HalMode::from_arg(arg), HalMode::Rpi, "for {:?}", arg);
    }
    assert_eq!(HalMode::Rpi.notice(), "default mode Rpi");
}
