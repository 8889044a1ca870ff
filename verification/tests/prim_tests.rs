use xim::enums::{
    CaretDirection, CaretStyle, Feedback, FeedbackSet, HotkeyState, PreeditState, ResetState,
    StrConvFeedbackSet, StrConvFeedbackType, FEEDBACK_KNOWN_BITS, STR_CONV_FEEDBACK_KNOWN_BITS,
};
use xim::error::DecodeError;
use xim::prim::{
    decode_caret_direction, decode_caret_style, decode_feedback, decode_feedback_strict,
    decode_str_conv_feedback,
    i32_from_wire, i32_to_wire, pad_amount, read_i32, read_preedit_caret, read_trigger_key_list,
    read_u16, read_u32, read_xim_string, write_feedback, write_i32, write_preedit_caret,
    write_trigger_key_list, write_u16, write_u32, write_xim_string, Endian,
};
use xim::types::{PreeditCaret, TriggerKey, XimString};

#[test]
fn pad_amount_formula() {
    assert_eq!(pad_amount(0), 0);
    assert_eq!(pad_amount(1), 3);
    assert_eq!(pad_amount(2), 2);
    assert_eq!(pad_amount(3), 1);
    assert_eq!(pad_amount(4), 0);
    assert_eq!(pad_amount(5), 3);
}

#[test]
fn u16_exact_bytes_and_round_trip() {
    let mut big: Vec<u8> = Vec::new();
    write_u16(Endian::Big, &mut big, 0x1234);
    assert_eq!(big, vec![0x12, 0x34]);
    assert_eq!(read_u16(Endian::Big, &big, 0), 0x1234);

    let mut little: Vec<u8> = Vec::new();
    write_u16(Endian::Little, &mut little, 0x1234);
    assert_eq!(little, vec![0x34, 0x12]);
    assert_eq!(read_u16(Endian::Little, &little, 0), 0x1234);
}

#[test]
fn u32_exact_bytes_and_round_trip() {
    let mut big: Vec<u8> = Vec::new();
    write_u32(Endian::Big, &mut big, 0xDEADBEEF);
    assert_eq!(big, vec![0xDE, 0xAD, 0xBE, 0xEF]);
    assert_eq!(read_u32(Endian::Big, &big, 0), 0xDEADBEEF);

    let mut little: Vec<u8> = Vec::new();
    write_u32(Endian::Little, &mut little, 0xDEADBEEF);
    assert_eq!(little, vec![0xEF, 0xBE, 0xAD, 0xDE]);
    assert_eq!(read_u32(Endian::Little, &little, 0), 0xDEADBEEF);
}

#[test]
fn i32_two_complement_wire_image() {
    assert_eq!(i32_to_wire(0), 0);
    assert_eq!(i32_to_wire(7), 7);
    assert_eq!(i32_to_wire(-1), 0xFFFFFFFF);
    assert_eq!(i32_to_wire(i32::MIN), 0x80000000);
    assert_eq!(i32_from_wire(0xFFFFFFFF), -1);
    assert_eq!(i32_from_wire(0x80000000), i32::MIN);
    for v in [0i32, 1, -1, 42, -42, i32::MIN, i32::MAX] {
        assert_eq!(i32_from_wire(i32_to_wire(v)), v);
        let mut out: Vec<u8> = Vec::new();
        write_i32(Endian::Big, &mut out, v);
        assert_eq!(read_i32(Endian::Big, &out, 0), v);
    }
    let mut out: Vec<u8> = Vec::new();
    write_i32(Endian::Big, &mut out, -1);
    assert_eq!(out, vec![0xFF, 0xFF, 0xFF, 0xFF]);
}

#[test]
fn xim_string_exact_bytes() {
    let mut out: Vec<u8> = Vec::new();
    write_xim_string(&mut out, &XimString(b"ab".to_vec()));
    assert_eq!(out, vec![2, b'a', b'b', 0]);

    let mut empty: Vec<u8> = Vec::new();
    write_xim_string(&mut empty, &XimString(Vec::new()));
    assert_eq!(empty, vec![0, 0, 0, 0]);

    let mut three: Vec<u8> = Vec::new();
    write_xim_string(&mut three, &XimString(b"abc".to_vec()));
    assert_eq!(three, vec![3, b'a', b'b', b'c']);
}

#[test]
fn xim_string_read_back() {
    let mut out: Vec<u8> = Vec::new();
    write_xim_string(&mut out, &XimString(b"hello".to_vec()));
    assert_eq!(out, vec![5, b'h', b'e', b'l', b'l', b'o', 0, 0]);
    let (s, consumed) = read_xim_string(&out, 0, out.len()).unwrap();
    assert_eq!(s, XimString(b"hello".to_vec()));
    assert_eq!(consumed, 8);
}

#[test]
fn xim_string_overrun_is_malformed() {
    // A declared 9-byte string with only 4 bytes of window behind it.
    let bytes = [9u8, 1, 2, 3];
    assert_eq!(read_xim_string(&bytes, 0, 4), Err(DecodeError::Malformed));
    // An empty window holds no length prefix at all.
    assert_eq!(read_xim_string(&bytes, 2, 2), Err(DecodeError::Malformed));
}

#[test]
fn caret_direction_twelve_values() {
    let defined = [
        (0, CaretDirection::ForwardChar),
        (1, CaretDirection::BackwardChar),
        (2, CaretDirection::ForwardWord),
        (3, CaretDirection::BackwardWord),
        (4, CaretDirection::CaretUp),
        (5, CaretDirection::CaretDown),
        (6, CaretDirection::NextLine),
        (7, CaretDirection::PreviousLine),
        (8, CaretDirection::LineStart),
        (9, CaretDirection::LineEnd),
        (10, CaretDirection::AbsolutePosition),
        (11, CaretDirection::DontChange),
    ];
    for (v, d) in defined {
        assert_eq!(CaretDirection::from_u32(v), Some(d));
        assert_eq!(d.to_u32(), v);
    }
    for v in [12u32, 13, 100, u32::MAX] {
        assert_eq!(CaretDirection::from_u32(v), None);
    }
}

#[test]
fn caret_direction_field_decode_rejects_undefined() {
    let mut out: Vec<u8> = Vec::new();
    write_u32(Endian::Big, &mut out, 99);
    assert_eq!(
        decode_caret_direction(Endian::Big, &out, 0),
        Err(DecodeError::InvalidEnumValue)
    );
    let mut ok: Vec<u8> = Vec::new();
    write_u32(Endian::Big, &mut ok, 10);
    assert_eq!(
        decode_caret_direction(Endian::Big, &ok, 0),
        Ok(CaretDirection::AbsolutePosition)
    );
}

#[test]
fn caret_style_decode() {
    assert_eq!(CaretStyle::from_u32(0), Some(CaretStyle::Invisible));
    assert_eq!(CaretStyle::from_u32(1), Some(CaretStyle::Primary));
    assert_eq!(CaretStyle::from_u32(2), Some(CaretStyle::Secondary));
    assert_eq!(CaretStyle::from_u32(3), None);
    let mut out: Vec<u8> = Vec::new();
    write_u32(Endian::Little, &mut out, 2);
    assert_eq!(decode_caret_style(Endian::Little, &out, 0), Ok(CaretStyle::Secondary));
}

#[test]
fn state_enums_decode() {
    assert_eq!(HotkeyState::from_u32(0x1), Some(HotkeyState::On));
    assert_eq!(HotkeyState::from_u32(0x2), Some(HotkeyState::Off));
    assert_eq!(HotkeyState::from_u32(0x3), None);
    assert_eq!(PreeditState::from_u32(0x1), Some(PreeditState::Enable));
    assert_eq!(PreeditState::from_u32(0x2), Some(PreeditState::Disable));
    assert_eq!(PreeditState::from_u32(0), None);
    assert_eq!(ResetState::from_u32(0x1), Some(ResetState::Initial));
    assert_eq!(ResetState::from_u32(0x2), Some(ResetState::Preserve));
    assert_eq!(ResetState::from_u32(4), None);
}

#[test]
fn feedback_unknown_bit_round_trips() {
    // Bit 0x200 is undefined; it must survive decode and re-encode.
    let raw: u32 = 0x200 | 0x1;
    let mut wire: Vec<u8> = Vec::new();
    write_u32(Endian::Big, &mut wire, raw);
    let set = decode_feedback(Endian::Big, &wire, 0);
    assert_eq!(set.bits, raw);
    assert!(set.contains(Feedback::Reverse));
    assert!(!set.is_strictly_valid());
    let mut back: Vec<u8> = Vec::new();
    write_feedback(Endian::Big, &mut back, set);
    assert_eq!(back, wire);
    assert_eq!(set.to_bits(), raw);
}

#[test]
fn strict_feedback_decode_rejects_unknown_bits() {
    let mut undefined: Vec<u8> = Vec::new();
    write_u32(Endian::Big, &mut undefined, 0x200);
    assert_eq!(
        decode_feedback_strict(Endian::Big, &undefined, 0),
        Err(DecodeError::InvalidEnumValue)
    );
    let mut defined: Vec<u8> = Vec::new();
    write_u32(Endian::Big, &mut defined, 0x104);
    assert_eq!(
        decode_feedback_strict(Endian::Big, &defined, 0),
        Ok(FeedbackSet::from_bits(0x104))
    );
}

#[test]
fn feedback_known_bits_are_strictly_valid() {
    assert_eq!(FEEDBACK_KNOWN_BITS, 0x1FF);
    let set = FeedbackSet::from_bits(0x1FF);
    assert!(set.is_strictly_valid());
    let built = FeedbackSet::empty()
        .insert(Feedback::Underline)
        .insert(Feedback::VisibleToCenter);
    assert_eq!(built.bits, 0x102);
    assert!(built.contains(Feedback::Underline));
    assert!(!built.contains(Feedback::Reverse));
}

#[test]
fn str_conv_feedback_preserves_bits() {
    assert_eq!(STR_CONV_FEEDBACK_KNOWN_BITS, 0x3F);
    let raw: u16 = 0x40 | 0x10;
    let mut wire: Vec<u8> = Vec::new();
    write_u16(Endian::Big, &mut wire, raw);
    let set = decode_str_conv_feedback(Endian::Big, &wire, 0);
    assert_eq!(set.bits, raw);
    assert!(set.contains(StrConvFeedbackType::Convealed));
    assert!(!set.is_strictly_valid());
    assert!(StrConvFeedbackSet::from_bits(0x3F).is_strictly_valid());
    assert_eq!(
        StrConvFeedbackSet::empty().insert(StrConvFeedbackType::Wrapped).bits,
        0x20
    );
}

#[test]
fn trigger_key_list_round_trip() {
    let keys = vec![
        TriggerKey { keysym: 0xFF20, modifier: 0x4, modifier_mask: 0xC },
        TriggerKey { keysym: 0x20, modifier: 0, modifier_mask: 0x1 },
    ];
    for e in [Endian::Big, Endian::Little] {
        let mut wire: Vec<u8> = Vec::new();
        write_trigger_key_list(e, &mut wire, &keys);
        assert_eq!(wire.len() % 4, 0);
        let (back, consumed) = read_trigger_key_list(e, &wire, 0).unwrap();
        assert_eq!(back, keys);
        assert_eq!(consumed, wire.len());
    }
}

#[test]
fn trigger_key_list_empty_and_truncated() {
    let mut wire: Vec<u8> = Vec::new();
    write_trigger_key_list(Endian::Big, &mut wire, &Vec::new());
    assert_eq!(wire, vec![0, 0, 0, 0]);
    let (back, consumed) = read_trigger_key_list(Endian::Big, &wire, 0).unwrap();
    assert!(back.is_empty());
    assert_eq!(consumed, 4);
    // A declared count of one record with no bytes behind it.
    assert_eq!(
        read_trigger_key_list(Endian::Big, &[0, 1, 0, 0], 0),
        Err(DecodeError::Malformed)
    );
}

#[test]
fn preedit_caret_fragment_round_trip() {
    let pc = PreeditCaret {
        method_id: 3,
        context_id: 9,
        position: -5,
        direction: CaretDirection::CaretUp,
        style: CaretStyle::Primary,
    };
    for e in [Endian::Big, Endian::Little] {
        let mut wire: Vec<u8> = Vec::new();
        write_preedit_caret(e, &mut wire, &pc);
        assert_eq!(wire.len(), 16);
        assert_eq!(read_preedit_caret(e, &wire, 0), Ok(pc));
    }
}

#[test]
fn preedit_caret_fragment_rejects_undefined_direction() {
    let mut wire: Vec<u8> = Vec::new();
    write_u16(Endian::Big, &mut wire, 3);
    write_u16(Endian::Big, &mut wire, 9);
    write_i32(Endian::Big, &mut wire, 0);
    write_u32(Endian::Big, &mut wire, 12);
    write_u32(Endian::Big, &mut wire, 1);
    assert_eq!(
        read_preedit_caret(Endian::Big, &wire, 0),
        Err(DecodeError::InvalidEnumValue)
    );
}
