use galena::layout::{
    align_up, attribute_size, clear_tag, closure_bytes, discriminant_byte, discriminant_offset,
    event_type_offset, on_event_size, pointer_tag, record_discriminant, record_offset,
    record_size, result_discriminant, roc_str_size, with_tag, PointerWidth, TaggedPointer, ALIGN,
};
use galena::tags::{discriminant_InternalAttr, discriminant_InternalHtml, discriminant_U1};

#[test]
fn align_up_rounds_to_eight() {
    assert_eq!(ALIGN, 8);
    assert_eq!(align_up(0), 0);
    assert_eq!(align_up(1), 8);
    assert_eq!(align_up(7), 8);
    assert_eq!(align_up(8), 8);
    assert_eq!(align_up(9), 16);
    assert_eq!(align_up(4096), 4096);
    assert_eq!(align_up(4097), 4104);
}

#[test]
fn align_up_is_least_multiple_not_below() {
    for n in 0usize..200 {
        let r = align_up(n);
        assert_eq!(r % 8, 0);
        assert!(r >= n);
        assert!(r - n < 8);
    }
}

#[test]
fn word_sizes_by_width() {
    assert_eq!(PointerWidth::Bits32.bytes(), 4);
    assert_eq!(PointerWidth::Bits64.bytes(), 8);
    assert_eq!(PointerWidth::Bits32.tag_mask(), 0b011);
    assert_eq!(PointerWidth::Bits64.tag_mask(), 0b111);
    assert_eq!(PointerWidth::native().bytes(), std::mem::size_of::<usize>());
}

#[test]
fn string_and_attribute_sizes() {
    assert_eq!(roc_str_size(PointerWidth::Bits32), 12);
    assert_eq!(roc_str_size(PointerWidth::Bits64), 24);
    assert_eq!(attribute_size(PointerWidth::Bits32), 24);
    assert_eq!(attribute_size(PointerWidth::Bits64), 48);
}

#[test]
fn event_type_follows_padded_closure() {
    assert_eq!(event_type_offset(0), 0);
    assert_eq!(event_type_offset(1), 8);
    assert_eq!(event_type_offset(8), 8);
    assert_eq!(event_type_offset(12), 16);
}

#[test]
fn on_event_size_examples() {
    // 12 bytes of string behind no closure, padded to 16.
    assert_eq!(on_event_size(PointerWidth::Bits32, 0), 16);
    // closure of 4 is padded to 8, then 12 bytes of string: 20, padded to 24.
    assert_eq!(on_event_size(PointerWidth::Bits32, 4), 24);
    assert_eq!(on_event_size(PointerWidth::Bits32, 20), 40);
    assert_eq!(on_event_size(PointerWidth::Bits64, 0), 24);
    assert_eq!(on_event_size(PointerWidth::Bits64, 20), 48);
}

#[test]
fn record_size_without_closure() {
    // The two-string payload is the largest: 24 + 1, padded to 32.
    assert_eq!(record_size(PointerWidth::Bits32, 0), 32);
    assert_eq!(record_size(PointerWidth::Bits64, 0), 56);
}

#[test]
fn record_size_grows_with_closure() {
    // On 32 bits a closure of 20 bytes makes the handler payload 40 bytes.
    assert_eq!(record_size(PointerWidth::Bits32, 20), 48);
    assert_eq!(discriminant_offset(PointerWidth::Bits32, 20), 40);
    // A closure of 4 leaves the handler payload at 24, as large as two strings.
    assert_eq!(record_size(PointerWidth::Bits32, 4), 32);
    assert_eq!(discriminant_offset(PointerWidth::Bits32, 4), 24);
    assert_eq!(record_size(PointerWidth::Bits64, 100), 136);
    assert_eq!(discriminant_offset(PointerWidth::Bits64, 100), 128);
}

#[test]
fn record_size_is_stable_and_bounded() {
    for width in [PointerWidth::Bits32, PointerWidth::Bits64] {
        for closure in 0usize..100 {
            let first = record_size(width, closure);
            let second = record_size(width, closure);
            assert_eq!(first, second);
            assert_eq!(first % 8, 0);
            assert!(first >= attribute_size(width) + 1);
            assert!(first >= on_event_size(width, closure) + 1);
            assert!(first < attribute_size(width).max(on_event_size(width, closure)) + 1 + 8);
        }
    }
}

#[test]
fn tag_round_trip_on_both_widths() {
    for width in [PointerWidth::Bits32, PointerWidth::Bits64] {
        let mask = width.tag_mask();
        for tag in 0..=mask {
            let address = 0x1000usize;
            let word = with_tag(address, tag);
            assert_eq!(pointer_tag(word, width), tag);
            assert_eq!(clear_tag(word, width), address);
        }
    }
}

#[test]
fn pointer_tag_masks_low_bits() {
    assert_eq!(pointer_tag(0x1007, PointerWidth::Bits64), 7);
    assert_eq!(pointer_tag(0x1007, PointerWidth::Bits32), 3);
    assert_eq!(clear_tag(0x1007, PointerWidth::Bits64), 0x1000);
    assert_eq!(clear_tag(0x1007, PointerWidth::Bits32), 0x1004);
}

#[test]
fn tagged_pointer_round_trip_every_variant() {
    for width in [PointerWidth::Bits32, PointerWidth::Bits64] {
        for tag in [discriminant_InternalHtml::Element, discriminant_InternalHtml::Text] {
            let pointer = TaggedPointer::new(0x2000, tag);
            assert!(pointer.is_well_formed(width));
            assert_eq!(pointer.discriminant(width), tag);
            assert_eq!(pointer.unmasked_pointer(width), 0x2000);
        }
    }
}

#[test]
fn tagged_pointer_words() {
    assert_eq!(TaggedPointer::new(0x2000, discriminant_InternalHtml::Element).word, 0x2000);
    assert_eq!(TaggedPointer::new(0x2000, discriminant_InternalHtml::Text).word, 0x2001);
}

#[test]
fn null_and_unknown_tags_are_not_well_formed() {
    let null = TaggedPointer { word: 0 };
    assert!(!null.is_well_formed(PointerWidth::Bits32));
    assert!(!null.is_well_formed(PointerWidth::Bits64));
    let unknown = TaggedPointer { word: 0x2002 };
    assert!(!unknown.is_well_formed(PointerWidth::Bits32));
    assert!(!unknown.is_well_formed(PointerWidth::Bits64));
    // Bit 2 is a tag bit on 64-bit machines only.
    let high = TaggedPointer { word: 0x2004 };
    assert!(high.is_well_formed(PointerWidth::Bits32));
    assert!(!high.is_well_formed(PointerWidth::Bits64));
}

#[test]
fn record_offset_is_stride_times_index() {
    assert_eq!(record_offset(32, 0), 0);
    assert_eq!(record_offset(32, 3), 96);
    assert_eq!(record_offset(48, 5), 240);
}

fn two_records(width: PointerWidth, closure: usize) -> Vec<u8> {
    let stride = record_size(width, closure);
    let mut bytes: Vec<u8> = (0..2 * stride).map(|i| (i % 251) as u8).collect();
    bytes[discriminant_offset(width, closure)] = 22;
    bytes[stride + discriminant_offset(width, closure)] = 12;
    bytes
}

#[test]
fn discriminant_is_read_at_the_runtime_stride() {
    for (width, closure) in [
        (PointerWidth::Bits32, 0),
        (PointerWidth::Bits32, 20),
        (PointerWidth::Bits64, 0),
        (PointerWidth::Bits64, 100),
    ] {
        let bytes = two_records(width, closure);
        assert_eq!(discriminant_byte(&bytes, width, closure, 0), 22);
        assert_eq!(discriminant_byte(&bytes, width, closure, 1), 12);
        assert_eq!(
            record_discriminant(&bytes, width, closure, 0),
            Some(discriminant_InternalAttr::Value)
        );
        assert_eq!(
            record_discriminant(&bytes, width, closure, 1),
            Some(discriminant_InternalAttr::OnEvent)
        );
    }
}

#[test]
fn unknown_discriminant_byte_is_none() {
    let width = PointerWidth::Bits32;
    let mut bytes = two_records(width, 0);
    bytes[discriminant_offset(width, 0)] = 23;
    assert_eq!(record_discriminant(&bytes, width, 0, 0), None);
    bytes[discriminant_offset(width, 0)] = 255;
    assert_eq!(record_discriminant(&bytes, width, 0, 0), None);
}

#[test]
fn closure_bytes_are_the_head_of_the_record() {
    let width = PointerWidth::Bits32;
    let closure = 20;
    let stride = record_size(width, closure);
    let bytes = two_records(width, closure);
    assert_eq!(closure_bytes(&bytes, width, closure, 0), bytes[0..20].to_vec());
    assert_eq!(closure_bytes(&bytes, width, closure, 1), bytes[stride..stride + 20].to_vec());
    assert_eq!(closure_bytes(&bytes, width, 0, 1), Vec::<u8>::new());
}

#[test]
fn result_discriminant_sits_behind_the_string() {
    let mut bytes = vec![0u8; 16];
    bytes[12] = 1;
    assert_eq!(result_discriminant(&bytes, PointerWidth::Bits32), Some(discriminant_U1::OkTag));
    bytes[12] = 0;
    assert_eq!(result_discriminant(&bytes, PointerWidth::Bits32), Some(discriminant_U1::ErrTag));
    bytes[12] = 2;
    assert_eq!(result_discriminant(&bytes, PointerWidth::Bits32), None);
    let mut wide = vec![0u8; 32];
    wide[24] = 1;
    assert_eq!(result_discriminant(&wide, PointerWidth::Bits64), Some(discriminant_U1::OkTag));
}

#[test]
fn writing_a_result_discriminant_changes_one_byte() {
    let mut bytes: Vec<u8> = (0u8..16).collect();
    galena::layout::set_result_discriminant(&mut bytes, PointerWidth::Bits32, discriminant_U1::OkTag);
    let mut expected: Vec<u8> = (0u8..16).collect();
    expected[12] = 1;
    assert_eq!(bytes, expected);
    assert_eq!(result_discriminant(&bytes, PointerWidth::Bits32), Some(discriminant_U1::OkTag));
    galena::layout::set_result_discriminant(&mut bytes, PointerWidth::Bits32, discriminant_U1::ErrTag);
    assert_eq!(result_discriminant(&bytes, PointerWidth::Bits32), Some(discriminant_U1::ErrTag));
    let mut wide = vec![9u8; 25];
    galena::layout::set_result_discriminant(&mut wide, PointerWidth::Bits64, discriminant_U1::OkTag);
    assert_eq!(wide[24], 1);
    assert_eq!(wide[23], 9);
}
