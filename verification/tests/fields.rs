use cpu_regs::int_like::IntLike;
use cpu_regs::regs::{Field, FieldValue};

#[test]
fn field_new_keeps_mask_and_shift() {
    let f: Field<u16, ()> = Field::new(0x1f, 7);
    assert_eq!(f.mask, 0x1f);
    assert_eq!(f.shift, 7);
}

#[test]
fn val_moves_value_into_position() {
    let f: Field<u8, ()> = Field::new(0b111, 4);
    let fv = f.val(0b001);
    assert_eq!(fv.mask, 0b0111_0000);
    assert_eq!(fv.value, 0b0001_0000);
    let fv = f.val(0b110);
    assert_eq!(fv.value, 0b0110_0000);
}

#[test]
fn val_drops_bits_beyond_the_field() {
    let f: Field<u8, ()> = Field::new(0b111, 4);
    let fv = f.val(0b1_1010);
    assert_eq!(fv.mask, 0b0111_0000);
    assert_eq!(fv.value, 0b0010_0000);
    assert_eq!(fv.value & !fv.mask, 0);
}

#[test]
fn val_of_field_past_the_top_is_cut_to_the_width() {
    let f: Field<u8, ()> = Field::new(0b111, 6);
    let fv = f.val(0b111);
    assert_eq!(fv.mask, 0b1100_0000);
    assert_eq!(fv.value, 0b1100_0000);
}

#[test]
fn field_value_new_positions_mask_and_value() {
    let fv: FieldValue<u32, ()> = FieldValue::new(0xff, 16, 0x1a5);
    assert_eq!(fv.mask, 0x00ff_0000);
    assert_eq!(fv.value, 0x00a5_0000);
    let fv: FieldValue<u64, ()> = FieldValue::new(0x3, 62, 0x2);
    assert_eq!(fv.mask, 0xc000_0000_0000_0000);
    assert_eq!(fv.value, 0x8000_0000_0000_0000);
}

#[test]
fn join_ors_masks_and_values() {
    let range: Field<u8, ()> = Field::new(0b111, 4);
    let en: Field<u8, ()> = Field::new(0b1, 3);
    let int: Field<u8, ()> = Field::new(0b1, 2);
    let both = range.val(0b010).join(en.val(1));
    assert_eq!(both.mask, 0b0111_1000);
    assert_eq!(both.value, 0b0010_1000);
    let other = en.val(1).join(range.val(0b010));
    assert_eq!((other.mask, other.value), (both.mask, both.value));
    let left = range.val(0b010).join(en.val(1)).join(int.val(1));
    let right = range.val(0b010).join(en.val(1).join(int.val(1)));
    assert_eq!((left.mask, left.value), (0b0111_1100, 0b0010_1100));
    assert_eq!((right.mask, right.value), (left.mask, left.value));
}

#[test]
fn join_of_disjoint_values_merges_in_turn() {
    let range: Field<u8, ()> = Field::new(0b111, 4);
    let en: Field<u8, ()> = Field::new(0b1, 3);
    let (a, b) = (range.val(0b101), en.val(0));
    let mut v: u16 = 0;
    while v < 256 {
        let raw = v as u8;
        let at_once = a.join(b).merge_into(raw);
        assert_eq!(at_once, b.merge_into(a.merge_into(raw)));
        assert_eq!(at_once, a.merge_into(b.merge_into(raw)));
        assert_eq!(at_once, (raw & 0b1000_0111) | 0b0101_0000);
        v += 1;
    }
}

#[test]
fn extract_from_gives_the_fields_bits() {
    let f: Field<u32, ()> = Field::new(0xfff, 20);
    assert_eq!(f.extract_from(0xabcd_ef01), 0xabc);
    assert_eq!(f.extract_from(0x000f_ffff), 0);
    let f: Field<u64, ()> = Field::new(0xffff, 48);
    assert_eq!(f.extract_from(0x1234_5678_9abc_def0), 0x1234);
    let f: Field<u64, ()> = Field::new(1, 63);
    assert_eq!(f.extract_from(0x8000_0000_0000_0000), 1);
    assert_eq!(f.extract_from(0x7fff_ffff_ffff_ffff), 0);
}

#[test]
fn raised_in_tests_for_any_bit_of_the_field() {
    let f: Field<u16, ()> = Field::new(0b11, 14);
    assert!(f.raised_in(0x4000));
    assert!(f.raised_in(0x8000));
    assert!(f.raised_in(0xc000));
    assert!(!f.raised_in(0x3fff));
}

#[test]
fn merge_into_replaces_the_masked_bits() {
    let f: Field<u16, ()> = Field::new(0xf, 4);
    let fv = f.val(0x9);
    assert_eq!(fv.merge_into(0xffff), 0xff9f);
    assert_eq!(fv.merge_into(0x0000), 0x0090);
    assert_eq!(fv.merge_into(0x1234), 0x1294);
}

#[test]
fn any_and_all_on_raw_values() {
    let f: Field<u16, ()> = Field::new(0xf, 4);
    let fv = f.val(0x9);
    assert!(fv.all_set_in(0x0090));
    assert!(fv.all_set_in(0xff9f));
    assert!(!fv.all_set_in(0x00b0));
    assert!(!fv.all_set_in(0x0000));
    assert!(fv.any_set_in(0x0040));
    assert!(!fv.any_set_in(0xff0f));
}

#[test]
fn int_like_operations_on_u8() {
    assert_eq!(<u8 as IntLike>::zero(), 0);
    assert_eq!(0b1100u8.bit_and(0b1010), 0b1000);
    assert_eq!(0b1100u8.bit_or(0b1010), 0b1110);
    assert_eq!(0b1100_0011u8.bit_not(), 0b0011_1100);
    assert_eq!(0b1100_0011u8.shift_left(2), 0b0000_1100);
    assert_eq!(0b1100_0011u8.shift_left(7), 0b1000_0000);
    assert_eq!(0b1100_0011u8.shift_right(2), 0b0011_0000);
    assert_eq!(0b1100_0011u8.shift_right(7), 1);
    assert!(5u8.same(5));
    assert!(!5u8.same(6));
}

#[test]
fn int_like_operations_on_wider_types() {
    assert_eq!(<u16 as IntLike>::zero(), 0);
    assert_eq!(<u32 as IntLike>::zero(), 0);
    assert_eq!(<u64 as IntLike>::zero(), 0);
    assert_eq!(0xf0f0u16.bit_and(0xff00), 0xf000);
    assert_eq!(0xf0f0u16.bit_or(0x0f00), 0xfff0);
    assert_eq!(0xf0f0u16.bit_not(), 0x0f0f);
    assert_eq!(0xf0f0u16.shift_left(4), 0x0f00);
    assert_eq!(0xf0f0u16.shift_right(12), 0xf);
    assert_eq!(0xdead_beefu32.bit_and(0xffff_0000), 0xdead_0000);
    assert_eq!(0xdead_0000u32.bit_or(0x0000_beef), 0xdead_beef);
    assert_eq!(0xdead_beefu32.bit_not(), 0x2152_4110);
    assert_eq!(0xdead_beefu32.shift_left(16), 0xbeef_0000);
    assert_eq!(0xdead_beefu32.shift_right(31), 1);
    assert_eq!(0x0123_4567_89ab_cdefu64.bit_and(0xffff_ffff), 0x89ab_cdef);
    assert_eq!(0x0123_4567_0000_0000u64.bit_or(0x89ab_cdef), 0x0123_4567_89ab_cdef);
    assert_eq!(0x0123_4567_89ab_cdefu64.bit_not(), 0xfedc_ba98_7654_3210);
    assert_eq!(0x0123_4567_89ab_cdefu64.shift_left(63), 0x8000_0000_0000_0000);
    assert_eq!(0x0123_4567_89ab_cdefu64.shift_right(60), 0);
    assert!(0xffffu16.same(0xffff));
    assert!(!0xffff_ffffu32.same(0xffff_fffe));
    assert!(u64::MAX.same(u64::MAX));
}
