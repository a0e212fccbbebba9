use gimli::Register;
use mips_context::Context;

#[test]
fn dump_has_one_entry_per_general_and_float_register() {
    let ctx = Context::default();
    let dump = ctx.debug_view();
    assert_eq!(dump.len(), 64);
}

#[test]
fn dump_uses_canonical_mips_names_in_ascending_order() {
    let ctx = Context::default();
    let dump = ctx.debug_view();
    for n in 0..32u16 {
        let expected = gimli::MIPS::register_name(Register(n)).unwrap();
        assert_eq!(dump[n as usize].0, expected);
    }
    for n in 32..64u16 {
        let expected = gimli::MIPS::register_name(Register(n)).unwrap();
        assert_eq!(dump[n as usize].0, expected);
    }
    assert_eq!(dump[0].0, "$0");
    assert_eq!(dump[31].0, "$31");
    assert_eq!(dump[32].0, "$f0");
    assert_eq!(dump[63].0, "$f31");
}

#[test]
fn dump_pairs_each_name_with_the_slot_value() {
    let mut ctx = Context::default();
    ctx.write(Register(5), 0x1234);
    ctx.fp[3] = 0xdead_beef_0000_0001;
    let dump = ctx.debug_view();
    assert_eq!(dump[5], ("$5", 0x1234));
    assert_eq!(dump[35], ("$f3", 0xdead_beef_0000_0001));
    assert_eq!(dump[6].1, 0);
}

#[test]
fn dump_shape_ignores_register_contents() {
    let empty = Context::default();
    let mut busy = Context::default();
    for n in 0..32u16 {
        busy.write(Register(n), usize::MAX - n as usize);
    }
    for i in 0..32 {
        busy.fp[i] = u64::MAX - i as u64;
    }
    let d1 = empty.debug_view();
    let d2 = busy.debug_view();
    assert_eq!(d1.len(), d2.len());
    for (e1, e2) in d1.iter().zip(d2.iter()) {
        assert_eq!(e1.0, e2.0);
    }
}
