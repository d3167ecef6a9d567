use drone_stm32::bus::RegisterFile;
use drone_stm32::registry::TokenRegistry;
use drone_stm32::token::{FieldId, FieldSpan, RegToken};

fn layout() -> Vec<Vec<FieldSpan>> {
    vec![
        vec![
            FieldSpan { offset: 0, width: 1 },
            FieldSpan { offset: 1, width: 3 },
            FieldSpan { offset: 8, width: 8 },
        ],
        vec![FieldSpan { offset: 0, width: 32 }],
    ]
}

#[test]
fn invalid_maps_are_refused() {
    assert!(TokenRegistry::new(vec![vec![]]).is_none());
    assert!(TokenRegistry::new(vec![vec![FieldSpan { offset: 30, width: 4 }]]).is_none());
    assert!(TokenRegistry::new(vec![vec![FieldSpan { offset: 3, width: 0 }]]).is_none());
    assert!(TokenRegistry::new(layout()).is_some());
}

#[test]
fn a_field_is_handed_out_once() {
    let mut reg = TokenRegistry::new(layout()).unwrap();
    let t = reg.take_field(0, 1).unwrap();
    assert_eq!(t.id(), FieldId { reg: 0, index: 1 });
    assert_eq!(t.siblings(), 3);
    assert!(reg.is_held(FieldId { reg: 0, index: 1 }));
    assert!(reg.take_field(0, 1).is_none());
    assert!(reg.take_register(0).is_none());
    assert!(reg.take_field(0, 3).is_none());
    assert!(reg.take_field(2, 0).is_none());
    reg.release_field(t);
    assert!(!reg.is_held(FieldId { reg: 0, index: 1 }));
    assert!(reg.take_field(0, 1).is_some());
}

#[test]
fn a_held_register_blocks_its_fields() {
    let mut reg = TokenRegistry::new(layout()).unwrap();
    let r = reg.take_register(0).unwrap();
    assert_eq!(r.field_count(), 3);
    for i in 0..3 {
        assert!(reg.take_field(0, i).is_none());
    }
    assert!(reg.take_register(1).is_some());
    reg.release_register(r);
    assert!(reg.take_field(0, 2).is_some());
}

#[test]
fn fork_then_join_rebuilds_the_register() {
    let mut reg = TokenRegistry::new(layout()).unwrap();
    let r = reg.take_register(0).unwrap();
    let fields = r.fork();
    assert_eq!(fields.len(), 3);
    assert_eq!(fields[2].id(), FieldId { reg: 0, index: 2 });
    assert_eq!(fields[2].span(), FieldSpan { offset: 8, width: 8 });
    let joined = match RegToken::join(fields) {
        Ok(r) => r,
        Err(_) => panic!("join refused"),
    };
    assert_eq!(joined.reg(), 0);
    assert_eq!(joined.field_count(), 3);
}

#[test]
fn join_refuses_an_incomplete_set() {
    let mut reg = TokenRegistry::new(layout()).unwrap();
    let r = reg.take_register(0).unwrap();
    let mut fields = r.fork();
    let last = fields.pop().unwrap();
    let back = match RegToken::join(fields) {
        Ok(_) => panic!("join accepted two of three fields"),
        Err(back) => back,
    };
    assert_eq!(back.len(), 2);
    assert!(RegToken::join(Vec::new()).is_err());
    assert_eq!(last.id().index, 2);
}

#[test]
fn field_read_and_write_on_values() {
    let mut reg = TokenRegistry::new(layout()).unwrap();
    let wide = reg.take_field(0, 2).unwrap();
    let narrow = reg.take_field(0, 1).unwrap();
    let mut v: u32 = 0xFFFF_FFFF;
    wide.write(&mut v, 0x12);
    assert_eq!(v, 0xFFFF_12FF);
    assert_eq!(wide.read(v), 0x12);
    narrow.clear(&mut v);
    assert_eq!(v, 0xFFFF_12F1);
    assert_eq!(narrow.read(v), 0);
    narrow.set(&mut v);
    assert_eq!(v, 0xFFFF_12FF);
    wide.write(&mut v, 0x1AB);
    assert_eq!(wide.read(v), 0xAB);
}

#[test]
fn only_one_bit_fields_become_shared() {
    let mut reg = TokenRegistry::new(layout()).unwrap();
    let wide = reg.take_field(0, 1).unwrap();
    let back = match wide.into_shared() {
        Ok(_) => panic!("a three-bit field was shared"),
        Err(t) => t,
    };
    assert_eq!(back.id(), FieldId { reg: 0, index: 1 });
    let bit = match reg.take_field(0, 0).unwrap().into_shared() {
        Ok(t) => t,
        Err(_) => panic!("a one-bit field was not shared"),
    };
    let copy = bit.duplicate();
    assert_eq!(copy.id(), bit.id());
    let mut v: u32 = 0;
    copy.set(&mut v);
    assert_eq!(v, 1);
    assert!(bit.read(v));
    bit.clear(&mut v);
    assert_eq!(v, 0);
}

#[test]
fn bit_band_operations_touch_one_bit() {
    let mut reg = TokenRegistry::new(vec![vec![
        FieldSpan { offset: 0, width: 1 },
        FieldSpan { offset: 5, width: 1 },
    ]])
    .unwrap();
    let bit = match reg.take_field(0, 1).unwrap().into_shared() {
        Ok(t) => t,
        Err(_) => panic!("not shared"),
    };
    let mut bus = RegisterFile::new(1);
    bus.store(0, 0x0F);
    bit.set_bit_band(&mut bus);
    assert_eq!(bus.load(0), 0x2F);
    assert!(bit.read_bit_band(&bus));
    bit.clear_bit_band(&mut bus);
    assert_eq!(bus.load(0), 0x0F);
    assert!(!bit.read_bit_band(&bus));
}

#[test]
fn whole_register_transactions() {
    let mut reg = TokenRegistry::new(layout()).unwrap();
    let r = reg.take_register(1).unwrap();
    let mut bus = RegisterFile::new(2);
    assert_eq!(bus.len(), 2);
    r.store_val(&mut bus, 0xDEAD_BEEF);
    assert_eq!(r.read_val(&bus), 0xDEAD_BEEF);
    assert_eq!(bus.load(0), 0);
}
