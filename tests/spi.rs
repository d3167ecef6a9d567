use drone_stm32::bus::RegisterFile;
use drone_stm32::registry::TokenRegistry;
use drone_stm32::spi::{ControlFlag, Spi, SpiItems, CR1_SPE_BIT, CR2_TXDMAEN_BIT};
use drone_stm32::thread::VectorTable;
use drone_stm32::token::FieldSpan;

fn spi() -> Spi {
    let mut reg = TokenRegistry::new(vec![vec![FieldSpan { offset: 0, width: 32 }]; 7]).unwrap();
    let mut vectors = VectorTable::new(40);
    Spi::compose(SpiItems {
        irq: vectors.bind(35).unwrap(),
        cr1: reg.take_register(0).unwrap(),
        cr2: reg.take_register(1).unwrap(),
        crcpr: reg.take_register(2).unwrap(),
        dr: reg.take_register(3).unwrap(),
        rxcrcr: reg.take_register(4).unwrap(),
        sr: reg.take_register(5).unwrap(),
        txcrcr: reg.take_register(6).unwrap(),
    })
}

#[test]
fn spi_compose_round_trip() {
    let s = spi();
    assert_eq!(s.irq().vector(), 35);
    assert_eq!(s.cr1().reg(), 0);
    assert_eq!(s.cr2().reg(), 1);
    assert_eq!(s.crcpr().reg(), 2);
    assert_eq!(s.dr().reg(), 3);
    assert_eq!(s.rxcrcr().reg(), 4);
    assert_eq!(s.sr().reg(), 5);
    assert_eq!(s.txcrcr().reg(), 6);
    let items = s.decompose();
    assert_eq!(items.irq.vector(), 35);
    assert_eq!(items.dr.reg(), 3);
    assert_eq!(items.txcrcr.reg(), 6);
}

#[test]
fn spe_is_off_during_the_body_and_on_after() {
    let mut bus = RegisterFile::new(7);
    let val: u32 = 0x0000_0344 | (1 << CR1_SPE_BIT);
    let seen = spi().spe_after(&mut bus, val, |s: Spi, b: &mut RegisterFile| {
        let during = b.load(0);
        s.send_byte(b, 0xA5);
        during
    });
    assert_eq!(seen, 0x0000_0304);
    assert_eq!(bus.load(0), 0x0000_0344);
    assert_eq!(bus.load(3), 0xA5);
}

#[test]
fn txdmaen_is_off_during_the_body_and_on_after() {
    let mut bus = RegisterFile::new(7);
    let seen = spi().txdmaen_after(&mut bus, 0x0000_0700, |_s: Spi, b: &mut RegisterFile| b.load(1));
    assert_eq!(seen, 0x0000_0700);
    assert_eq!(bus.load(1), 0x0000_0700 | (1 << CR2_TXDMAEN_BIT));
}

#[test]
fn with_flag_cleared_during_restores_the_flag() {
    let mut bus = RegisterFile::new(7);
    bus.store(0, 0xFFFF_FFFF);
    let r = spi().with_flag_cleared_during(&mut bus, ControlFlag::Spe, 0x0000_0040, |_s: Spi, b: &mut RegisterFile| {
        b.load(0)
    });
    assert_eq!(r, 0);
    assert_eq!(bus.load(0), 0x0000_0040);
}

#[test]
fn data_register_widths() {
    let s = spi();
    let mut bus = RegisterFile::new(7);
    s.send_hword(&mut bus, 0xBEEF);
    assert_eq!(bus.load(3), 0xBEEF);
    assert_eq!(s.recv_byte(&bus), 0xEF);
    assert_eq!(s.recv_hword(&bus), 0xBEEF);
    bus.store(3, 0x1234_5678);
    assert_eq!(s.recv_byte(&bus), 0x78);
    assert_eq!(s.recv_hword(&bus), 0x5678);
}
