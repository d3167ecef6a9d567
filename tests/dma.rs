use drone_stm32::bus::RegisterFile;
use drone_stm32::dma::{Dma, DmaItems};
use drone_stm32::registry::TokenRegistry;
use drone_stm32::routine::{decide, Completion, Decision, FuturePoll};
use drone_stm32::thread::VectorTable;
use drone_stm32::token::{FieldSpan, SharedToken};

const ISR: u32 = 0;
const IFCR: u32 = 1;
const CCR: u32 = 2;
const CMAR: u32 = 3;
const CNDTR: u32 = 4;
const CPAR: u32 = 5;

const GIF: u32 = 1 << 0;
const TCIF: u32 = 1 << 1;
const HTIF: u32 = 1 << 2;
const TEIF: u32 = 1 << 3;

fn flags_layout() -> Vec<FieldSpan> {
    (0..4).map(|i| FieldSpan { offset: i, width: 1 }).collect()
}

fn word_layout() -> Vec<FieldSpan> {
    vec![FieldSpan { offset: 0, width: 32 }]
}

fn registry() -> TokenRegistry {
    TokenRegistry::new(vec![
        flags_layout(),
        flags_layout(),
        word_layout(),
        word_layout(),
        word_layout(),
        word_layout(),
    ])
    .unwrap()
}

fn shared(reg: &mut TokenRegistry, r: u32, i: u32) -> SharedToken {
    match reg.take_field(r, i).unwrap().into_shared() {
        Ok(t) => t,
        Err(_) => panic!("not a one-bit field"),
    }
}

fn items(reg: &mut TokenRegistry, vectors: &mut VectorTable) -> DmaItems {
    DmaItems {
        irq: vectors.bind(11).unwrap(),
        ccr: reg.take_register(CCR).unwrap(),
        cmar: reg.take_register(CMAR).unwrap(),
        cndtr: reg.take_register(CNDTR).unwrap(),
        cpar: reg.take_register(CPAR).unwrap(),
        ifcr_cgif: shared(reg, IFCR, 0),
        ifcr_ctcif: shared(reg, IFCR, 1),
        ifcr_chtif: shared(reg, IFCR, 2),
        ifcr_cteif: shared(reg, IFCR, 3),
        isr_gif: shared(reg, ISR, 0),
        isr_tcif: shared(reg, ISR, 1),
        isr_htif: shared(reg, ISR, 2),
        isr_teif: shared(reg, ISR, 3),
    }
}

fn channel() -> Dma {
    let mut reg = registry();
    let mut vectors = VectorTable::new(16);
    Dma::compose(items(&mut reg, &mut vectors))
}

/// Plays the hardware: a write of CGIF to IFCR clears every flag in ISR.
fn acknowledge(bus: &mut RegisterFile) {
    if bus.load(IFCR) & GIF != 0 {
        bus.store(ISR, 0);
        bus.store(IFCR, 0);
    }
}

#[test]
fn compose_then_decompose_gives_back_the_items() {
    let dma = channel();
    let back = dma.decompose();
    assert_eq!(back.irq.vector(), 11);
    assert_eq!(back.ccr.reg(), CCR);
    assert_eq!(back.cmar.reg(), CMAR);
    assert_eq!(back.cndtr.reg(), CNDTR);
    assert_eq!(back.cpar.reg(), CPAR);
    assert_eq!(back.isr_tcif.id().reg, ISR);
    assert_eq!(back.isr_tcif.offset(), 1);
    assert_eq!(back.isr_teif.offset(), 3);
    assert_eq!(back.ifcr_cgif.id().reg, IFCR);
    assert_eq!(back.ifcr_cgif.offset(), 0);
    let again = Dma::compose(back);
    assert_eq!(again.irq().vector(), 11);
    assert_eq!(again.ccr().reg(), CCR);
    assert_eq!(again.isr_htif().offset(), 2);
}

#[test]
fn accessors_expose_the_owned_tokens() {
    let dma = channel();
    assert_eq!(dma.cmar().reg(), CMAR);
    assert_eq!(dma.cndtr().reg(), CNDTR);
    assert_eq!(dma.cpar().reg(), CPAR);
    assert_eq!(dma.ifcr_chtif().offset(), 2);
    assert_eq!(dma.ifcr_ctcif().offset(), 1);
    assert_eq!(dma.ifcr_cteif().offset(), 3);
    assert_eq!(dma.isr_gif().offset(), 0);
    assert_eq!(dma.isr_tcif().offset(), 1);
    assert_eq!(dma.isr_teif().offset(), 3);
}

#[test]
fn two_suspensions_then_transfer_complete() {
    let mut bus = RegisterFile::new(6);
    let mut fut = channel().transfer_complete();
    assert_eq!(fut.vector(), 11);
    assert!(fut.target() == Completion::TransferComplete);
    let mut suspensions = 0;

    // First poll: status not ready.
    assert!(matches!(fut.poll(&mut bus), FuturePoll::Pending));
    suspensions += 1;
    // First firing: still not ready.
    assert!(!fut.fire(&mut bus));
    suspensions += 1;
    assert!(matches!(fut.poll(&mut bus), FuturePoll::Pending));
    // Second firing: transfer complete.
    bus.store(ISR, TCIF | GIF);
    assert!(fut.fire(&mut bus));
    assert_eq!(bus.load(IFCR) & GIF, GIF);
    acknowledge(&mut bus);

    match fut.poll(&mut bus) {
        FuturePoll::Ready(Ok(dma)) => assert_eq!(dma.irq().vector(), 11),
        _ => panic!("expected Ok(handle)"),
    }
    assert_eq!(suspensions, 2);
    assert!(fut.is_finished());
    assert_eq!(bus.load(ISR), 0);
}

#[test]
fn error_on_first_poll_resolves_at_once() {
    let mut bus = RegisterFile::new(6);
    bus.store(ISR, TEIF | GIF);
    let mut fut = channel().transfer_complete();
    match fut.poll(&mut bus) {
        FuturePoll::Ready(Err(dma)) => assert_eq!(dma.ccr().reg(), CCR),
        _ => panic!("expected Err(handle)"),
    }
    assert!(fut.is_finished());
    assert_eq!(bus.load(IFCR), GIF);
}

#[test]
fn error_wins_over_completion() {
    let mut bus = RegisterFile::new(6);
    bus.store(ISR, TEIF | TCIF | GIF);
    let mut fut = channel().transfer_complete();
    assert!(matches!(fut.poll(&mut bus), FuturePoll::Ready(Err(_))));
}

#[test]
fn error_wins_over_completion_after_a_firing() {
    let mut bus = RegisterFile::new(6);
    let mut fut = channel().half_transfer();
    assert!(matches!(fut.poll(&mut bus), FuturePoll::Pending));
    bus.store(ISR, TEIF | HTIF | GIF);
    assert!(fut.fire(&mut bus));
    assert!(matches!(fut.poll(&mut bus), FuturePoll::Ready(Err(_))));
}

#[test]
fn half_transfer_ignores_transfer_complete() {
    let mut bus = RegisterFile::new(6);
    bus.store(ISR, TCIF | GIF);
    let mut fut = channel().half_transfer();
    assert!(fut.target() == Completion::HalfTransfer);
    assert!(matches!(fut.poll(&mut bus), FuturePoll::Pending));
    assert_eq!(bus.load(IFCR), 0);
    bus.store(ISR, HTIF | GIF);
    assert!(fut.fire(&mut bus));
    assert!(matches!(fut.poll(&mut bus), FuturePoll::Ready(Ok(_))));
}

#[test]
fn firing_before_the_first_poll_does_nothing() {
    let mut bus = RegisterFile::new(6);
    bus.store(ISR, TCIF);
    let mut fut = channel().transfer_complete();
    assert!(!fut.fire(&mut bus));
    assert_eq!(bus.load(IFCR), 0);
    assert!(matches!(fut.poll(&mut bus), FuturePoll::Ready(Ok(_))));
    assert!(!fut.fire(&mut bus));
}

#[test]
fn second_binding_of_a_vector_is_refused() {
    let mut vectors = VectorTable::new(4);
    let b = vectors.bind(2).unwrap();
    assert_eq!(b.vector(), 2);
    assert!(vectors.bind(2).is_none());
    assert!(vectors.bind(4).is_none());
    assert!(vectors.bind(3).is_some());
}

#[test]
fn decisions_look_at_the_error_flag_first() {
    assert_eq!(decide(true, true), Decision::Fail);
    assert_eq!(decide(true, false), Decision::Fail);
    assert_eq!(decide(false, true), Decision::Succeed);
    assert_eq!(decide(false, false), Decision::Suspend);
}

#[test]
fn cancelling_hands_the_channel_back() {
    let mut bus = RegisterFile::new(6);
    let mut fut = channel().transfer_complete();
    assert!(matches!(fut.poll(&mut bus), FuturePoll::Pending));
    let dma = fut.cancel().unwrap();
    assert_eq!(dma.irq().vector(), 11);

    bus.store(ISR, TCIF);
    let mut fut = dma.half_transfer();
    assert!(matches!(fut.poll(&mut bus), FuturePoll::Pending));
    bus.store(ISR, HTIF);
    assert!(fut.fire(&mut bus));
    assert!(fut.cancel().is_some());

    bus.store(ISR, TCIF);
    let mut fut = channel().transfer_complete();
    assert!(matches!(fut.poll(&mut bus), FuturePoll::Ready(Ok(_))));
    assert!(fut.cancel().is_none());
}
