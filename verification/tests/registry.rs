use kernel::interrupts::{
    emit_exception, emit_interrupt, remove_handler, run_ops, set_handler, Exception, Handler,
    HandlerEntry, HandlerId, Interrupt, Registry, RegistryOp,
};
use kernel::pic::{PicChain, PIC_1_OFFSET};
use kernel::Fatal;

fn ready_pics() -> PicChain {
    let mut pics = PicChain::new();
    pics.init();
    pics
}

#[test]
fn fresh_registry_is_empty() {
    let reg = Registry::new();
    assert_eq!(reg.next_id, 0);
    assert!(reg.timer_line.is_empty());
    assert!(reg.keyboard_line.is_empty());
}

#[test]
fn register_hands_out_fresh_ascending_ids() {
    let mut reg = Registry::new();
    let id0 = set_handler(
        &mut reg,
        Interrupt::Timer,
        Handler::Probe { handled: false, invocations: 0 },
    );
    let id1 = set_handler(
        &mut reg,
        Interrupt::Timer,
        Handler::Probe { handled: true, invocations: 0 },
    );
    let id2 = set_handler(&mut reg, Interrupt::Keyboard, Handler::Counter { events: 0 });
    assert_eq!(id0, HandlerId(0, Interrupt::Timer));
    assert_eq!(id1, HandlerId(1, Interrupt::Timer));
    assert_eq!(id2, HandlerId(2, Interrupt::Keyboard));
    assert_eq!(reg.timer_line.len(), 2);
    assert_eq!(reg.keyboard_line.len(), 1);
    assert_eq!(reg.next_id, 3);
}

#[test]
fn dispatch_runs_handlers_in_order_and_stops_at_first_claim() {
    let mut reg = Registry::new();
    let id0 = set_handler(
        &mut reg,
        Interrupt::Timer,
        Handler::Probe { handled: false, invocations: 0 },
    );
    let id1 = set_handler(
        &mut reg,
        Interrupt::Timer,
        Handler::Probe { handled: true, invocations: 0 },
    );
    let id2 = set_handler(
        &mut reg,
        Interrupt::Timer,
        Handler::Probe { handled: true, invocations: 0 },
    );
    let mut pics = ready_pics();
    emit_interrupt(&mut reg, &mut pics, Interrupt::Timer);
    // the controller was acknowledged exactly once, on the timer vector
    assert_eq!(pics.acknowledged, vec![PIC_1_OFFSET]);
    // h1 ran and declined, h2 ran and claimed, h3 never ran
    assert_eq!(
        remove_handler(&mut reg, id0),
        Some(Handler::Probe { handled: false, invocations: 1 })
    );
    assert_eq!(
        remove_handler(&mut reg, id1),
        Some(Handler::Probe { handled: true, invocations: 1 })
    );
    assert_eq!(
        remove_handler(&mut reg, id2),
        Some(Handler::Probe { handled: true, invocations: 0 })
    );
}

#[test]
fn dispatch_with_no_claim_runs_every_handler() {
    let mut reg = Registry::new();
    let id0 = set_handler(
        &mut reg,
        Interrupt::Keyboard,
        Handler::Probe { handled: false, invocations: 0 },
    );
    let id1 = set_handler(
        &mut reg,
        Interrupt::Keyboard,
        Handler::Probe { handled: false, invocations: 0 },
    );
    let mut pics = ready_pics();
    emit_interrupt(&mut reg, &mut pics, Interrupt::Keyboard);
    assert_eq!(pics.acknowledged, vec![PIC_1_OFFSET + 1]);
    assert_eq!(
        remove_handler(&mut reg, id0),
        Some(Handler::Probe { handled: false, invocations: 1 })
    );
    assert_eq!(
        remove_handler(&mut reg, id1),
        Some(Handler::Probe { handled: false, invocations: 1 })
    );
}

#[test]
fn dispatch_touches_only_the_signalled_line() {
    let mut reg = Registry::new();
    let timer_id = set_handler(&mut reg, Interrupt::Timer, Handler::Counter { events: 0 });
    let keyboard_id = set_handler(&mut reg, Interrupt::Keyboard, Handler::Counter { events: 0 });
    let mut pics = ready_pics();
    emit_interrupt(&mut reg, &mut pics, Interrupt::Timer);
    assert_eq!(
        remove_handler(&mut reg, timer_id),
        Some(Handler::Counter { events: 1 })
    );
    assert_eq!(
        remove_handler(&mut reg, keyboard_id),
        Some(Handler::Counter { events: 0 })
    );
}

#[test]
fn dispatch_on_an_empty_line_still_acknowledges_once() {
    let mut reg = Registry::new();
    let mut pics = ready_pics();
    emit_interrupt(&mut reg, &mut pics, Interrupt::Timer);
    assert_eq!(pics.acknowledged, vec![PIC_1_OFFSET]);
    assert!(reg.timer_line.is_empty());
}

#[test]
fn unregister_returns_the_callback_once_then_empty() {
    let mut reg = Registry::new();
    let id = set_handler(
        &mut reg,
        Interrupt::Timer,
        Handler::Probe { handled: true, invocations: 0 },
    );
    assert_eq!(
        remove_handler(&mut reg, id),
        Some(Handler::Probe { handled: true, invocations: 0 })
    );
    assert_eq!(remove_handler(&mut reg, id), None);
    assert_eq!(remove_handler(&mut reg, id), None);
}

#[test]
fn unregister_of_an_unknown_id_is_empty_and_changes_nothing() {
    let mut reg = Registry::new();
    let id0 = set_handler(&mut reg, Interrupt::Timer, Handler::Counter { events: 0 });
    assert_eq!(remove_handler(&mut reg, HandlerId(7, Interrupt::Timer)), None);
    assert_eq!(remove_handler(&mut reg, HandlerId(0, Interrupt::Keyboard)), None);
    assert_eq!(reg.timer_line.len(), 1);
    assert_eq!(
        remove_handler(&mut reg, id0),
        Some(Handler::Counter { events: 0 })
    );
}

#[test]
fn op_sequence_matches_the_ordered_map_simulation() {
    let mut reg = Registry::new();
    let ops = vec![
        RegistryOp::Register(Interrupt::Timer, Handler::Probe { handled: false, invocations: 0 }),
        RegistryOp::Register(Interrupt::Keyboard, Handler::Counter { events: 0 }),
        RegistryOp::Register(Interrupt::Timer, Handler::Probe { handled: true, invocations: 0 }),
        RegistryOp::Unregister(HandlerId(0, Interrupt::Timer)),
        RegistryOp::Unregister(HandlerId(0, Interrupt::Timer)),
        RegistryOp::Register(Interrupt::Timer, Handler::Counter { events: 0 }),
    ];
    run_ops(&mut reg, &ops);
    assert_eq!(
        reg.timer_line,
        vec![
            HandlerEntry { key: 2, handler: Handler::Probe { handled: true, invocations: 0 } },
            HandlerEntry { key: 3, handler: Handler::Counter { events: 0 } },
        ]
    );
    assert_eq!(
        reg.keyboard_line,
        vec![HandlerEntry { key: 1, handler: Handler::Counter { events: 0 } }]
    );
    assert_eq!(reg.next_id, 4);
}

#[test]
fn invocation_counts_saturate_at_the_limit() {
    let mut h = Handler::Probe { handled: true, invocations: u64::MAX };
    assert!(h.invoke(Interrupt::Timer));
    assert_eq!(h, Handler::Probe { handled: true, invocations: u64::MAX });
}

#[test]
fn emitted_exception_is_the_fatal_condition() {
    assert_eq!(
        emit_exception(Exception::DivideByZero),
        Fatal::Exception(Exception::DivideByZero)
    );
}
