use lora_panel::dispatch::Decision;
use lora_panel::dispatch::Dispatcher;
use lora_panel::dispatch::IrqSource;
use lora_panel::dispatch::Resource;
use lora_panel::dispatch::TaskId;
use lora_panel::periodic::status_query;
use lora_panel::periodic::Liveness;

#[test]
fn idle_system_starts_the_handler_at_once() {
    let mut d = Dispatcher::new(1, 1);
    assert_eq!(d.interrupt(IrqSource::SerialRx), Decision::Started(TaskId::Receive));
    assert_eq!(d.running, Some(TaskId::Receive));
}

#[test]
fn interrupt_mid_transmission_is_latched_not_interleaved() {
    // the periodic task is mid-way through writing the outbound query,
    // holding the serial link, when a serial byte arrives
    let mut d = Dispatcher::new(1, 1);
    assert_eq!(d.interrupt(IrqSource::TimerUpdate), Decision::Started(TaskId::Periodic));
    d.lock(Resource::SerialLink);

    let mut wire: Vec<u8> = Vec::new();
    let query = status_query();
    for (i, b) in query.iter().enumerate() {
        wire.push(*b);
        if i == 5 {
            // a receive interrupt fires mid-write: it must not run now
            assert_eq!(d.interrupt(IrqSource::SerialRx), Decision::Latched);
            assert_eq!(d.running, Some(TaskId::Periodic));
            assert!(d.pending_receive);
        }
    }
    d.unlock(Resource::SerialLink);
    d.complete();

    // the outbound bytes went out contiguously, never interleaved
    assert_eq!(wire.as_slice(), b"AT+ADDRESS?\r\n");

    // only now is the latched receive task served
    assert_eq!(d.next_pending(), Some(TaskId::Receive));
    assert_eq!(d.running, Some(TaskId::Receive));
    assert!(!d.pending_receive);
}

#[test]
fn equal_priorities_never_preempt() {
    let mut d = Dispatcher::new(1, 1);
    assert_eq!(d.interrupt(IrqSource::SerialRx), Decision::Started(TaskId::Receive));
    // outside any critical section, the timer interrupt still may not preempt
    assert_eq!(d.interrupt(IrqSource::TimerUpdate), Decision::Latched);
    assert_eq!(d.running, Some(TaskId::Receive));
    assert!(d.pending_periodic);
}

#[test]
fn higher_priority_preempts_outside_critical_sections() {
    let mut d = Dispatcher::new(2, 1);
    assert_eq!(d.interrupt(IrqSource::TimerUpdate), Decision::Started(TaskId::Periodic));
    assert_eq!(d.interrupt(IrqSource::SerialRx), Decision::Started(TaskId::Receive));
    assert_eq!(d.running, Some(TaskId::Receive));
    assert_eq!(d.preempted, Some(TaskId::Periodic));
    // when the receive handler completes, the periodic task resumes
    d.complete();
    assert_eq!(d.running, Some(TaskId::Periodic));
    assert_eq!(d.preempted, None);
}

#[test]
fn higher_priority_is_latched_inside_a_critical_section() {
    let mut d = Dispatcher::new(2, 1);
    assert_eq!(d.interrupt(IrqSource::TimerUpdate), Decision::Started(TaskId::Periodic));
    d.lock(Resource::SerialLink);
    // even the strictly higher-priority receive task may not preempt now
    assert_eq!(d.interrupt(IrqSource::SerialRx), Decision::Latched);
    assert_eq!(d.running, Some(TaskId::Periodic));
    d.unlock(Resource::SerialLink);
    d.complete();
    assert_eq!(d.next_pending(), Some(TaskId::Receive));
}

#[test]
fn handlers_are_not_reentrant() {
    let mut d = Dispatcher::new(1, 1);
    assert_eq!(d.interrupt(IrqSource::SerialRx), Decision::Started(TaskId::Receive));
    // a second serial interrupt while its own handler runs is deferred
    assert_eq!(d.interrupt(IrqSource::SerialRx), Decision::Latched);
    assert_eq!(d.running, Some(TaskId::Receive));
    assert!(d.pending_receive);
    d.complete();
    assert_eq!(d.next_pending(), Some(TaskId::Receive));
}

#[test]
fn nested_lock_order_is_serial_then_buffer_then_display() {
    let mut d = Dispatcher::new(1, 1);
    assert_eq!(d.interrupt(IrqSource::SerialRx), Decision::Started(TaskId::Receive));
    d.lock(Resource::SerialLink);
    d.lock(Resource::ReceiveBuffer);
    d.lock(Resource::Display);
    // every held resource belongs to the one running task
    assert_eq!(d.held_serial, Some(TaskId::Receive));
    assert_eq!(d.held_buffer, Some(TaskId::Receive));
    assert_eq!(d.held_display, Some(TaskId::Receive));
    // releases inner-first: the outer lock is never dropped before the inner
    d.unlock(Resource::Display);
    d.unlock(Resource::ReceiveBuffer);
    d.unlock(Resource::SerialLink);
    d.complete();
    assert_eq!(d.running, None);
}

#[test]
fn pending_tasks_are_served_by_priority() {
    let mut d = Dispatcher::new(1, 2);
    assert_eq!(d.interrupt(IrqSource::TimerUpdate), Decision::Started(TaskId::Periodic));
    assert_eq!(d.interrupt(IrqSource::SerialRx), Decision::Latched);
    assert_eq!(d.interrupt(IrqSource::TimerUpdate), Decision::Latched);
    d.complete();
    // the periodic task outranks the receive task here, so it is served first
    assert_eq!(d.next_pending(), Some(TaskId::Periodic));
    d.complete();
    assert_eq!(d.next_pending(), Some(TaskId::Receive));
    d.complete();
    assert_eq!(d.next_pending(), None);
}

#[test]
fn liveness_indicator_toggles() {
    let mut led = Liveness::new();
    assert!(!led.level());
    led.toggle();
    assert!(led.level());
    led.toggle();
    assert!(!led.level());
}
