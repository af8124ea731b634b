use portenta_h7::channel::{Channel, Full};
use portenta_h7::command::{Action, Command, Target};
use portenta_h7::consumer::{LedPanel, StatusIndicators};
use portenta_h7::drivers::led::{Led, PinState};
use portenta_h7::enumeration::{DeviceState, EnumerationEvent};
use portenta_h7::poll::{
    forward_commands, PollDriver, COMMAND_CHANNEL_CAPACITY, EVENT_CHANNEL_CAPACITY,
};

#[test]
fn send_beyond_capacity_is_full_and_fifo_is_kept() {
    let n = 3usize;
    let mut ch: Channel<u32> = Channel::new(n);
    for m in 0..n as u32 {
        assert_eq!(ch.try_send(10 + m), Ok(()));
    }
    assert!(ch.is_full());
    assert_eq!(ch.try_send(99), Err(Full));
    assert_eq!(ch.len(), n);
    for m in 0..n as u32 {
        assert_eq!(ch.try_recv(), Some(10 + m));
    }
    assert_eq!(ch.try_recv(), None);
    assert!(ch.is_empty());
}

#[test]
fn capacity_one_holds_one_message() {
    let mut ch: Channel<EnumerationEvent> = Channel::new(1);
    assert_eq!(ch.capacity(), 1);
    assert_eq!(ch.try_send(EnumerationEvent::Complete), Ok(()));
    assert_eq!(ch.try_send(EnumerationEvent::Lost), Err(Full));
    assert_eq!(ch.try_recv(), Some(EnumerationEvent::Complete));
    assert_eq!(ch.try_send(EnumerationEvent::Lost), Ok(()));
    assert_eq!(ch.try_recv(), Some(EnumerationEvent::Lost));
}

#[test]
fn forward_drops_bad_chunks_and_trailing_byte() {
    let mut ch: Channel<Command> = Channel::new(COMMAND_CHANNEL_CAPACITY);
    forward_commands(&[0xAA, 0x01, 0x00, 0x01, 0xCC, 0x02, 0xBB], &mut ch);
    assert_eq!(ch.len(), 2);
    assert_eq!(ch.try_recv(), Some(Command { target: Target::Red, action: Action::On }));
    assert_eq!(ch.try_recv(), Some(Command { target: Target::Blue, action: Action::Off }));
    assert_eq!(ch.try_recv(), None);
}

#[test]
fn forward_drops_commands_when_full() {
    let mut ch: Channel<Command> = Channel::new(COMMAND_CHANNEL_CAPACITY);
    let packet = [0xAA, 0x01, 0xBB, 0x01, 0xCC, 0x01, 0xAA, 0x02];
    forward_commands(&packet, &mut ch);
    assert_eq!(ch.len(), 3);
    assert_eq!(ch.try_recv(), Some(Command { target: Target::Red, action: Action::On }));
    assert_eq!(ch.try_recv(), Some(Command { target: Target::Green, action: Action::On }));
    assert_eq!(ch.try_recv(), Some(Command { target: Target::Blue, action: Action::On }));
}

#[test]
fn quiet_polls_publish_nothing() {
    let mut driver = PollDriver::new();
    let mut events: Channel<EnumerationEvent> = Channel::new(EVENT_CHANNEL_CAPACITY);
    let mut commands: Channel<Command> = Channel::new(COMMAND_CHANNEL_CAPACITY);
    driver.poll_commands(&[], DeviceState::Addressed, &mut commands, &mut events);
    assert_eq!(
        driver.poll_commands(&[], DeviceState::Configured, &mut commands, &mut events),
        Some(EnumerationEvent::Complete)
    );
    assert_eq!(events.try_recv(), Some(EnumerationEvent::Complete));
    for _ in 0..10 {
        let r = driver.poll_commands(&[], DeviceState::Configured, &mut commands, &mut events);
        assert_eq!(r, None);
        assert!(events.is_empty());
        assert!(commands.is_empty());
        assert_eq!(driver.previous(), DeviceState::Configured);
    }
}

#[test]
fn driver_starts_before_addressing() {
    let mut driver = PollDriver::new();
    assert_eq!(driver.previous(), DeviceState::Default);
    let mut events: Channel<EnumerationEvent> = Channel::new(EVENT_CHANNEL_CAPACITY);
    assert_eq!(driver.observe(DeviceState::Configured, &mut events), None);
    assert_eq!(driver.observe(DeviceState::Suspend, &mut events), Some(EnumerationEvent::Lost));
    assert_eq!(events.try_recv(), Some(EnumerationEvent::Lost));
}

#[test]
fn enumeration_drives_the_ready_indicator() {
    let mut driver = PollDriver::new();
    let mut events: Channel<EnumerationEvent> = Channel::new(EVENT_CHANNEL_CAPACITY);
    let mut status = StatusIndicators::new(Led::new(1u8), Led::new(2u8));
    assert!(status.not_ready.is_on());
    assert!(!status.ready.is_on());

    assert_eq!(driver.observe(DeviceState::Addressed, &mut events), None);
    assert_eq!(
        driver.observe(DeviceState::Configured, &mut events),
        Some(EnumerationEvent::Complete)
    );
    assert_eq!(events.len(), 1);
    assert_eq!(status.service(&mut events), Some(EnumerationEvent::Complete));
    assert!(status.ready.is_on());
    assert!(!status.not_ready.is_on());
    assert_eq!(status.ready.level(), PinState::Low);
    assert_eq!(status.not_ready.level(), PinState::High);
    assert_eq!(status.service(&mut events), None);
    assert!(status.ready.is_on());
}

#[test]
fn losing_enumeration_inverts_the_indicators() {
    let mut status = StatusIndicators::new(Led::new(()), Led::new(()));
    status.handle(EnumerationEvent::Complete);
    status.handle(EnumerationEvent::Lost);
    assert!(status.not_ready.is_on());
    assert!(!status.ready.is_on());
}

#[test]
fn commands_reach_exactly_their_led() {
    let mut commands: Channel<Command> = Channel::new(COMMAND_CHANNEL_CAPACITY);
    let mut panel = LedPanel::new(Led::new('r'), Led::new('g'), Led::new('b'));
    forward_commands(&[0xBB, 0x01, 0xCC, 0x01, 0xBB, 0x02], &mut commands);
    assert!(panel.service(&mut commands).is_some());
    assert!(panel.green.is_on() && !panel.red.is_on() && !panel.blue.is_on());
    assert!(panel.service(&mut commands).is_some());
    assert!(panel.green.is_on() && panel.blue.is_on() && !panel.red.is_on());
    assert!(panel.service(&mut commands).is_some());
    assert!(!panel.green.is_on() && panel.blue.is_on() && !panel.red.is_on());
    assert_eq!(panel.service(&mut commands), None);
    assert_eq!(panel.red.pin, 'r');
}
