//! The consumer side of the mailboxes: turns messages into LED states.
//!
//! Each step takes at most one message; the task that owns the LEDs waits
//! for the next one between steps and drives the pins to `Led::level()`.

use crate::channel::Channel;
use crate::command::{Action, Command, Target};
use crate::drivers::led::Led;
use crate::enumeration::EnumerationEvent;
use vstd::prelude::*;

verus! {

/// A "not ready" and a "ready" indicator that follow enumeration events.
pub struct StatusIndicators<N, R> {
    pub not_ready: Led<N>,
    pub ready: Led<R>,
}

/// Whether the indicators show an enumerated device.
pub open spec fn shows_ready<N, R>(s: StatusIndicators<N, R>) -> bool {
    &&& !s.not_ready.is_lit()
    &&& s.ready.is_lit()
}

/// Whether the indicators show a device that is not enumerated.
pub open spec fn shows_not_ready<N, R>(s: StatusIndicators<N, R>) -> bool {
    &&& s.not_ready.is_lit()
    &&& !s.ready.is_lit()
}

/// The two indicators hold the same pins in `a` and `b`.
pub open spec fn same_pins<N, R>(a: StatusIndicators<N, R>, b: StatusIndicators<N, R>) -> bool {
    &&& a.not_ready.pin_spec() == b.not_ready.pin_spec()
    &&& a.ready.pin_spec() == b.ready.pin_spec()
}

impl<N, R> StatusIndicators<N, R> {
    /// Takes the two LEDs and shows "not ready".
    pub fn new(not_ready: Led<N>, ready: Led<R>) -> (r: Self)
        ensures
            shows_not_ready(r),
            r.not_ready.pin_spec() == not_ready.pin_spec(),
            r.ready.pin_spec() == ready.pin_spec(),
    {
        let mut s = StatusIndicators { not_ready, ready };
        s.not_ready.on();
        s.ready.off();
        s
    }

    /// Shows "ready" on `Complete` and "not ready" on `Lost`.
    pub fn handle(&mut self, event: EnumerationEvent)
        ensures
            same_pins(*old(self), *final(self)),
            event == EnumerationEvent::Complete ==> shows_ready(*final(self)),
            event == EnumerationEvent::Lost ==> shows_not_ready(*final(self)),
    {
        match event {
            EnumerationEvent::Complete => {
                self.not_ready.off();
                self.ready.on();
            },
            EnumerationEvent::Lost => {
                self.ready.off();
                self.not_ready.on();
            },
        }
    }

    /// Takes the oldest event out of `events`, if there is one, and shows it.
    pub fn service(&mut self, events: &mut Channel<EnumerationEvent>) -> (r: Option<
        EnumerationEvent,
    >)
        requires
            old(events).wf(),
        ensures
            final(events).wf(),
            final(events).capacity_spec() == old(events).capacity_spec(),
            same_pins(*old(self), *final(self)),
            old(events)@.len() == 0 ==> r is None && final(events)@ == old(events)@ && *final(self)
                == *old(self),
            old(events)@.len() > 0 ==> r == Some(old(events)@[0]) && final(events)@ == old(
                events,
            )@.drop_first(),
            r == Some(EnumerationEvent::Complete) ==> shows_ready(*final(self)),
            r == Some(EnumerationEvent::Lost) ==> shows_not_ready(*final(self)),
    {
        let r = events.try_recv();
        match r {
            Some(e) => self.handle(e),
            None => {},
        }
        r
    }
}

/// The three user LEDs, driven by LED commands.
pub struct LedPanel<R, G, B> {
    pub red: Led<R>,
    pub green: Led<G>,
    pub blue: Led<B>,
}

/// Whether a command's action lights its LED.
pub open spec fn lights(action: Action) -> bool {
    action == Action::On
}

/// The effect of `cmd` on the panel: the addressed LED is lit or dark as the
/// action says, and the other two are as they were.
pub open spec fn applied<R, G, B>(before: LedPanel<R, G, B>, after: LedPanel<R, G, B>, cmd: Command) -> bool {
    &&& after.red.is_lit() == if cmd.target == Target::Red {
        lights(cmd.action)
    } else {
        before.red.is_lit()
    }
    &&& after.green.is_lit() == if cmd.target == Target::Green {
        lights(cmd.action)
    } else {
        before.green.is_lit()
    }
    &&& after.blue.is_lit() == if cmd.target == Target::Blue {
        lights(cmd.action)
    } else {
        before.blue.is_lit()
    }
    &&& after.red.pin_spec() == before.red.pin_spec()
    &&& after.green.pin_spec() == before.green.pin_spec()
    &&& after.blue.pin_spec() == before.blue.pin_spec()
}

impl<R, G, B> LedPanel<R, G, B> {
    pub fn new(red: Led<R>, green: Led<G>, blue: Led<B>) -> (r: Self)
        ensures
            r.red == red,
            r.green == green,
            r.blue == blue,
    {
        LedPanel { red, green, blue }
    }

    /// Applies exactly the command's action to the LED it addresses.
    pub fn apply(&mut self, cmd: Command)
        ensures
            applied(*old(self), *final(self), cmd),
    {
        match (cmd.target, cmd.action) {
            (Target::Red, Action::On) => self.red.on(),
            (Target::Red, Action::Off) => self.red.off(),
            (Target::Green, Action::On) => self.green.on(),
            (Target::Green, Action::Off) => self.green.off(),
            (Target::Blue, Action::On) => self.blue.on(),
            (Target::Blue, Action::Off) => self.blue.off(),
        }
    }

    /// Takes the oldest command out of `commands`, if there is one, and
    /// applies it.
    pub fn service(&mut self, commands: &mut Channel<Command>) -> (r: Option<Command>)
        requires
            old(commands).wf(),
        ensures
            final(commands).wf(),
            final(commands).capacity_spec() == old(commands).capacity_spec(),
            old(commands)@.len() == 0 ==> r is None && final(commands)@ == old(commands)@
                && *final(self) == *old(self),
            old(commands)@.len() > 0 ==> r == Some(old(commands)@[0]) && final(commands)@ == old(
                commands,
            )@.drop_first() && applied(*old(self), *final(self), old(commands)@[0]),
    {
        let r = commands.try_recv();
        match r {
            Some(c) => self.apply(c),
            None => {},
        }
        r
    }
}

} // verus!
