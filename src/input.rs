use vstd::prelude::*;

use crate::invaders::{Machine, MachineModel};

verus! {

/// The cabinet's controls.
#[derive(Clone, Copy, Debug, PartialEq, Eq, Structural)]
pub enum Key {
    Coin,
    P1Start,
    P2Start,
    P1Left,
    P1Right,
    P1Fire,
    P2Left,
    P2Right,
    P2Fire,
}

/// The input port that carries a control (1 or 2).
pub open spec fn key_port(k: Key) -> u8 {
    match k {
        Key::P2Left | Key::P2Right | Key::P2Fire => 2,
        _ => 1,
    }
}

/// The bit of its port that a control sets.
pub open spec fn key_mask(k: Key) -> u8 {
    match k {
        Key::Coin => 0x01,
        Key::P2Start => 0x02,
        Key::P1Start => 0x04,
        Key::P1Fire | Key::P2Fire => 0x10,
        Key::P1Left | Key::P2Left => 0x20,
        Key::P1Right | Key::P2Right => 0x40,
    }
}

/// The input ports after a control is pressed (`down`) or released.
pub open spec fn key_model(m: MachineModel, k: Key, down: bool) -> MachineModel {
    let mask = key_mask(k);
    if key_port(k) == 1 {
        MachineModel {
            in_port1: if down {
                m.in_port1 | mask
            } else {
                m.in_port1 & !mask
            },
            ..m
        }
    } else {
        MachineModel {
            in_port2: if down {
                m.in_port2 | mask
            } else {
                m.in_port2 & !mask
            },
            ..m
        }
    }
}

/// The port and bit of a control.
pub fn key_binding(k: Key) -> (r: (u8, u8))
    ensures
        r == (key_port(k), key_mask(k)),
{
    match k {
        Key::Coin => (1, 0x01),
        Key::P2Start => (1, 0x02),
        Key::P1Start => (1, 0x04),
        Key::P1Fire => (1, 0x10),
        Key::P1Left => (1, 0x20),
        Key::P1Right => (1, 0x40),
        Key::P2Fire => (2, 0x10),
        Key::P2Left => (2, 0x20),
        Key::P2Right => (2, 0x40),
    }
}

/// A control pressed (`down`) or released: its bit set or cleared.
pub fn key_event(machine: &mut Machine, k: Key, down: bool)
    ensures
        final(machine)@ == key_model(old(machine)@, k, down),
{
    let (port, mask) = key_binding(k);
    if port == 1 {
        machine.in_port1 = if down {
            machine.in_port1 | mask
        } else {
            machine.in_port1 & !mask
        };
    } else {
        machine.in_port2 = if down {
            machine.in_port2 | mask
        } else {
            machine.in_port2 & !mask
        };
    }
}

} // verus!
