use std::ops::{Deref, DerefMut};

use termion_raw2::sys::{raw_terminal_attr, Termios};
use termion_raw2::{IntoRawMode, RawTerminal};

/// A terminal that takes on whatever is applied to it, unless told to fail.
struct Device {
    live: Termios,
    applied: usize,
}

impl Device {
    fn query(&self) -> (i32, Termios) {
        (0, self.live)
    }

    fn apply(&mut self, ios: Termios) -> i32 {
        self.live = ios;
        self.applied += 1;
        0
    }
}

fn cooked() -> Termios {
    let mut c_cc = [0u8; 32];
    c_cc[0] = 3;
    c_cc[5] = 7;
    c_cc[6] = 9;
    Termios {
        c_iflag: 0x4500,
        c_oflag: 0x0005,
        c_cflag: 0x00bf,
        c_lflag: 0x8a3b,
        c_line: 0,
        c_cc,
        c_ispeed: 15,
        c_ospeed: 15,
    }
}

fn raw_of(t: Termios) -> Termios {
    let mut ios = t;
    raw_terminal_attr(&mut ios);
    ios
}

fn enter(device: &mut Device, output: Vec<u8>) -> RawTerminal<Vec<u8>> {
    let (status, ios) = device.query();
    let entering = output.into_raw_mode(status, ios).unwrap();
    let status = device.apply(entering.attributes());
    entering.finish(status).unwrap()
}

fn suspend(device: &mut Device, guard: &RawTerminal<Vec<u8>>) {
    let status = device.apply(guard.suspend_raw_mode());
    assert_eq!(status, 0);
}

fn activate(device: &mut Device, guard: &RawTerminal<Vec<u8>>) {
    let (status, ios) = device.query();
    let raw = guard.activate_raw_mode(status, ios).unwrap();
    assert_eq!(device.apply(raw), 0);
}

fn end(device: &mut Device, guard: RawTerminal<Vec<u8>>) -> Vec<u8> {
    let (ios, output) = guard.restore();
    device.apply(ios);
    output
}

#[test]
fn enter_suspend_activate_drop() {
    let a = cooked();
    let mut device = Device { live: a, applied: 0 };
    let guard = enter(&mut device, Vec::new());
    assert_eq!(device.live, raw_of(a));
    assert_eq!(device.live.c_lflag, 0x0a30);
    suspend(&mut device, &guard);
    assert_eq!(device.live, a);
    activate(&mut device, &guard);
    assert_eq!(device.live, raw_of(a));
    end(&mut device, guard);
    assert_eq!(device.live, a);
}

#[test]
fn round_trip() {
    let a = cooked();
    let mut device = Device { live: a, applied: 0 };
    let guard = enter(&mut device, Vec::new());
    assert_ne!(device.live, a);
    end(&mut device, guard);
    assert_eq!(device.live, a);
    assert_eq!(device.applied, 2);
}

#[test]
fn suspend_twice_is_suspend_once() {
    let a = cooked();
    let mut device = Device { live: a, applied: 0 };
    let guard = enter(&mut device, Vec::new());
    suspend(&mut device, &guard);
    let once = device.live;
    suspend(&mut device, &guard);
    assert_eq!(device.live, once);
    assert_eq!(once, a);
}

#[test]
fn activate_twice_is_activate_once() {
    let a = cooked();
    let mut device = Device { live: a, applied: 0 };
    let guard = enter(&mut device, Vec::new());
    suspend(&mut device, &guard);
    activate(&mut device, &guard);
    let once = device.live;
    activate(&mut device, &guard);
    assert_eq!(device.live, once);
    assert_eq!(once, raw_of(a));
}

#[test]
fn activate_starts_from_what_the_terminal_holds() {
    let a = cooked();
    let mut device = Device { live: a, applied: 0 };
    let guard = enter(&mut device, Vec::new());
    let mut other = a;
    other.c_oflag = 0x0105;
    other.c_ispeed = 13;
    device.live = other;
    activate(&mut device, &guard);
    assert_eq!(device.live, raw_of(other));
    assert_eq!(device.live.c_oflag, 0x0104);
    assert_ne!(device.live, raw_of(a));
    end(&mut device, guard);
    assert_eq!(device.live, a);
}

#[test]
fn suspend_brings_back_what_was_saved() {
    let a = cooked();
    let mut device = Device { live: a, applied: 0 };
    let guard = enter(&mut device, Vec::new());
    let mut other = a;
    other.c_lflag = 0;
    device.live = other;
    suspend(&mut device, &guard);
    assert_eq!(device.live, a);
}

#[test]
fn restore_after_many_cycles() {
    let a = cooked();
    let mut device = Device { live: a, applied: 0 };
    let guard = enter(&mut device, Vec::new());
    for _ in 0..5 {
        suspend(&mut device, &guard);
        assert_eq!(device.live, a);
        activate(&mut device, &guard);
        assert_eq!(device.live, raw_of(a));
    }
    let before_end = device.applied;
    end(&mut device, guard);
    assert_eq!(device.applied, before_end + 1);
    assert_eq!(device.live, a);
}

#[test]
fn failed_query_gives_no_guard() {
    let a = cooked();
    let device = Device { live: a, applied: 0 };
    let r = vec![1u8].into_raw_mode(-1, a);
    assert!(r.is_err());
    assert_eq!(device.live, a);
    assert_eq!(device.applied, 0);
}

#[test]
fn failed_apply_gives_no_guard() {
    let a = cooked();
    let entering = vec![1u8].into_raw_mode(0, a).unwrap();
    assert_eq!(entering.attributes(), raw_of(a));
    assert!(entering.finish(-1).is_err());
}

#[test]
fn entry_on_other_status_codes_succeeds() {
    let a = cooked();
    let entering = vec![1u8].into_raw_mode(3, a).unwrap();
    let guard = entering.finish(-2).unwrap();
    assert_eq!(guard.suspend_raw_mode(), a);
}

#[test]
fn failed_query_on_activate() {
    let a = cooked();
    let mut device = Device { live: a, applied: 0 };
    let guard = enter(&mut device, Vec::new());
    assert!(guard.activate_raw_mode(-1, a).is_err());
    assert_eq!(guard.activate_raw_mode(0, a).unwrap(), raw_of(a));
    assert_eq!(guard.suspend_raw_mode(), a);
}

#[test]
fn guard_hands_out_the_handle() {
    let a = cooked();
    let mut device = Device { live: a, applied: 0 };
    let mut guard = enter(&mut device, vec![1u8, 2]);
    assert_eq!(guard.deref(), &vec![1u8, 2]);
    guard.deref_mut().push(3);
    guard.extend_from_slice(&[4, 5]);
    assert_eq!(guard.len(), 5);
    assert_eq!(guard.suspend_raw_mode(), a);
    let output = end(&mut device, guard);
    assert_eq!(output, vec![1u8, 2, 3, 4, 5]);
    assert_eq!(device.live, a);
}
