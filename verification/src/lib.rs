//! Raw mode for terminals, without the system calls.
//!
//! Raw mode is a state of a TTY in which input arrives byte by byte, nothing
//! typed is echoed, and output is passed on as it is. This crate holds the
//! rules of a guard that puts a terminal into raw mode and brings the previous
//! attributes back when it ends: which attributes are saved, which are applied
//! at each step, and what a failed system call leads to. The system calls
//! themselves are made by the caller, who hands their outcome in: the status
//! code, and for a query the attributes that were read.

use vstd::prelude::*;

use crate::sys::{get_terminal_attr, make_raw, raw_terminal_attr, set_terminal_attr};
use crate::sys::{Attributes, Termios};

pub mod session;
pub mod sys;

verus! {

/// A terminal restorer: it keeps the attributes that the terminal had before
/// raw mode, and the output handle that stands for the terminal. The saved
/// attributes are set once, when the guard is made, and never change. The
/// guard makes no system call of its own: whoever holds it ends it with
/// `restore` and applies what that returns.
pub struct RawTerminal<W> {
    prev_ios: Termios,
    output: W,
}

/// A terminal on its way into raw mode: its attributes have been read and
/// saved, and the raw ones wait to be applied.
pub struct Entering<W> {
    ios: Termios,
    guard: RawTerminal<W>,
}

/// Output handles that can be switched to raw mode.
pub trait IntoRawMode: Sized {
    /// First half of the switch to raw mode, after the terminal's attributes
    /// were queried: `status` is what the query returned and `ios` what it
    /// read. A failed query ends the switch with the system's error, and
    /// nothing is applied. Otherwise `ios` is saved, and its raw variant is
    /// to be applied next.
    fn into_raw_mode(self, status: i32, ios: Termios) -> (r: Result<Entering<Self>, std::io::Error>)
        ensures
            r is Err <==> status == -1,
            r matches Ok(e) ==> e.saved() == ios@ && e.raw() == make_raw(ios@) && e.handle()
                == self,
    ;
}

impl<W> IntoRawMode for W {
    fn into_raw_mode(self, status: i32, ios: Termios) -> (r: Result<Entering<W>, std::io::Error>) {
        match get_terminal_attr(status, ios) {
            Err(e) => Err(e),
            Ok(prev_ios) => {
                let mut ios = prev_ios;
                raw_terminal_attr(&mut ios);
                Ok(Entering { ios, guard: RawTerminal { prev_ios, output: self } })
            },
        }
    }
}

impl<W> Entering<W> {
    /// The attributes that the terminal had when it was queried.
    pub closed spec fn saved(&self) -> Attributes {
        self.guard.saved()
    }

    /// The raw attributes that are to be applied.
    pub closed spec fn raw(&self) -> Attributes {
        self.ios@
    }

    /// The output handle.
    pub closed spec fn handle(&self) -> W {
        self.guard.handle()
    }

    /// The attributes to apply to the terminal now.
    pub fn attributes(&self) -> (ios: Termios)
        ensures
            ios@ == self.raw(),
    {
        self.ios
    }

    /// Second half of the switch to raw mode, after `attributes` were
    /// applied, of which `status` is what the system call returned. A failure
    /// ends the switch with the system's error and leaves no guard.
    pub fn finish(self, status: i32) -> (r: Result<RawTerminal<W>, std::io::Error>)
        ensures
            r is Err <==> status == -1,
            r matches Ok(guard) ==> guard.saved() == self.saved() && guard.handle()
                == self.handle(),
    {
        match set_terminal_attr(status) {
            Err(e) => Err(e),
            Ok(_) => Ok(self.guard),
        }
    }
}

impl<W> RawTerminal<W> {
    /// The attributes that the terminal had before raw mode.
    pub closed spec fn saved(&self) -> Attributes {
        self.prev_ios@
    }

    /// The output handle.
    pub closed spec fn handle(&self) -> W {
        self.output
    }

    /// Temporarily switch back to the saved mode: the attributes to apply are the
    /// saved ones, whatever the terminal holds now. The guard stays as it is.
    pub fn suspend_raw_mode(&self) -> (ios: Termios)
        ensures
            ios@ == self.saved(),
    {
        self.prev_ios
    }

    /// Temporarily switch to raw mode, after the terminal's attributes were
    /// queried: `status` is what the query returned and `ios` what it read. A
    /// failed query gives the system's error. Otherwise the attributes to
    /// apply are the raw variant of `ios`, not of the saved attributes.
    pub fn activate_raw_mode(&self, status: i32, ios: Termios) -> (r: Result<
        Termios,
        std::io::Error,
    >)
        ensures
            r is Err <==> status == -1,
            r matches Ok(raw) ==> raw@ == make_raw(ios@),
    {
        match get_terminal_attr(status, ios) {
            Err(e) => Err(e),
            Ok(live) => {
                let mut ios = live;
                raw_terminal_attr(&mut ios);
                Ok(ios)
            },
        }
    }

    /// Ends the guard. The saved attributes are to be applied to the terminal
    /// one last time, and the handle is given back. The guard is used up, so
    /// no second restoration can come from it.
    pub fn restore(self) -> (r: (Termios, W))
        ensures
            r.0@ == self.saved(),
            r.1 == self.handle(),
    {
        (self.prev_ios, self.output)
    }
}

impl<W> std::ops::Deref for RawTerminal<W> {
    type Target = W;

    fn deref(&self) -> (r: &W)
        ensures
            *r == self.handle(),
    {
        &self.output
    }
}

impl<W> std::ops::DerefMut for RawTerminal<W> {
    fn deref_mut(&mut self) -> (r: &mut W)
        ensures
            *r == old(self).handle(),
            final(self).handle() == *final(r),
            final(self).saved() == old(self).saved(),
    {
        &mut self.output
    }
}

} // verus!
