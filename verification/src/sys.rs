//! Terminal attributes, the raw-mode transform, and status codes.

use vstd::prelude::*;

verus! {

/// Number of control characters in a set of attributes.
pub const NCCS: usize = 32;

/// Index of the read timeout among the control characters.
pub const VTIME: usize = 5;

/// Index of the minimum read count among the control characters.
pub const VMIN: usize = 6;

/// Input flag: ignore a break condition.
pub const IGNBRK: u32 = 0x0001;

/// Input flag: a break condition sends an interrupt.
pub const BRKINT: u32 = 0x0002;

/// Input flag: mark bytes with parity or framing errors.
pub const PARMRK: u32 = 0x0008;

/// Input flag: strip the eighth bit.
pub const ISTRIP: u32 = 0x0020;

/// Input flag: turn NL into CR.
pub const INLCR: u32 = 0x0040;

/// Input flag: ignore CR.
pub const IGNCR: u32 = 0x0080;

/// Input flag: turn CR into NL.
pub const ICRNL: u32 = 0x0100;

/// Input flag: the stop and start characters hold and release output.
pub const IXON: u32 = 0x0400;

/// Output flag: post-process output.
pub const OPOST: u32 = 0x0001;

/// Local flag: the interrupt, quit and suspend characters send signals.
pub const ISIG: u32 = 0x0001;

/// Local flag: canonical mode, in which input comes line by line.
pub const ICANON: u32 = 0x0002;

/// Local flag: echo what is typed.
pub const ECHO: u32 = 0x0008;

/// Local flag: echo NL even without `ECHO`.
pub const ECHONL: u32 = 0x0040;

/// Local flag: extended input processing.
pub const IEXTEN: u32 = 0x8000;

/// Control flags: the bits that hold the character size.
pub const CSIZE: u32 = 0x0030;

/// Control flags: a character size of eight bits.
pub const CS8: u32 = 0x0030;

/// Control flag: generate and check parity.
pub const PARENB: u32 = 0x0100;

/// A snapshot of a terminal's attributes, laid out as Linux has them on x86,
/// ARM and RISC-V. The flag and index constants of this module are the values
/// of those platforms.
#[derive(Clone, Copy, Debug, PartialEq, Eq)]
pub struct Termios {
    pub c_iflag: u32,
    pub c_oflag: u32,
    pub c_cflag: u32,
    pub c_lflag: u32,
    pub c_line: u8,
    pub c_cc: [u8; NCCS],
    pub c_ispeed: u32,
    pub c_ospeed: u32,
}

/// What a `Termios` holds, as a mathematical value.
pub ghost struct Attributes {
    pub iflag: u32,
    pub oflag: u32,
    pub cflag: u32,
    pub lflag: u32,
    pub line: u8,
    pub cc: Seq<u8>,
    pub ispeed: u32,
    pub ospeed: u32,
}

impl View for Termios {
    type V = Attributes;

    open spec fn view(&self) -> Attributes {
        Attributes {
            iflag: self.c_iflag,
            oflag: self.c_oflag,
            cflag: self.c_cflag,
            lflag: self.c_lflag,
            line: self.c_line,
            cc: self.c_cc@,
            ispeed: self.c_ispeed,
            ospeed: self.c_ospeed,
        }
    }
}

/// The input flags that raw mode switches off: break handling, parity
/// marking, stripping of the eighth bit, every mapping between CR and NL, and
/// output flow control.
pub open spec fn raw_iflag_off() -> u32 {
    IGNBRK | BRKINT | PARMRK | ISTRIP | INLCR | IGNCR | ICRNL | IXON
}

/// The local flags that raw mode switches off: echo, canonical input, signal
/// characters and extended input processing.
pub open spec fn raw_lflag_off() -> u32 {
    ECHO | ECHONL | ICANON | ISIG | IEXTEN
}

/// The raw variant of a set of attributes: input is not translated, output is
/// not post-processed, there is no canonical mode, echo or signal character,
/// characters have eight bits without parity, and a read returns as soon as
/// one byte is there. Everything else is kept.
pub open spec fn make_raw(a: Attributes) -> Attributes {
    Attributes {
        iflag: a.iflag & !raw_iflag_off(),
        oflag: a.oflag & !OPOST,
        cflag: (a.cflag & !(CSIZE | PARENB)) | CS8,
        lflag: a.lflag & !raw_lflag_off(),
        line: a.line,
        cc: Seq::new(
            a.cc.len(),
            |i: int|
                if i == VMIN {
                    1u8
                } else if i == VTIME {
                    0u8
                } else {
                    a.cc[i]
                },
        ),
        ispeed: a.ispeed,
        ospeed: a.ospeed,
    }
}

/// Turns a set of attributes into its raw variant, in place.
pub fn raw_terminal_attr(termios: &mut Termios)
    ensures
        final(termios)@ == make_raw(old(termios)@),
{
    termios.c_iflag = termios.c_iflag & !(IGNBRK | BRKINT | PARMRK | ISTRIP | INLCR | IGNCR | ICRNL | IXON);
    termios.c_oflag = termios.c_oflag & !OPOST;
    termios.c_lflag = termios.c_lflag & !(ECHO | ECHONL | ICANON | ISIG | IEXTEN);
    termios.c_cflag = (termios.c_cflag & !(CSIZE | PARENB)) | CS8;
    termios.c_cc[VMIN] = 1;
    termios.c_cc[VTIME] = 0;
    assert(termios@.cc =~= make_raw(old(termios)@).cc);
}

/// In the raw variant every flag that raw mode switches off is off, the
/// character size is eight bits, a read waits for one byte and for no time,
/// and no other flag has changed.
pub proof fn lemma_make_raw_switches(a: Attributes)
    ensures
        make_raw(a).iflag & raw_iflag_off() == 0,
        make_raw(a).oflag & OPOST == 0,
        make_raw(a).lflag & raw_lflag_off() == 0,
        make_raw(a).cflag & PARENB == 0,
        make_raw(a).cflag & CSIZE == CS8,
        make_raw(a).iflag | raw_iflag_off() == a.iflag | raw_iflag_off(),
        make_raw(a).oflag | OPOST == a.oflag | OPOST,
        make_raw(a).lflag | raw_lflag_off() == a.lflag | raw_lflag_off(),
        make_raw(a).cflag | CSIZE | PARENB == a.cflag | CSIZE | PARENB,
        make_raw(a).cc.len() == a.cc.len(),
        VMIN < a.cc.len() ==> make_raw(a).cc[VMIN as int] == 1,
        VTIME < a.cc.len() ==> make_raw(a).cc[VTIME as int] == 0,
{
    let i = a.iflag;
    let o = a.oflag;
    let c = a.cflag;
    let l = a.lflag;
    let mi = raw_iflag_off();
    let ml = raw_lflag_off();
    assert((i & !mi) & mi == 0 && (i & !mi) | mi == i | mi) by (bit_vector);
    assert((l & !ml) & ml == 0 && (l & !ml) | ml == l | ml) by (bit_vector);
    assert((o & !OPOST) & OPOST == 0 && (o & !OPOST) | OPOST == o | OPOST) by (bit_vector);
    assert({
        let r = (c & !(CSIZE | PARENB)) | CS8;
        r & PARENB == 0 && r & CSIZE == CS8 && r | CSIZE | PARENB == c | CSIZE | PARENB
    }) by (bit_vector);
}

/// Making raw what is raw already changes nothing.
pub proof fn lemma_make_raw_idempotent(a: Attributes)
    ensures
        make_raw(make_raw(a)) == make_raw(a),
{
    let i = a.iflag;
    let o = a.oflag;
    let c = a.cflag;
    let l = a.lflag;
    let mi = raw_iflag_off();
    let ml = raw_lflag_off();
    assert((i & !mi) & !mi == i & !mi) by (bit_vector);
    assert((l & !ml) & !ml == l & !ml) by (bit_vector);
    assert((o & !OPOST) & !OPOST == o & !OPOST) by (bit_vector);
    assert((((c & !(CSIZE | PARENB)) | CS8) & !(CSIZE | PARENB)) | CS8 == (c & !(CSIZE | PARENB))
        | CS8) by (bit_vector);
    assert(make_raw(make_raw(a)).cc =~= make_raw(a).cc);
}

/// `std::io::Error`, the error that a failed system call gives. The proofs see
/// nothing inside it.
#[verifier::external_type_specification]
#[verifier::external_body]
pub struct ExIoError(std::io::Error);

/// Calls `std::io::Error::last_os_error`, which reads the error code that the
/// last failed system call of this thread left behind. The result depends on
/// that call, so nothing is claimed of it.
#[verifier::external_body]
fn last_os_error() -> std::io::Error {
    std::io::Error::last_os_error()
}

/// Status codes of system calls: the signed integers, of which `-1` reports a
/// failure.
pub trait IsMinusOne: Sized {
    /// Whether the value is `-1`.
    spec fn minus_one(&self) -> bool;

    fn is_minus_one(&self) -> (r: bool)
        ensures
            r == self.minus_one(),
    ;
}

impl IsMinusOne for i8 {
    open spec fn minus_one(&self) -> bool {
        *self == -1
    }

    fn is_minus_one(&self) -> (r: bool) {
        *self == -1
    }
}

impl IsMinusOne for i16 {
    open spec fn minus_one(&self) -> bool {
        *self == -1
    }

    fn is_minus_one(&self) -> (r: bool) {
        *self == -1
    }
}

impl IsMinusOne for i32 {
    open spec fn minus_one(&self) -> bool {
        *self == -1
    }

    fn is_minus_one(&self) -> (r: bool) {
        *self == -1
    }
}

impl IsMinusOne for i64 {
    open spec fn minus_one(&self) -> bool {
        *self == -1
    }

    fn is_minus_one(&self) -> (r: bool) {
        *self == -1
    }
}

impl IsMinusOne for isize {
    open spec fn minus_one(&self) -> bool {
        *self == -1
    }

    fn is_minus_one(&self) -> (r: bool) {
        *self == -1
    }
}

/// Turns the status code of a system call into a result: `-1` becomes the
/// error that the operating system reports for this thread, every other code
/// is handed back. Call it right after the system call, before anything else
/// can overwrite the thread's error code.
pub fn cvt<T: IsMinusOne>(t: T) -> (r: Result<T, std::io::Error>)
    ensures
        r is Err <==> t.minus_one(),
        r matches Ok(v) ==> v == t,
{
    if t.is_minus_one() {
        Err(last_os_error())
    } else {
        Ok(t)
    }
}

/// Concludes a query of a terminal's attributes. `status` is what the system
/// call returned and `termios` what it wrote; the attributes count only if the
/// call did not fail.
pub fn get_terminal_attr(status: i32, termios: Termios) -> (r: Result<Termios, std::io::Error>)
    ensures
        r is Err <==> status == -1,
        r matches Ok(t) ==> t == termios,
{
    match cvt(status) {
        Ok(_) => Ok(termios),
        Err(e) => Err(e),
    }
}

/// Concludes an attempt to apply attributes to a terminal, of which `status`
/// is what the system call returned.
pub fn set_terminal_attr(status: i32) -> (r: Result<(), std::io::Error>)
    ensures
        r is Err <==> status == -1,
{
    match cvt(status) {
        Ok(_) => Ok(()),
        Err(e) => Err(e),
    }
}

} // verus!
