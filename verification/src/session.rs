//! A terminal under a guard, as a mathematical model, and what holds of it.
//!
//! The model follows the attributes that the terminal holds while the steps
//! of a guard are carried out on it. A system call that succeeds leaves the
//! terminal with exactly the attributes that were applied; one that fails
//! leaves it as it was. Nobody else touches the terminal.

use vstd::prelude::*;

use crate::sys::{lemma_make_raw_idempotent, make_raw, Attributes};
use crate::{Entering, RawTerminal};

verus! {

/// A terminal: the attributes that it holds now, and how many times the end
/// of a guard has tried to bring the saved attributes back.
pub ghost struct Terminal {
    pub live: Attributes,
    pub restores: nat,
}

/// A use of a living guard, with the status codes of the system calls made
/// for it.
pub ghost enum Op {
    /// `suspend_raw_mode`, and the status of applying what it returned.
    Suspend { apply: i32 },
    /// `activate_raw_mode` on what a query read, with the status of the
    /// query and, where anything was applied, the status of that.
    Activate { query: i32, apply: i32 },
}

/// The attributes of a terminal that held `live` when `ios` were applied
/// with the given status.
pub open spec fn applied(live: Attributes, ios: Attributes, status: i32) -> Attributes {
    if status == -1 {
        live
    } else {
        ios
    }
}

/// The terminal after the second half of an entry: the raw attributes of
/// `entering` were applied with the given status.
pub open spec fn after_entry<W>(entering: Entering<W>, t: Terminal, apply: i32) -> Terminal {
    Terminal { live: applied(t.live, entering.raw(), apply), restores: t.restores }
}

/// The terminal after one use of the guard.
pub open spec fn after_op<W>(guard: RawTerminal<W>, t: Terminal, op: Op) -> Terminal {
    match op {
        Op::Suspend { apply } => Terminal {
            live: applied(t.live, guard.saved(), apply),
            restores: t.restores,
        },
        Op::Activate { query, apply } => Terminal {
            live: if query == -1 {
                t.live
            } else {
                applied(t.live, make_raw(t.live), apply)
            },
            restores: t.restores,
        },
    }
}

/// The terminal after a sequence of uses of the guard, first to last.
pub open spec fn after_ops<W>(guard: RawTerminal<W>, t: Terminal, ops: Seq<Op>) -> Terminal
    decreases ops.len(),
{
    if ops.len() == 0 {
        t
    } else {
        after_op(guard, after_ops(guard, t, ops.drop_last()), ops.last())
    }
}

/// The terminal after the guard has ended: what `restore` returned was
/// applied with the given status, which nobody looks at.
pub open spec fn after_restore<W>(guard: RawTerminal<W>, t: Terminal, apply: i32) -> Terminal {
    Terminal { live: applied(t.live, guard.saved(), apply), restores: t.restores + 1 }
}

/// While a guard lives, a terminal that held the saved attributes or their
/// raw variant holds one of the two after every sequence of uses, whichever
/// system calls failed on the way.
pub proof fn law_live_is_raw_or_saved<W>(guard: RawTerminal<W>, t: Terminal, ops: Seq<Op>)
    requires
        t.live == guard.saved() || t.live == make_raw(guard.saved()),
    ensures
        after_ops(guard, t, ops).live == guard.saved() || after_ops(guard, t, ops).live
            == make_raw(guard.saved()),
    decreases ops.len(),
{
    if ops.len() > 0 {
        law_live_is_raw_or_saved(guard, t, ops.drop_last());
        lemma_make_raw_idempotent(guard.saved());
    }
}

/// Uses of a living guard are no restorations: the count stays as it was.
pub proof fn law_uses_restore_nothing<W>(guard: RawTerminal<W>, t: Terminal, ops: Seq<Op>)
    ensures
        after_ops(guard, t, ops).restores == t.restores,
    decreases ops.len(),
{
    if ops.len() > 0 {
        law_uses_restore_nothing(guard, t, ops.drop_last());
    }
}

/// Round trip. A terminal holds `before`; an entry saves it and applies the
/// raw variant; the guard is used any number of times, with or without
/// failures; the guard ends, and the last system call succeeds. Then the
/// terminal holds `before` again.
pub proof fn law_round_trip<W>(
    entering: Entering<W>,
    guard: RawTerminal<W>,
    before: Attributes,
    ops: Seq<Op>,
    entry: i32,
    last: i32,
)
    requires
        entering.saved() == before,
        guard.saved() == entering.saved(),
        last != -1,
    ensures
        after_restore(
            guard,
            after_ops(guard, after_entry(entering, Terminal { live: before, restores: 0 }, entry), ops),
            last,
        ).live == before,
{
}

/// One full cycle without failures, on a terminal that holds `before`: the
/// entry leaves it raw, a suspension brings `before` back, an activation
/// leaves it raw as the entry did, and the end of the guard brings `before`
/// back again.
pub proof fn law_full_cycle<W>(entering: Entering<W>, guard: RawTerminal<W>, before: Attributes)
    requires
        entering.saved() == before,
        entering.raw() == make_raw(before),
        guard.saved() == entering.saved(),
    ensures
        ({
            let t0 = Terminal { live: before, restores: 0 };
            let t1 = after_entry(entering, t0, 0);
            let t2 = after_op(guard, t1, Op::Suspend { apply: 0 });
            let t3 = after_op(guard, t2, Op::Activate { query: 0, apply: 0 });
            let t4 = after_restore(guard, t3, 0);
            &&& t1.live == make_raw(before)
            &&& t2.live == before
            &&& t3.live == t1.live
            &&& t4.live == before
            &&& t4.restores == 1
        }),
{
}

/// Suspending twice in a row leaves the terminal as suspending once does.
pub proof fn law_suspend_idempotent<W>(guard: RawTerminal<W>, t: Terminal, first: i32, second: i32)
    requires
        first != -1,
    ensures
        after_op(
            guard,
            after_op(guard, t, Op::Suspend { apply: first }),
            Op::Suspend { apply: second },
        ) == after_op(guard, t, Op::Suspend { apply: first }),
{
}

/// Activating twice in a row leaves the terminal as activating once does:
/// the second call makes raw what the first has made raw already.
pub proof fn law_activate_idempotent<W>(
    guard: RawTerminal<W>,
    t: Terminal,
    first: Op,
    second: Op,
)
    requires
        first matches Op::Activate { query, apply } && query != -1 && apply != -1,
        second is Activate,
    ensures
        after_op(guard, after_op(guard, t, first), second) == after_op(guard, t, first),
{
    lemma_make_raw_idempotent(t.live);
}

/// Exactly one restoration. From the entry to the end of the guard the saved
/// attributes are brought back once, however many times the guard was
/// suspended and activated in between, and whatever the last system call
/// returned.
pub proof fn law_restored_once<W>(
    entering: Entering<W>,
    guard: RawTerminal<W>,
    t: Terminal,
    ops: Seq<Op>,
    entry: i32,
    last: i32,
)
    ensures
        after_restore(guard, after_ops(guard, after_entry(entering, t, entry), ops), last).restores
            == t.restores + 1,
{
    law_uses_restore_nothing(guard, after_entry(entering, t, entry), ops);
}

} // verus!
