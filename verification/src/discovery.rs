//! Device discovery: resolving a virtual terminal to a concrete device node
//! and finding the next unallocated VT. Device nodes are named `ttyv<N>` with
//! N starting at zero, while the kernel numbers VTs from one; the translation
//! between the two is fixed here and proved to be a bijection.

use vstd::prelude::*;

use crate::control::ConsoleControl;
use crate::control::ConsoleModel;
use crate::control::DiscoveryError;
use crate::control::is_lowest_free;

verus! {

/// The kernel's one-based number of the VT whose device node carries the
/// zero-based number `external`.
pub open spec fn kernel_vt_number(external: int) -> int {
    external + 1
}

/// The zero-based device-node number of the VT the kernel numbers `kernel`.
pub open spec fn external_vt_number(kernel: int) -> int {
    kernel - 1
}

/// Law: the VT-number translation is a bijection — the two directions invert
/// each other on every number, so each device node corresponds to exactly one
/// kernel VT and conversely.
pub proof fn lemma_vt_numbering_bijection(external: int, kernel: int)
    ensures
        external_vt_number(kernel_vt_number(external)) == external,
        kernel_vt_number(external_vt_number(kernel)) == kernel,
{
}

/// Law: the number handed out by the free-VT search is never one that a fresh
/// open-query immediately afterwards reports as allocated. The search leaves
/// the allocation state untouched, and over one allocation state the lowest
/// free slot is unique: a fresh query can only report the very same slot, and
/// reports it as free.
pub proof fn lemma_free_tty_not_allocated(allocated: Set<int>, external: int, fresh_query: int)
    requires
        is_lowest_free(allocated, kernel_vt_number(external)),
        is_lowest_free(allocated, fresh_query),
    ensures
        !allocated.contains(kernel_vt_number(external)),
        fresh_query == kernel_vt_number(external),
{
    let k = kernel_vt_number(external);
    if fresh_query < k {
        assert(allocated.contains(fresh_query));
    } else if k < fresh_query {
        assert(allocated.contains(k));
    }
}

/// The ASCII byte `t`.
pub const ASCII_T: u8 = 116;

/// The ASCII byte `y`.
pub const ASCII_Y: u8 = 121;

/// The ASCII byte `v`.
pub const ASCII_V: u8 = 118;

/// The ASCII byte `0`.
pub const ASCII_ZERO: u8 = 48;

/// The decimal digit `d` as an ASCII byte.
pub open spec fn decimal_digit(d: int) -> u8 {
    (ASCII_ZERO + d) as u8
}

/// The decimal representation of `n`, most significant digit first.
pub open spec fn decimal_digits(n: int) -> Seq<u8>
    decreases n,
{
    if n < 10 {
        seq![decimal_digit(n)]
    } else {
        decimal_digits(n / 10).push(decimal_digit(n % 10))
    }
}

/// The device-node name for the zero-based VT number `n`: `ttyv<n>`.
pub open spec fn tty_device_name_spec(n: int) -> Seq<u8> {
    seq![ASCII_T, ASCII_T, ASCII_Y, ASCII_V] + decimal_digits(n)
}

/// Appends the decimal representation of `n` to `out`.
fn push_decimal_digits(n: i32, out: &mut Vec<u8>)
    requires
        0 <= n,
    ensures
        final(out)@ == old(out)@ + decimal_digits(n as int),
    decreases n,
{
    if n >= 10 {
        push_decimal_digits(n / 10, out);
    }
    out.push(ASCII_ZERO + (n % 10) as u8);
    proof {
        assert(out@ =~= old(out)@ + decimal_digits(n as int));
    }
}

/// Builds the name of the device node for the zero-based VT number
/// `tty_num`: the bytes of `ttyv<tty_num>`.
pub fn tty_device_name(tty_num: i32) -> (r: Vec<u8>)
    requires
        0 <= tty_num,
    ensures
        r@ == tty_device_name_spec(tty_num as int),
{
    let mut r: Vec<u8> = Vec::new();
    r.push(ASCII_T);
    r.push(ASCII_T);
    r.push(ASCII_Y);
    r.push(ASCII_V);
    push_decimal_digits(tty_num, &mut r);
    proof {
        assert(r@ =~= tty_device_name_spec(tty_num as int));
    }
    r
}

/// Queries the kernel, over an already-open scratch handle, for the lowest
/// VT not currently allocated to any process, closes the scratch handle, and
/// returns that VT's zero-based device number. The allocation state itself is
/// left untouched. If the query fails, the error is reported as a
/// `QueryError` and the scratch handle is handed back as it was.
pub fn find_free_tty<C: ConsoleControl>(console: &mut C) -> (r: Result<i32, DiscoveryError>)
    requires
        !old(console).model().closed,
    ensures
        r is Ok ==> ({
            &&& final(console).model() == (ConsoleModel { closed: true, ..old(console).model() })
            &&& 0 <= r->Ok_0
            &&& is_lowest_free(old(console).model().allocated, kernel_vt_number(r->Ok_0 as int))
        }),
        r is Err ==> ({
            &&& final(console).model() == old(console).model()
            &&& r->Err_0 is QueryError
        }),
{
    let free_vt: i32 = match console.vt_openqry() {
        Ok(q) => q,
        Err(e) => {
            return Err(DiscoveryError::QueryError { errno: e });
        },
    };
    console.close();
    Ok(free_vt - 1)
}

} // verus!
