//! The counter that numbers monitors and their notices.
use vstd::prelude::*;

use crate::text::to_decimal;

verus! {

/// The number that follows `n`, starting over at zero after the last one.
pub open spec fn successor(n: u64) -> u64 {
    if n == u64::MAX {
        0
    } else {
        (n + 1) as u64
    }
}

/// The number that a counter at `start` hands out after `k` others.
pub open spec fn drawn(start: u64, k: nat) -> u64
    decreases k,
{
    if k == 0 {
        start
    } else {
        successor(drawn(start, (k - 1) as nat))
    }
}

/// The name under which a numbered notice is known to the session.
pub open spec fn sub_id(n: u64) -> Seq<char> {
    "monitor-"@ + crate::text::decimal(n as nat)
}

/// Hands out consecutive numbers. One counter serves every monitor of a
/// process, so that a monitor and each notice of any monitor has a number of
/// its own.
pub struct MonitorSeq {
    next: u64,
}

impl View for MonitorSeq {
    type V = u64;

    /// The number handed out next.
    closed spec fn view(&self) -> u64 {
        self.next
    }
}

impl MonitorSeq {
    /// A counter that starts at zero.
    pub fn new() -> (res: MonitorSeq)
        ensures
            res@ == 0,
    {
        MonitorSeq { next: 0 }
    }

    /// Hands out the next number.
    pub fn draw(&mut self) -> (res: u64)
        ensures
            res == old(self)@,
            final(self)@ == successor(old(self)@),
    {
        let n = self.next;
        self.next = n.wrapping_add(1);
        n
    }
}

/// The name of notice number `n`.
pub fn format_sub_id(n: u64) -> (res: String)
    ensures
        res@ == sub_id(n),
{
    let mut res = "monitor-".to_owned();
    res.append(to_decimal(n).as_str());
    res
}

/// The counter counts, and starts over after two to the sixty-fourth numbers.
pub proof fn drawn_is_a_sum(start: u64, k: nat)
    ensures
        drawn(start, k) == (start + k) % 0x1_0000_0000_0000_0000,
    decreases k,
{
    if k > 0 {
        drawn_is_a_sum(start, (k - 1) as nat);
    }
}

/// Numbers drawn from one counter, fewer than two to the sixty-fourth draws
/// apart, differ, and so do the names made of them.
pub proof fn drawn_ids_are_unique(start: u64, i: nat, j: nat)
    requires
        i < j < i + 0x1_0000_0000_0000_0000,
    ensures
        drawn(start, i) != drawn(start, j),
        sub_id(drawn(start, i)) != sub_id(drawn(start, j)),
{
    drawn_is_a_sum(start, i);
    drawn_is_a_sum(start, j);
    sub_id_is_injective(drawn(start, i), drawn(start, j));
}

/// A monitor that was given number `n` shares it with none of the next
/// numbers handed out, as long as there are fewer than two to the sixty-fourth
/// of them, the monitor's own included.
pub proof fn monitor_number_is_its_own(n: u64, k: nat)
    requires
        k < u64::MAX,
    ensures
        drawn(successor(n), k) != n,
{
    drawn_is_a_sum(n, 1);
    drawn_is_a_sum(successor(n), k);
    assert(drawn(n, 1) == successor(drawn(n, 0)));
}

/// Two notices with the same name have the same number.
pub proof fn sub_id_is_injective(m: u64, n: u64)
    ensures
        sub_id(m) == sub_id(n) <==> m == n,
{
    let prefix = "monitor-"@;
    if sub_id(m) == sub_id(n) {
        let (a, b) = (crate::text::decimal(m as nat), crate::text::decimal(n as nat));
        assert((prefix + a).skip(prefix.len() as int) == a);
        assert((prefix + b).skip(prefix.len() as int) == b);
        crate::text::decimal_is_injective(m as nat, n as nat);
    }
}

/// The next number is one more, and zero after the last one.
pub proof fn successor_adds_one(n: u64)
    ensures
        successor(n) == (n + 1) % 0x1_0000_0000_0000_0000,
{
}

/// The name of a notice is a fixed prefix and the decimal numeral of its
/// number.
pub proof fn name_tells_the_number(n: u64)
    ensures
        sub_id(n) == "monitor-"@ + crate::text::decimal(n as nat),
{
}

} // verus!
