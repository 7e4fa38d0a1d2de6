//! How a transfer's sizes and times read in a row of the downloads list.

use vstd::prelude::*;
use crate::download::{DownloadItem, ItemView};
use crate::text::{decimal, digit_char, push_decimal, push_str, string_of};

verus! {

/// The bytes in a kilobyte.
pub const KB: u64 = 1024;

/// The bytes in a megabyte.
pub const MB: u64 = 1048576;

/// The bytes in a gigabyte.
pub const GB: u64 = 1073741824;

/// `n / d`, rounded to the nearest whole number, and to the even one of two
/// that are equally near.
pub open spec fn round_half_even(n: nat, d: nat) -> nat
    recommends
        d > 0,
{
    let q = n / d;
    let r = n % d;
    if 2 * r > d || (2 * r == d && q % 2 == 1) {
        q + 1
    } else {
        q
    }
}

/// The distance between neighbouring double-precision numbers around `n`:
/// such a number has 53 significant bits, so every whole number below 2^53
/// is one, and above that only every second, every fourth and so on.
pub open spec fn float_unit(n: nat) -> nat {
    if n < 0x20_0000_0000_0000 {
        1
    } else if n < 0x40_0000_0000_0000 {
        2
    } else if n < 0x80_0000_0000_0000 {
        4
    } else if n < 0x100_0000_0000_0000 {
        8
    } else if n < 0x200_0000_0000_0000 {
        16
    } else if n < 0x400_0000_0000_0000 {
        32
    } else if n < 0x800_0000_0000_0000 {
        64
    } else if n < 0x1000_0000_0000_0000 {
        128
    } else if n < 0x2000_0000_0000_0000 {
        256
    } else if n < 0x4000_0000_0000_0000 {
        512
    } else if n < 0x8000_0000_0000_0000 {
        1024
    } else {
        2048
    }
}

/// The double-precision number nearest to `n`, which is a whole number.
pub open spec fn nearest_float(n: nat) -> nat {
    round_half_even(n, float_unit(n)) * float_unit(n)
}

/// A size in tenths of the unit `unit`, rounded as a double-precision
/// quotient is when it is printed with one decimal.
pub open spec fn tenths_of(bytes: nat, unit: nat) -> nat {
    round_half_even(nearest_float(bytes) * 10, unit)
}

/// A number of tenths, written with one decimal.
pub open spec fn one_decimal(tenths: nat) -> Seq<char> {
    decimal(tenths / 10) + seq!['.', digit_char(tenths % 10)]
}

/// A size in bytes, human readable: in GB or MB with one decimal, in KB
/// rounded to a whole number, or in bytes.
pub open spec fn bytes_text(bytes: u64) -> Seq<char> {
    if bytes >= GB {
        one_decimal(tenths_of(bytes as nat, GB as nat)) + " GB"@
    } else if bytes >= MB {
        one_decimal(tenths_of(bytes as nat, MB as nat)) + " MB"@
    } else if bytes >= KB {
        decimal(round_half_even(bytes as nat, KB as nat)) + " KB"@
    } else {
        decimal(bytes as nat) + " B"@
    }
}

/// A duration in seconds, human readable: hours and minutes, minutes and
/// seconds, or seconds.
pub open spec fn duration_text(secs: u64) -> Seq<char> {
    if secs >= 3600 {
        decimal((secs / 3600) as nat) + "h "@ + decimal(((secs % 3600) / 60) as nat) + "m"@
    } else if secs >= 60 {
        decimal((secs / 60) as nat) + "m "@ + decimal((secs % 60) as nat) + "s"@
    } else {
        decimal(secs as nat) + "s"@
    }
}

fn rounded_quotient(n: u128, d: u128) -> (q: u128)
    requires
        0 < d <= u64::MAX,
        n < 0x1_0000_0000_0000_0000_0000,
    ensures
        q == round_half_even(n as nat, d as nat),
{
    let q = n / d;
    let r = n % d;
    if 2 * r > d || (2 * r == d && q % 2 == 1) {
        q + 1
    } else {
        q
    }
}

fn unit_around(n: u64) -> (unit: u64)
    ensures
        unit == float_unit(n as nat),
        1 <= unit <= 2048,
{
    if n < 0x20_0000_0000_0000 {
        1
    } else if n < 0x40_0000_0000_0000 {
        2
    } else if n < 0x80_0000_0000_0000 {
        4
    } else if n < 0x100_0000_0000_0000 {
        8
    } else if n < 0x200_0000_0000_0000 {
        16
    } else if n < 0x400_0000_0000_0000 {
        32
    } else if n < 0x800_0000_0000_0000 {
        64
    } else if n < 0x1000_0000_0000_0000 {
        128
    } else if n < 0x2000_0000_0000_0000 {
        256
    } else if n < 0x4000_0000_0000_0000 {
        512
    } else if n < 0x8000_0000_0000_0000 {
        1024
    } else {
        2048
    }
}

fn tenths(bytes: u64, unit: u64) -> (t: u128)
    requires
        unit > 0,
    ensures
        t == tenths_of(bytes as nat, unit as nat),
{
    let step = unit_around(bytes);
    let steps = rounded_quotient(bytes as u128, step as u128);
    assert(steps <= bytes + 1);
    assert(steps * step <= 0x1_0000_0000_0000_0000 * 2048) by (nonlinear_arith)
        requires
            steps <= 0x1_0000_0000_0000_0000,
            step <= 2048,
    ;
    let nearest = steps * (step as u128);
    rounded_quotient(nearest * 10, unit as u128)
}

fn push_one_decimal(out: &mut Vec<char>, tenths: u128)
    requires
        tenths <= u64::MAX,
    ensures
        final(out)@ == old(out)@ + one_decimal(tenths as nat),
{
    push_decimal(out, (tenths / 10) as u64);
    out.push('.');
    let d: u8 = (tenths % 10) as u8;
    out.push((48u8 + d) as char);
    assert(out@ =~= old(out)@ + one_decimal(tenths as nat));
}

/// Format bytes as human readable string (KB, MB, GB).
pub fn format_bytes(bytes: u64) -> (text: String)
    ensures
        text@ == bytes_text(bytes),
{
    let mut out: Vec<char> = Vec::new();
    if bytes >= GB {
        let t = tenths(bytes, GB);
        assert(t <= u64::MAX) by {
            lemma_tenths_bound(bytes as nat, GB as nat);
        }
        push_one_decimal(&mut out, t);
        push_str(&mut out, " GB");
    } else if bytes >= MB {
        let t = tenths(bytes, MB);
        assert(t <= u64::MAX) by {
            lemma_tenths_bound(bytes as nat, MB as nat);
        }
        push_one_decimal(&mut out, t);
        push_str(&mut out, " MB");
    } else if bytes >= KB {
        let q = rounded_quotient(bytes as u128, KB as u128);
        push_decimal(&mut out, q as u64);
        push_str(&mut out, " KB");
    } else {
        push_decimal(&mut out, bytes);
        push_str(&mut out, " B");
    }
    assert(out@ =~= bytes_text(bytes));
    string_of(&out)
}

/// A size in tenths of a unit of 1024 bytes or more fits 64 bits.
proof fn lemma_tenths_bound(bytes: nat, unit: nat)
    requires
        bytes <= u64::MAX,
        unit >= 1024,
    ensures
        tenths_of(bytes, unit) <= u64::MAX,
{
    let step = float_unit(bytes);
    let steps = round_half_even(bytes, step);
    assert(steps <= bytes / step + 1);
    assert((bytes / step) * step <= bytes) by (nonlinear_arith)
        requires
            step > 0,
    ;
    assert(steps * step <= bytes + step) by (nonlinear_arith)
        requires
            steps <= bytes / step + 1,
            (bytes / step) * step <= bytes,
            step > 0,
    ;
    let nearest = steps * step;
    assert(nearest <= 0x1_0000_0000_0000_0000 + 2048);
    assert((nearest * 10) / unit <= (nearest * 10) / 1024) by (nonlinear_arith)
        requires
            unit >= 1024,
    ;
}

/// Format duration in seconds as human readable string.
pub fn format_duration(secs: u64) -> (text: String)
    ensures
        text@ == duration_text(secs),
{
    let mut out: Vec<char> = Vec::new();
    if secs >= 3600 {
        push_decimal(&mut out, secs / 3600);
        push_str(&mut out, "h ");
        push_decimal(&mut out, (secs % 3600) / 60);
        push_str(&mut out, "m");
    } else if secs >= 60 {
        push_decimal(&mut out, secs / 60);
        push_str(&mut out, "m ");
        push_decimal(&mut out, secs % 60);
        push_str(&mut out, "s");
    } else {
        push_decimal(&mut out, secs);
        push_str(&mut out, "s");
    }
    assert(out@ =~= duration_text(secs));
    string_of(&out)
}

impl ItemView {
    /// The estimated time remaining, in seconds. `estimate` is the time
    /// that the remaining bytes take at the speed seen so far, where a speed
    /// has been seen.
    pub open spec fn eta(self, estimate: Option<u64>) -> Option<u64> {
        if !self.is_active() || self.total_bytes == 0 {
            None
        } else if self.remaining_bytes() == 0 {
            Some(0)
        } else {
            estimate
        }
    }

    /// The estimated time remaining, human readable.
    pub open spec fn eta_text(self, estimate: Option<u64>) -> Seq<char> {
        match self.eta(estimate) {
            Some(secs) => if secs == 0 {
                "finishing..."@
            } else {
                duration_text(secs)
            },
            None => "calculating..."@,
        }
    }

    /// Received and total size, human readable; the received size alone
    /// while the total is not known.
    pub open spec fn size_text(self) -> Seq<char> {
        if self.total_bytes > 0 {
            bytes_text(self.received_bytes) + " / "@ + bytes_text(self.total_bytes)
        } else {
            bytes_text(self.received_bytes)
        }
    }
}

impl DownloadItem {
    /// Get estimated time remaining in seconds: none for a transfer that is
    /// not in progress or whose size is not known, 0 once nothing remains,
    /// and else `estimate`, the time that the remaining bytes take at the
    /// speed seen so far (`None` while no speed is known).
    pub fn eta_seconds(&self, estimate: Option<u64>) -> (eta: Option<u64>)
        ensures
            eta == self@.eta(estimate),
    {
        if !self.is_active() || self.total_bytes == 0 {
            return None;
        }
        let remaining_bytes = if self.total_bytes >= self.received_bytes {
            self.total_bytes - self.received_bytes
        } else {
            0
        };
        if remaining_bytes == 0 {
            return Some(0);
        }
        estimate
    }

    /// Format ETA as human readable string.
    pub fn eta_string(&self, estimate: Option<u64>) -> (text: String)
        ensures
            text@ == self@.eta_text(estimate),
    {
        match self.eta_seconds(estimate) {
            Some(secs) => if secs == 0 {
                "finishing...".to_owned()
            } else {
                format_duration(secs)
            },
            None => "calculating...".to_owned(),
        }
    }

    /// Format received/total as human readable string.
    pub fn size_string(&self) -> (text: String)
        ensures
            text@ == self@.size_text(),
    {
        if self.total_bytes > 0 {
            let mut out: Vec<char> = Vec::new();
            push_str(&mut out, format_bytes(self.received_bytes).as_str());
            push_str(&mut out, " / ");
            push_str(&mut out, format_bytes(self.total_bytes).as_str());
            assert(out@ =~= self@.size_text());
            string_of(&out)
        } else {
            format_bytes(self.received_bytes)
        }
    }
}

} // verus!
