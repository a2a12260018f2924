//! Protocol versions and the compatibility check every decoded message passes.

use vstd::prelude::*;
use vstd::string::*;

verus! {

/// The protocol version this code writes into every message it builds.
pub const VER: u64 = 26;

/// The oldest reader version that can read the messages this code builds.
pub const MIN_READER_VER: u64 = 24;

/// The oldest message version this code still reads.
pub const MIN_MSG_VER: u64 = 1;

/// A message that this program cannot decode, with the reason why.
#[derive(Debug, PartialEq, Eq)]
pub struct Incompatible {
    pub reason: String,
}

impl View for Incompatible {
    type V = Seq<char>;

    open spec fn view(&self) -> Seq<char> {
        self.reason@
    }
}

/// The character of a decimal digit.
pub open spec fn digit_char(d: nat) -> char {
    if d == 0 {
        '0'
    } else if d == 1 {
        '1'
    } else if d == 2 {
        '2'
    } else if d == 3 {
        '3'
    } else if d == 4 {
        '4'
    } else if d == 5 {
        '5'
    } else if d == 6 {
        '6'
    } else if d == 7 {
        '7'
    } else if d == 8 {
        '8'
    } else {
        '9'
    }
}

/// The decimal representation of `n`, without leading zeros.
pub open spec fn decimal(n: nat) -> Seq<char>
    decreases n,
{
    if n < 10 {
        seq![digit_char(n)]
    } else {
        decimal(n / 10).push(digit_char(n % 10))
    }
}

/// The number that a sequence of decimal digit characters stands for.
pub open spec fn digits_value(s: Seq<char>) -> int
    decreases s.len(),
{
    if s.len() == 0 {
        0
    } else {
        digits_value(s.drop_last()) * 10 + (s.last() as int - '0' as int)
    }
}

/// `decimal(n)` is the decimal representation of `n`: it is made of the
/// characters '0' to '9', stands for `n`, and starts with '0' only when it is
/// the single digit of zero.
pub proof fn law_decimal(n: nat)
    ensures
        decimal(n).len() > 0,
        forall|i: int| 0 <= i < decimal(n).len() ==> '0' <= #[trigger] decimal(n)[i] <= '9',
        digits_value(decimal(n)) == n,
        decimal(n)[0] == '0' ==> n == 0 && decimal(n).len() == 1,
    decreases n,
{
    assert(forall|d: nat| d < 10 ==> #[trigger] digit_char(d) as int - '0' as int == d);
    if n >= 10 {
        law_decimal(n / 10);
        assert(decimal(n).last() == digit_char(n % 10));
        let s = decimal(n);
        assert(s.drop_last() =~= decimal(n / 10));
        assert((n / 10) * 10 + n % 10 == n) by (nonlinear_arith);
        assert(n / 10 > 0);
        assert(s[0] == decimal(n / 10)[0]);
        assert(digits_value(s) == digits_value(decimal(n / 10)) * 10 + (n % 10) as int);
    } else {
        assert(decimal(n).drop_last() =~= Seq::<char>::empty());
        assert(decimal(n).last() == digit_char(n));
        assert(digits_value(Seq::<char>::empty()) == 0);
        assert(digits_value(decimal(n)) == 0 * 10 + (digit_char(n) as int - '0' as int));
    }
}

fn digit_str(d: u64) -> (s: &'static str)
    requires
        d < 10,
    ensures
        s@ == seq![digit_char(d as nat)],
{
    if d == 0 {
        proof { reveal_strlit("0"); }
        "0"
    } else if d == 1 {
        proof { reveal_strlit("1"); }
        "1"
    } else if d == 2 {
        proof { reveal_strlit("2"); }
        "2"
    } else if d == 3 {
        proof { reveal_strlit("3"); }
        "3"
    } else if d == 4 {
        proof { reveal_strlit("4"); }
        "4"
    } else if d == 5 {
        proof { reveal_strlit("5"); }
        "5"
    } else if d == 6 {
        proof { reveal_strlit("6"); }
        "6"
    } else if d == 7 {
        proof { reveal_strlit("7"); }
        "7"
    } else if d == 8 {
        proof { reveal_strlit("8"); }
        "8"
    } else {
        proof { reveal_strlit("9"); }
        "9"
    }
}

/// Writes `n` in decimal, as `format!("{}", n)` does.
pub fn u64_to_decimal(n: u64) -> (res: String)
    ensures
        res@ == decimal(n as nat),
    decreases n,
{
    let digit = digit_str(n % 10);
    if n < 10 {
        String::from_str(digit)
    } else {
        let mut s = u64_to_decimal(n / 10);
        s.append(digit);
        s
    }
}

/// The reason given when a message asks for a newer reader than this program.
pub open spec fn reader_too_old_reason(min_reader_ver: u64) -> Seq<char> {
    "executable ver="@ + decimal(VER as nat) + " is smaller than the min reader version("@
        + decimal(min_reader_ver as nat) + ") that can read this message"@
}

/// The reason given when a message is older than this program still reads.
pub open spec fn message_too_old_reason(msg_ver: u64) -> Seq<char> {
    "message ver="@ + decimal(msg_ver as nat) + " is smaller than executable MIN_MSG_VER("@
        + decimal(MIN_MSG_VER as nat) + ") that this program can read"@
}

/// The outcome of checking a message's versions: the reader must be at least
/// as new as the message asks, and the message not older than `MIN_MSG_VER`.
pub open spec fn reader_check(msg_ver: u64, msg_min_reader_ver: u64) -> Result<(), Seq<char>> {
    if VER < msg_min_reader_ver {
        Err(reader_too_old_reason(msg_min_reader_ver))
    } else if msg_ver < MIN_MSG_VER {
        Err(message_too_old_reason(msg_ver))
    } else {
        Ok(())
    }
}

/// The view of a check result, with the error seen as its reason.
pub open spec fn unit_result_view(r: Result<(), Incompatible>) -> Result<(), Seq<char>> {
    match r {
        Ok(_) => Ok(()),
        Err(e) => Err(e@),
    }
}

/// Checks that a message of version `msg_ver`, readable by readers of version
/// `msg_min_reader_ver` and later, can be read by this program.
pub fn reader_check_msg(msg_ver: u64, msg_min_reader_ver: u64) -> (res: Result<(), Incompatible>)
    ensures
        unit_result_view(res) == reader_check(msg_ver, msg_min_reader_ver),
{
    if VER < msg_min_reader_ver {
        let mut reason = String::from_str("executable ver=");
        let v = u64_to_decimal(VER);
        reason.append(v.as_str());
        reason.append(" is smaller than the min reader version(");
        let m = u64_to_decimal(msg_min_reader_ver);
        reason.append(m.as_str());
        reason.append(") that can read this message");
        return Err(Incompatible { reason });
    }
    if msg_ver < MIN_MSG_VER {
        let mut reason = String::from_str("message ver=");
        let v = u64_to_decimal(msg_ver);
        reason.append(v.as_str());
        reason.append(" is smaller than executable MIN_MSG_VER(");
        let m = u64_to_decimal(MIN_MSG_VER);
        reason.append(m.as_str());
        reason.append(") that this program can read");
        return Err(Incompatible { reason });
    }
    Ok(())
}

} // verus!
