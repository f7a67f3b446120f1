use vstd::prelude::*;
use vstd::string::StringExecFns;
use crate::handlers::{Exception, Report};

verus! {

/// The lower-case hexadecimal digit for `d`.
pub open spec fn hex_char(d: nat) -> char {
    if d < 10 {
        ((d + 48) as u8) as char
    } else {
        ((d + 87) as u8) as char
    }
}

/// Hexadecimal digits of `v`, most significant first, without leading zeros
/// (zero is the single digit `0`).
pub open spec fn hex_digits(v: nat) -> Seq<char>
    decreases v,
{
    if v < 16 {
        seq![hex_char(v)]
    } else {
        hex_digits(v / 16) + seq![hex_char(v % 16)]
    }
}

/// `v` in the alternate hexadecimal form: `0x` and the digits.
pub open spec fn hex_text(v: nat) -> Seq<char> {
    seq!['0', 'x'] + hex_digits(v)
}

fn digit_str(d: u64) -> (r: &'static str)
    requires
        d < 16,
    ensures
        r@ == seq![hex_char(d as nat)],
{
    proof {
        reveal_strlit("0");
        reveal_strlit("1");
        reveal_strlit("2");
        reveal_strlit("3");
        reveal_strlit("4");
        reveal_strlit("5");
        reveal_strlit("6");
        reveal_strlit("7");
        reveal_strlit("8");
        reveal_strlit("9");
        reveal_strlit("a");
        reveal_strlit("b");
        reveal_strlit("c");
        reveal_strlit("d");
        reveal_strlit("e");
        reveal_strlit("f");
    }
    let r = if d == 0 {
        "0"
    } else if d == 1 {
        "1"
    } else if d == 2 {
        "2"
    } else if d == 3 {
        "3"
    } else if d == 4 {
        "4"
    } else if d == 5 {
        "5"
    } else if d == 6 {
        "6"
    } else if d == 7 {
        "7"
    } else if d == 8 {
        "8"
    } else if d == 9 {
        "9"
    } else if d == 10 {
        "a"
    } else if d == 11 {
        "b"
    } else if d == 12 {
        "c"
    } else if d == 13 {
        "d"
    } else if d == 14 {
        "e"
    } else {
        "f"
    };
    assert(r@ =~= seq![hex_char(d as nat)]);
    r
}

fn append_hex_digits(s: &mut String, v: u64)
    ensures
        final(s)@ == old(s)@ + hex_digits(v as nat),
    decreases v,
{
    if v >= 16 {
        append_hex_digits(s, v / 16);
    }
    s.append(digit_str(v % 16));
    assert(final(s)@ =~= old(s)@ + hex_digits(v as nat)) by {
        if v >= 16 {
            assert(hex_digits(v as nat) == hex_digits((v / 16) as nat) + seq![hex_char((v % 16) as nat)]);
        }
    }
}

/// `v` written as `0x` followed by its lower-case hexadecimal digits.
pub fn hex(v: u64) -> (r: String)
    ensures
        r@ == hex_text(v as nat),
{
    proof {
        reveal_strlit("0x");
    }
    let mut s = String::from_str("0x");
    append_hex_digits(&mut s, v);
    s
}

/// The first line of the diagnostic for a report: the exception's name and,
/// where it has one, the address it concerns.
pub open spec fn headline(r: Report) -> Seq<char> {
    match r.exception {
        Exception::DivideByZero => "EXCEPTION: DIVIDE BY ZERO!"@,
        Exception::Breakpoint => "EXCEPTION: BREAKPOINT at "@ + hex_text(r.frame.instruction_ptr as nat),
        Exception::InvalidOpcode => "EXCEPTION: INVALID OPCODE at "@ + hex_text(
            r.frame.instruction_ptr as nat,
        ),
        Exception::PageFault => "EXCEPTION: PAGE FAULT while accessing "@ + hex_text(
            match r.fault_address {
                Some(a) => a as nat,
                None => 0,
            },
        ),
    }
}

impl Report {
    /// The first line of this report's diagnostic.
    pub fn headline(&self) -> (r: String)
        ensures
            r@ == headline(*self),
    {
        match self.exception {
            Exception::DivideByZero => String::from_str("EXCEPTION: DIVIDE BY ZERO!"),
            Exception::Breakpoint => {
                let mut s = String::from_str("EXCEPTION: BREAKPOINT at ");
                s.append(hex(self.frame.instruction_ptr).as_str());
                s
            },
            Exception::InvalidOpcode => {
                let mut s = String::from_str("EXCEPTION: INVALID OPCODE at ");
                s.append(hex(self.frame.instruction_ptr).as_str());
                s
            },
            Exception::PageFault => {
                let a = match self.fault_address {
                    Some(a) => a,
                    None => 0,
                };
                let mut s = String::from_str("EXCEPTION: PAGE FAULT while accessing ");
                s.append(hex(a).as_str());
                s
            },
        }
    }
}

} // verus!
