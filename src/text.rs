use vstd::prelude::*;

verus! {

/// The character of decimal digit `d`.
pub open spec fn digit_char(d: nat) -> char {
    if d == 0 { '0' }
    else if d == 1 { '1' }
    else if d == 2 { '2' }
    else if d == 3 { '3' }
    else if d == 4 { '4' }
    else if d == 5 { '5' }
    else if d == 6 { '6' }
    else if d == 7 { '7' }
    else if d == 8 { '8' }
    else { '9' }
}

/// The decimal digits of `n`, most significant first, with no leading zero.
pub open spec fn decimal(n: nat) -> Seq<char>
    decreases n,
{
    if n < 10 {
        seq![digit_char(n)]
    } else {
        decimal(n / 10).push(digit_char(n % 10))
    }
}

/// The decimal form of an integer, with a leading '-' when it is negative.
pub open spec fn signed_decimal(v: int) -> Seq<char> {
    if v < 0 {
        seq!['-'] + decimal((-v) as nat)
    } else {
        decimal(v as nat)
    }
}

/// A value that can be shown as text: what a container broadcasts and what a
/// presentation node displays.
pub trait Text {
    spec fn spec_text(&self) -> Seq<char>;

    fn text(&self) -> (r: String)
        ensures
            r@ == self.spec_text(),
    ;
}

fn digit_str(d: u64) -> (r: &'static str)
    requires
        d < 10,
    ensures
        r@ == seq![digit_char(d as nat)],
{
    proof {
        reveal_strlit("0");
        reveal_strlit("1");
        reveal_strlit("2");
        reveal_strlit("3");
        reveal_strlit("4");
        reveal_strlit("5");
        reveal_strlit("6");
        reveal_strlit("7");
        reveal_strlit("8");
        reveal_strlit("9");
    }
    if d == 0 {
        "0"
    } else if d == 1 {
        "1"
    } else if d == 2 {
        "2"
    } else if d == 3 {
        "3"
    } else if d == 4 {
        "4"
    } else if d == 5 {
        "5"
    } else if d == 6 {
        "6"
    } else if d == 7 {
        "7"
    } else if d == 8 {
        "8"
    } else {
        "9"
    }
}

/// The decimal digits of `n`.
pub fn decimal_string(n: u64) -> (r: String)
    ensures
        r@ == decimal(n as nat),
    decreases n,
{
    if n < 10 {
        String::from_str(digit_str(n))
    } else {
        let mut s = decimal_string(n / 10);
        s.append(digit_str(n % 10));
        s
    }
}

/// The decimal form of `v`, with a leading '-' when it is negative.
pub fn signed_decimal_string(v: i64) -> (r: String)
    ensures
        r@ == signed_decimal(v as int),
{
    if v < 0 {
        let m: u64 = if v == i64::MIN {
            9223372036854775808u64
        } else {
            (-v) as u64
        };
        let d = decimal_string(m);
        proof {
            reveal_strlit("-");
        }
        String::from_str("-").concat(d.as_str())
    } else {
        decimal_string(v as u64)
    }
}

impl Text for u64 {
    open spec fn spec_text(&self) -> Seq<char> {
        decimal(*self as nat)
    }

    fn text(&self) -> (r: String) {
        decimal_string(*self)
    }
}

impl Text for u32 {
    open spec fn spec_text(&self) -> Seq<char> {
        decimal(*self as nat)
    }

    fn text(&self) -> (r: String) {
        decimal_string(*self as u64)
    }
}

impl Text for usize {
    open spec fn spec_text(&self) -> Seq<char> {
        decimal(*self as nat)
    }

    fn text(&self) -> (r: String) {
        decimal_string(*self as u64)
    }
}

impl Text for i64 {
    open spec fn spec_text(&self) -> Seq<char> {
        signed_decimal(*self as int)
    }

    fn text(&self) -> (r: String) {
        signed_decimal_string(*self)
    }
}

impl Text for i32 {
    open spec fn spec_text(&self) -> Seq<char> {
        signed_decimal(*self as int)
    }

    fn text(&self) -> (r: String) {
        signed_decimal_string(*self as i64)
    }
}

impl Text for isize {
    open spec fn spec_text(&self) -> Seq<char> {
        signed_decimal(*self as int)
    }

    fn text(&self) -> (r: String) {
        signed_decimal_string(*self as i64)
    }
}

impl Text for bool {
    open spec fn spec_text(&self) -> Seq<char> {
        if *self { "true"@ } else { "false"@ }
    }

    fn text(&self) -> (r: String) {
        if *self {
            String::from_str("true")
        } else {
            String::from_str("false")
        }
    }
}

impl Text for String {
    open spec fn spec_text(&self) -> Seq<char> {
        self@
    }

    fn text(&self) -> (r: String) {
        self.clone()
    }
}

} // verus!
