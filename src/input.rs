use vstd::prelude::*;
use vstd::std_specs::iter::IteratorSpec;

verus! {

broadcast use {vstd::string::axiom_spec_iter, vstd::string::next_postcondition};

pub open spec fn is_digit(c: char) -> bool {
    '0' <= c && c <= '9'
}

pub open spec fn all_digits(d: Seq<char>) -> bool {
    forall|i: int| 0 <= i < d.len() ==> is_digit(#[trigger] d[i])
}

/// The value of the decimal digits `d`, most significant first.
pub open spec fn digits_value(d: Seq<char>) -> int
    decreases d.len(),
{
    if d.len() == 0 {
        0
    } else {
        digits_value(d.drop_last()) * 10 + (d.last() as int - '0' as int)
    }
}

/// The digits of `s` after an optional leading sign.
pub open spec fn unsigned_part(s: Seq<char>) -> Seq<char> {
    if s.len() > 0 && (s[0] == '+' || s[0] == '-') {
        s.drop_first()
    } else {
        s
    }
}

/// What `str::parse::<i64>` gives: an optional sign then at least one decimal
/// digit, and nothing else, whose value fits.
pub open spec fn parse_i64(s: Seq<char>) -> Option<i64> {
    let d = unsigned_part(s);
    let v = if s.len() > 0 && s[0] == '-' { -digits_value(d) } else { digits_value(d) };
    if d.len() > 0 && all_digits(d) && i64::MIN <= v <= i64::MAX {
        Some(v as i64)
    } else {
        None
    }
}

proof fn lemma_digits_nonneg(d: Seq<char>)
    requires
        all_digits(d),
    ensures
        digits_value(d) >= 0,
    decreases d.len(),
{
    if d.len() > 0 {
        lemma_digits_nonneg(d.drop_last());
    }
}

/// A longer run of digits is worth at least as much as its prefix.
proof fn lemma_digits_prefix(d: Seq<char>, k: int)
    requires
        all_digits(d),
        0 <= k <= d.len(),
    ensures
        digits_value(d.subrange(0, k)) <= digits_value(d),
    decreases d.len() - k,
{
    if k < d.len() {
        lemma_digits_prefix(d, k + 1);
        let p = d.subrange(0, k + 1);
        assert(p.drop_last() =~= d.subrange(0, k));
        lemma_digits_nonneg(d.subrange(0, k));
    } else {
        assert(d.subrange(0, k) =~= d);
    }
}

/// Parses `s` as `str::parse::<i64>` does.
pub fn parse_decimal(s: &str) -> (r: Option<i64>)
    ensures
        r == parse_i64(s@),
{
    let ghost all = s@;
    let mut it = s.chars();
    proof {
        assert(it.remaining() == all);
    }
    let first = it.next();
    let mut neg = false;
    let mut acc: i128 = 0;
    let mut any = false;
    let ghost d = unsigned_part(all);
    let ghost mut k: int = 0;
    match first {
        None => {
            return None;
        },
        Some(c) => {
            proof {
                assert(all.len() > 0 && all[0] == c);
                assert(it.remaining() == all.drop_first());
            }
            if c == '-' || c == '+' {
                neg = c == '-';
                proof {
                    assert(d.subrange(0, 0) =~= Seq::<char>::empty());
                    assert(digits_value(d.subrange(0, 0)) == 0);
                    assert(it.remaining() =~= d.subrange(0, d.len() as int));
                }
            } else if '0' <= c && c <= '9' {
                acc = (c as u32 - '0' as u32) as i128;
                any = true;
                proof {
                    k = 1;
                    assert(d =~= all);
                    assert(it.remaining() =~= d.subrange(1, d.len() as int));
                    assert(d.subrange(0, 1).drop_last() =~= Seq::<char>::empty());
                    assert(d.subrange(0, 1).last() == c);
                    assert(digits_value(Seq::<char>::empty()) == 0);
                    assert(digits_value(d.subrange(0, 1)) == c as int - '0' as int);
                    assert(all_digits(d.subrange(0, 1)));
                }
            } else {
                return None;
            }
        },
    }
    loop
        invariant
            0 <= k <= d.len(),
            any == (k > 0),
            it.remaining() == d.subrange(k, d.len() as int),
            all_digits(d.subrange(0, k)),
            acc == digits_value(d.subrange(0, k)),
            0 <= acc <= 0x8000_0000_0000_0000,
            neg == (all.len() > 0 && all[0] == '-'),
            d == unsigned_part(all),
            all == s@,
        decreases d.len() - k,
    {
        match it.next() {
            None => {
                proof {
                    assert(k == d.len());
                    assert(d.subrange(0, k) =~= d);
                }
                if !any {
                    proof {
                        assert(d.len() == 0);
                    }
                    return None;
                }
                if neg {
                    return Some((-acc) as i64);
                } else if acc <= 0x7fff_ffff_ffff_ffff {
                    return Some(acc as i64);
                } else {
                    return None;
                }
            },
            Some(c) => {
                if '0' <= c && c <= '9' {
                    let next = acc * 10 + (c as u32 - '0' as u32) as i128;
                    proof {
                        let p = d.subrange(0, k + 1);
                        assert(p.drop_last() =~= d.subrange(0, k));
                        assert(p.last() == c);
                        assert(all_digits(p)) by {
                            assert forall|i: int| 0 <= i < p.len() implies is_digit(#[trigger] p[i]) by {
                                if i < k {
                                    assert(p[i] == d.subrange(0, k)[i]);
                                }
                            }
                        }
                        k = k + 1;
                    }
                    if next > 0x8000_0000_0000_0000 {
                        proof {
                            if all_digits(d) {
                                lemma_digits_prefix(d, k);
                            } else {
                            }
                        }
                        return None;
                    }
                    acc = next;
                    any = true;
                } else {
                    proof {
                        assert(d[k] == c);
                        assert(!all_digits(d));
                    }
                    return None;
                }
            },
        }
    }
}

/// A value that the text of an input element is read as.
pub trait FromText: Sized {
    /// Whether `v` is what text `s` is read as.
    spec fn reads_as(s: Seq<char>, v: Self) -> bool;

    fn from_text(s: &str) -> (r: Self)
        ensures
            Self::reads_as(s@, r),
    ;
}

impl FromText for i64 {
    /// The parsed number, or 0 when the text is not one.
    open spec fn reads_as(s: Seq<char>, v: i64) -> bool {
        v == match parse_i64(s) {
            Some(x) => x,
            None => 0,
        }
    }

    fn from_text(s: &str) -> (r: i64) {
        match parse_decimal(s) {
            Some(x) => x,
            None => 0,
        }
    }
}

impl FromText for String {
    /// The text itself.
    open spec fn reads_as(s: Seq<char>, v: String) -> bool {
        v@ == s
    }

    fn from_text(s: &str) -> (r: String) {
        String::from_str(s)
    }
}

} // verus!
