//! Presentation sizes: a percentage or a pixel count, rendered as a
//! suffixed string ("50%", "600px").

use vstd::prelude::*;
use crate::json::{dec_digits, write_u128_dec};

verus! {

/// A percentage. The field holds the numeric text before the `%` suffix.
#[derive(Debug, Clone)]
pub struct Percent(pub String);

/// A pixel count, rendered with a `px` suffix.
#[derive(Debug, Clone, Copy)]
pub struct Pixels(pub usize);

/// A presentation size: either a percentage or a pixel count.
#[derive(Debug, Clone)]
pub enum Size {
    Percent(Percent),
    Pixel(Pixels),
}

impl Size {
    /// The rendered text of this size: the amount followed by its suffix.
    pub open spec fn spec_text(&self) -> Seq<char> {
        match self {
            Size::Percent(p) => p.0@ + "%"@,
            Size::Pixel(p) => dec_digits(p.0 as nat) + "px"@,
        }
    }

    pub fn to_string(&self) -> (r: String)
        ensures
            r@ == self.spec_text(),
    {
        match self {
            Size::Percent(p) => {
                let mut r = p.0.clone();
                r.append("%");
                r
            },
            Size::Pixel(p) => {
                let mut r = String::new();
                write_u128_dec(&mut r, p.0 as u128);
                r.append("px");
                r
            },
        }
    }

    /// A percentage size; the argument is the numeric text before `%`.
    pub fn percent(value: String) -> (s: Size)
        ensures
            s == (Size::Percent(Percent(value))),
    {
        Size::Percent(Percent(value))
    }

    /// A pixel size.
    pub fn pixels(n: usize) -> (s: Size)
        ensures
            s == (Size::Pixel(Pixels(n))),
    {
        Size::Pixel(Pixels(n))
    }
}

/// The text with every trailing `%` removed.
pub open spec fn strip_percent_suffix(s: Seq<char>) -> Seq<char>
    decreases s,
{
    if s.len() >= 1 && s.last() == '%' {
        strip_percent_suffix(s.drop_last())
    } else {
        s
    }
}

/// The text with every trailing `px` removed.
pub open spec fn strip_px_suffix(s: Seq<char>) -> Seq<char>
    decreases s,
{
    if s.len() >= 2 && s[s.len() - 2] == 'p' && s.last() == 'x' {
        strip_px_suffix(s.take(s.len() - 2))
    } else {
        s
    }
}

/// A non-empty run of decimal digits.
pub open spec fn is_dec_digits(s: Seq<char>) -> bool {
    s.len() > 0 && forall|i: int| 0 <= i < s.len() ==> 48 <= (#[trigger] s[i]) as int <= 57
}

/// The value of a run of decimal digits, most significant first.
pub open spec fn digits_value(s: Seq<char>) -> int
    decreases s,
{
    if s.len() == 0 {
        0
    } else {
        digits_value(s.drop_last()) * 10 + (s.last() as int - 48)
    }
}

proof fn lemma_digits_value_nonneg(s: Seq<char>)
    requires
        forall|i: int| 0 <= i < s.len() ==> 48 <= (#[trigger] s[i]) as int <= 57,
    ensures
        digits_value(s) >= 0,
    decreases s,
{
    if s.len() > 0 {
        lemma_digits_value_nonneg(s.drop_last());
    }
}

proof fn lemma_digits_value_prefix_le(s: Seq<char>, j: int)
    requires
        0 <= j <= s.len(),
        forall|i: int| 0 <= i < s.len() ==> 48 <= (#[trigger] s[i]) as int <= 57,
    ensures
        digits_value(s.take(j)) <= digits_value(s),
    decreases s,
{
    if j < s.len() {
        assert(s.drop_last().take(j) =~= s.take(j));
        lemma_digits_value_prefix_le(s.drop_last(), j);
        lemma_digits_value_nonneg(s.drop_last());
        assert(digits_value(s.drop_last()) <= digits_value(s.drop_last()) * 10 + (s.last() as int
            - 48)) by (nonlinear_arith)
            requires
                digits_value(s.drop_last()) >= 0,
                48 <= s.last() as int <= 57,
        ;
    } else {
        assert(s.take(j) =~= s);
    }
}

impl Percent {
    /// Reads a percentage from text: every trailing `%` is removed, and
    /// the rest is kept as the amount.
    pub fn parse(text: &str) -> (r: Percent)
        ensures
            r.0@ == strip_percent_suffix(text@),
    {
        let n = text.unicode_len();
        let mut end = n;
        proof {
            assert(text@.take(n as int) =~= text@);
        }
        while end >= 1 && text.get_char(end - 1) == '%'
            invariant
                end <= n,
                n == text@.len(),
                strip_percent_suffix(text@) == strip_percent_suffix(text@.take(end as int)),
            decreases end,
        {
            proof {
                assert(text@.take(end as int).drop_last() =~= text@.take(end - 1));
            }
            end = end - 1;
        }
        let body = text.substring_char(0, end);
        proof {
            assert(body@ =~= text@.take(end as int));
        }
        Percent(body.to_owned())
    }
}

impl Pixels {
    /// Reads a pixel count from text: every trailing `px` is removed, and
    /// the rest must be a run of decimal digits whose value fits the
    /// machine; exactly then is a count returned.
    #[verifier::rlimit(100)]
    pub fn parse(text: &str) -> (r: Option<Pixels>)
        ensures
            ({
                let body = strip_px_suffix(text@);
                match r {
                    Some(p) => is_dec_digits(body) && digits_value(body) <= usize::MAX && p.0
                        == digits_value(body),
                    None => !(is_dec_digits(body) && digits_value(body) <= usize::MAX),
                }
            }),
    {
        let n = text.unicode_len();
        let mut end = n;
        proof {
            assert(text@.take(n as int) =~= text@);
        }
        while end >= 2 && text.get_char(end - 2) == 'p' && text.get_char(end - 1) == 'x'
            invariant
                end <= n,
                n == text@.len(),
                strip_px_suffix(text@) == strip_px_suffix(text@.take(end as int)),
            decreases end,
        {
            proof {
                assert(text@.take(end as int).take(end - 2) =~= text@.take(end - 2));
            }
            end = end - 2;
        }
        let ghost body = strip_px_suffix(text@);
        proof {
            assert(body == text@.take(end as int));
        }
        if end == 0 {
            proof {
                assert(body.len() == 0);
                assert(!is_dec_digits(body));
            }
            return None;
        }
        let mut value: usize = 0;
        for i in 0..end
            invariant
                end <= n,
                n == text@.len(),
                end > 0,
                body == strip_px_suffix(text@),
                body == text@.take(end as int),
                forall|j: int| 0 <= j < i ==> 48 <= (#[trigger] text@[j]) as int <= 57,
                value == digits_value(text@.take(i as int)),
        {
            let c = text.get_char(i);
            let cu = c as u32;
            if cu < 48 || cu > 57 {
                proof {
                    assert(body[i as int] == text@[i as int]);
                    assert(!is_dec_digits(body));
                }
                return None;
            }
            let d = (cu - 48) as usize;
            if value > (usize::MAX - d) / 10 {
                proof {
                    assert(text@.take(i + 1).drop_last() =~= text@.take(i as int));
                    assert(digits_value(text@.take(i + 1)) == value * 10 + d);
                    assert(value * 10 + d > usize::MAX) by (nonlinear_arith)
                        requires
                            d <= 9,
                            value > (usize::MAX - d) / 10,
                    ;
                    if is_dec_digits(body) {
                        assert(forall|j: int|
                            0 <= j < body.len() ==> 48 <= (#[trigger] body[j]) as int <= 57);
                        assert(body.take(i + 1) =~= text@.take(i + 1));
                        lemma_digits_value_prefix_le(body, i + 1);
                        assert(digits_value(body) > usize::MAX);
                    }
                }
                return None;
            }
            proof {
                assert(text@.take(i + 1).drop_last() =~= text@.take(i as int));
                assert(value * 10 + d <= usize::MAX) by (nonlinear_arith)
                    requires
                        d <= 9,
                        value <= (usize::MAX - d) / 10,
                ;
            }
            value = value * 10 + d;
        }
        proof {
            assert(body.len() == end);
            assert forall|j: int| 0 <= j < body.len() implies 48 <= (#[trigger] body[j]) as int
                <= 57 by {
                assert(body[j] == text@[j]);
            }
            assert(is_dec_digits(body));
            assert(value == digits_value(body));
        }
        Some(Pixels(value))
    }
}

} // verus!
