//! Log timestamps: seconds since the epoch, written in decimal.

use vstd::prelude::*;

verus! {

/// An ASCII decimal digit.
pub open spec fn is_digit(c: char) -> bool {
    '0' <= c && c <= '9'
}

/// A decimal number: digits with at most one point among them, and at least
/// one digit. This is the form in which the log writes its times. Other ways
/// of writing a number (a sign, an exponent, `inf`, `nan`) are no timestamp.
pub open spec fn is_decimal(s: Seq<char>) -> bool {
    &&& forall|i: int| 0 <= i < s.len() ==> is_digit(#[trigger] s[i]) || s[i] == '.'
    &&& exists|i: int| 0 <= i < s.len() && is_digit(#[trigger] s[i])
    &&& forall|i: int, j: int| 0 <= i < j < s.len() && #[trigger] s[i] == '.' ==> #[trigger] s[j] != '.'
}

/// A point in time, kept as the decimal text that the log gave for it.
#[derive(Debug)]
pub struct Timestamp {
    text: String,
}

impl View for Timestamp {
    type V = Seq<char>;

    closed spec fn view(&self) -> Seq<char> {
        self.text@
    }
}

impl Timestamp {
    #[verifier::type_invariant]
    closed spec fn is_numeric(&self) -> bool {
        is_decimal(self.text@)
    }

    /// Reads a timestamp. The text is accepted exactly when it is a decimal
    /// number, and is then kept unchanged.
    ///
    /// Only the form that the catalog's header extracts counts: ASCII digits
    /// around at most one point. A text that a floating-point parser would
    /// read but that is not of this form, such as `1e5`, `+1.0`, `-1.0`,
    /// `inf` or `NaN`, is rejected. Every accepted text is one that a
    /// floating-point parser reads, as a number that is not negative.
    pub fn parse(text: &str) -> (r: Option<Timestamp>)
        ensures
            r is Some <==> is_decimal(text@),
            r matches Some(t) ==> t@ == text@,
    {
        let n = text.unicode_len();
        let mut digit_at: Option<usize> = None;
        let mut point_at: Option<usize> = None;
        let mut i: usize = 0;
        while i < n
            invariant
                i <= n,
                n == text@.len(),
                forall|k: int| 0 <= k < i ==> is_digit(#[trigger] text@[k]) || text@[k] == '.',
                match digit_at {
                    Some(d) => d < i && is_digit(text@[d as int]),
                    None => forall|k: int| 0 <= k < i ==> !is_digit(#[trigger] text@[k]),
                },
                match point_at {
                    Some(p) => p < i && text@[p as int] == '.' && forall|k: int|
                        0 <= k < i && k != p ==> #[trigger] text@[k] != '.',
                    None => forall|k: int| 0 <= k < i ==> #[trigger] text@[k] != '.',
                },
            decreases n - i,
        {
            let c = text.get_char(i);
            if c == '.' {
                if point_at.is_some() {
                    assert(!is_decimal(text@)) by {
                        let p = point_at.unwrap() as int;
                        assert(text@[p] == '.' && text@[i as int] == '.');
                    }
                    return None;
                }
                point_at = Some(i);
            } else if '0' <= c && c <= '9' {
                digit_at = Some(i);
            } else {
                assert(!is_decimal(text@)) by {
                    assert(!is_digit(text@[i as int]) && text@[i as int] != '.');
                }
                return None;
            }
            i += 1;
        }
        if digit_at.is_none() {
            return None;
        }
        assert(is_decimal(text@)) by {
            assert(is_digit(text@[digit_at.unwrap() as int]));
        }
        Some(Timestamp { text: text.to_owned() })
    }

    /// The decimal text of the timestamp.
    pub fn as_str(&self) -> (r: &str)
        ensures
            r@ == self@,
            is_decimal(r@),
    {
        proof {
            use_type_invariant(self);
        }
        self.text.as_str()
    }
}

} // verus!
