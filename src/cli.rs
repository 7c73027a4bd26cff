//! The program's single argument: a non-negative integer in base 10.
use vstd::prelude::*;
use vstd::string::StrSliceExecFns;
use vstd::string::StringExecFns;

verus! {

/// Why the argument was not usable.
#[derive(Clone, Copy, Debug, PartialEq, Eq, Structural)]
pub enum UsageError {
    /// No argument was given.
    Missing,
    /// The argument is not a non-negative integer that fits in a `u64`.
    NotANumber,
}

/// Inputs above this are announced as slow before the work starts.
pub const PATIENCE_THRESHOLD: u64 = 100000;

pub open spec fn is_digit(c: char) -> bool {
    '0' <= c <= '9'
}

pub open spec fn digit_value(c: char) -> int {
    c as int - '0' as int
}

/// The text after an optional leading `+`.
pub open spec fn unsigned_digits(s: Seq<char>) -> Seq<char> {
    if s.len() > 0 && s[0] == '+' {
        s.drop_first()
    } else {
        s
    }
}

pub open spec fn all_digits(s: Seq<char>) -> bool {
    forall|i: int| 0 <= i < s.len() ==> is_digit(#[trigger] s[i])
}

/// The number that the decimal digits `s` write.
pub open spec fn decimal_value(s: Seq<char>) -> int
    decreases s.len(),
{
    if s.len() == 0 {
        0
    } else {
        decimal_value(s.drop_last()) * 10 + digit_value(s.last())
    }
}

/// What the argument text `s` stands for: an optional `+`, then at least one
/// decimal digit, and a value that fits in a `u64`.
pub open spec fn parsed_count(s: Seq<char>) -> Result<u64, UsageError> {
    let d = unsigned_digits(s);
    if d.len() > 0 && all_digits(d) && decimal_value(d) <= u64::MAX {
        Ok(decimal_value(d) as u64)
    } else {
        Err(UsageError::NotANumber)
    }
}

proof fn lemma_value_grows(s: Seq<char>, j: int)
    requires
        all_digits(s),
        0 <= j <= s.len(),
    ensures
        0 <= decimal_value(s.subrange(0, j)) <= decimal_value(s),
    decreases s.len() - j,
{
    if j < s.len() {
        lemma_value_grows(s, j + 1);
        let p = s.subrange(0, j + 1);
        assert(p.drop_last() == s.subrange(0, j));
        assert(is_digit(s[j]));
    } else {
        assert(s.subrange(0, j) == s);
        lemma_value_nonneg(s);
    }
}

proof fn lemma_value_nonneg(s: Seq<char>)
    requires
        all_digits(s),
    ensures
        decimal_value(s) >= 0,
    decreases s.len(),
{
    if s.len() > 0 {
        let t = s.drop_last();
        assert forall|i: int| 0 <= i < t.len() implies is_digit(#[trigger] t[i]) by {
            assert(t[i] == s[i]);
        }
        lemma_value_nonneg(t);
        assert(is_digit(s[s.len() - 1]));
    }
}

/// Reads the argument `arg`: an optional `+` followed by decimal digits whose
/// value fits in a `u64`.
pub fn parse_count(arg: Option<&str>) -> (r: Result<u64, UsageError>)
    ensures
        arg is None ==> r == Err::<u64, UsageError>(UsageError::Missing),
        arg is Some ==> r == parsed_count(arg->0@),
{
    let s = match arg {
        None => {
            return Err(UsageError::Missing);
        },
        Some(s) => s,
    };
    let len = s.unicode_len();
    let start: usize = if len > 0 && s.get_char(0) == '+' {
        1
    } else {
        0
    };
    let ghost d = unsigned_digits(s@);
    assert(d == s@.subrange(start as int, len as int));
    if start == len {
        return Err(UsageError::NotANumber);
    }
    let mut value: u64 = 0;
    let mut i: usize = start;
    while i < len
        invariant
            arg == Some(s),
            d == unsigned_digits(s@),
            start <= i <= len,
            len == s@.len(),
            d == s@.subrange(start as int, len as int),
            all_digits(d.subrange(0, i - start)),
            value == decimal_value(d.subrange(0, i - start)),
        decreases len - i,
    {
        let c = s.get_char(i);
        let ghost k = i - start;
        assert(d[k] == c);
        assert(d.subrange(0, k + 1).drop_last() == d.subrange(0, k));
        if !('0' <= c && c <= '9') {
            assert(!all_digits(d));
            return Err(UsageError::NotANumber);
        }
        let digit = (c as u32 - '0' as u32) as u64;
        let next = match value.checked_mul(10) {
            Some(v) => v.checked_add(digit),
            None => None,
        };
        match next {
            Some(v) => {
                value = v;
            },
            None => {
                proof {
                    if all_digits(d) {
                        lemma_value_grows(d, k + 1);
                    }
                }
                return Err(UsageError::NotANumber);
            },
        }
        assert forall|j: int| 0 <= j < k + 1 implies is_digit(
            #[trigger] d.subrange(0, k + 1)[j],
        ) by {
            if j < k {
                assert(d.subrange(0, k + 1)[j] == d.subrange(0, k)[j]);
            }
        }
        i += 1;
    }
    assert(d.subrange(0, len - start) == d);
    Ok(value)
}

pub open spec fn usage_message(e: UsageError) -> Seq<char> {
    match e {
        UsageError::Missing => "missing integer argument"@,
        UsageError::NotANumber => "must be a non-negative integer"@,
    }
}

impl UsageError {
    /// The message shown to the user for this error.
    pub fn message(&self) -> (r: String)
        ensures
            r@ == usage_message(*self),
    {
        match self {
            UsageError::Missing => String::from_str("missing integer argument"),
            UsageError::NotANumber => String::from_str("must be a non-negative integer"),
        }
    }
}

/// Whether computing the factorial of `n` warrants a notice that it may take
/// a while.
pub fn needs_patience_notice(n: u64) -> (r: bool)
    ensures
        r == (n > PATIENCE_THRESHOLD),
{
    n > PATIENCE_THRESHOLD
}

} // verus!
