use vstd::prelude::*;
use vstd::string::StringExecFns;

verus! {

/// The character that stands for the digit `d`.
pub open spec fn digit_char(d: nat) -> char {
    if d == 0 {
        '0'
    } else if d == 1 {
        '1'
    } else if d == 2 {
        '2'
    } else if d == 3 {
        '3'
    } else if d == 4 {
        '4'
    } else if d == 5 {
        '5'
    } else if d == 6 {
        '6'
    } else if d == 7 {
        '7'
    } else if d == 8 {
        '8'
    } else {
        '9'
    }
}

/// `n` written in decimal, without leading zeros.
pub open spec fn decimal(n: nat) -> Seq<char>
    decreases n,
{
    if n < 10 {
        seq![digit_char(n)]
    } else {
        decimal(n / 10).push(digit_char(n % 10))
    }
}

/// `c` is one of the ten decimal digits.
pub open spec fn is_digit(c: char) -> bool {
    '0' as u32 <= c as u32 && c as u32 <= '9' as u32
}

/// The number that the digit `c` stands for.
pub open spec fn digit_value(c: char) -> nat {
    (c as u32 - '0' as u32) as nat
}

/// Every character of `s` is a decimal digit.
pub open spec fn all_digits(s: Seq<char>) -> bool {
    forall|i: int| 0 <= i < s.len() ==> is_digit(#[trigger] s[i])
}

/// The number that a run of digits stands for, the last digit counting
/// least.
pub open spec fn digits_value(s: Seq<char>) -> nat
    decreases s.len(),
{
    if s.len() == 0 {
        0
    } else {
        digits_value(s.drop_last()) * 10 + digit_value(s.last())
    }
}

/// The digits of a number after an optional `+` sign.
pub open spec fn unsigned_body(s: Seq<char>) -> Seq<char> {
    if s.len() > 0 && s[0] == '+' {
        s.subrange(1, s.len() as int)
    } else {
        s
    }
}

/// The number below 65536 that `s` denotes: an optional `+`, then one or
/// more decimal digits, leading zeros allowed, and nothing else.
pub open spec fn parse_u16(s: Seq<char>) -> Option<u16> {
    let body = unsigned_body(s);
    if body.len() > 0 && all_digits(body) && digits_value(body) <= u16::MAX {
        Some(digits_value(body) as u16)
    } else {
        None
    }
}

/// A number written in decimal reads back as itself.
pub proof fn lemma_decimal_reads_back(n: nat)
    ensures
        decimal(n).len() > 0,
        all_digits(decimal(n)),
        digits_value(decimal(n)) == n,
        decimal(n)[0] != '+',
    decreases n,
{
    reveal_with_fuel(digits_value, 2);
    if n < 10 {
        assert(decimal(n).drop_last() =~= Seq::<char>::empty());
    } else {
        lemma_decimal_reads_back(n / 10);
        let head = decimal(n / 10);
        assert(decimal(n).drop_last() =~= head);
        assert(decimal(n)[0] == head[0]);
        assert forall|i: int| 0 <= i < decimal(n).len() implies is_digit(
            #[trigger] decimal(n)[i],
        ) by {
            if i < head.len() {
                assert(decimal(n)[i] == head[i]);
            }
        }
    }
}

/// A longer run of digits never stands for a smaller number than the run
/// it begins with.
pub proof fn lemma_digits_value_grows(s: Seq<char>, k: int)
    requires
        0 <= k <= s.len(),
    ensures
        digits_value(s.subrange(0, k)) <= digits_value(s),
    decreases s.len() - k,
{
    if k == s.len() {
        assert(s.subrange(0, k) =~= s);
    } else {
        lemma_digits_value_grows(s, k + 1);
        assert(s.subrange(0, k + 1).drop_last() =~= s.subrange(0, k));
    }
}

/// The digit `d` as text.
pub fn digit_str(d: u64) -> (s: &'static str)
    requires
        d < 10,
    ensures
        s@ == seq![digit_char(d as nat)],
{
    proof {
        reveal_strlit("0");
        reveal_strlit("1");
        reveal_strlit("2");
        reveal_strlit("3");
        reveal_strlit("4");
        reveal_strlit("5");
        reveal_strlit("6");
        reveal_strlit("7");
        reveal_strlit("8");
        reveal_strlit("9");
    }
    let s = if d == 0 {
        "0"
    } else if d == 1 {
        "1"
    } else if d == 2 {
        "2"
    } else if d == 3 {
        "3"
    } else if d == 4 {
        "4"
    } else if d == 5 {
        "5"
    } else if d == 6 {
        "6"
    } else if d == 7 {
        "7"
    } else if d == 8 {
        "8"
    } else {
        "9"
    };
    assert(s@ =~= seq![digit_char(d as nat)]);
    s
}

/// Writes `n` in decimal at the end of `out`.
pub fn push_decimal(out: &mut String, n: u64)
    ensures
        final(out)@ == old(out)@ + decimal(n as nat),
    decreases n,
{
    if n >= 10 {
        push_decimal(out, n / 10);
    }
    out.append(digit_str(n % 10));
    proof {
        if n >= 10 {
            assert(final(out)@ =~= old(out)@ + decimal(n as nat));
        } else {
            assert(final(out)@ =~= old(out)@ + decimal(n as nat));
        }
    }
}

/// The characters of `s`.
pub fn chars_of(s: &str) -> (v: Vec<char>)
    ensures
        v@ == s@,
{
    let n = s.unicode_len();
    let mut v: Vec<char> = Vec::new();
    let mut i: usize = 0;
    while i < n
        invariant
            i <= n,
            n == s@.len(),
            v@ == s@.subrange(0, i as int),
        decreases n - i,
    {
        v.push(s.get_char(i));
        i += 1;
        assert(v@ =~= s@.subrange(0, i as int));
    }
    assert(v@ =~= s@);
    v
}

/// Tells whether `chars` from place `from` on reads exactly as `text`.
pub fn reads_as(chars: &Vec<char>, from: usize, text: &str) -> (b: bool)
    requires
        from <= chars@.len(),
    ensures
        b == (chars@.subrange(from as int, chars@.len() as int) == text@),
{
    let n = text.unicode_len();
    let total = chars.len();
    if total - from != n {
        return false;
    }
    let mut i: usize = 0;
    while i < n
        invariant
            i <= n,
            n == text@.len(),
            total == chars@.len(),
            from + n == total,
            forall|j: int| 0 <= j < i ==> chars@[from + j] == text@[j],
        decreases n - i,
    {
        if chars[from + i] != text.get_char(i) {
            assert(chars@.subrange(from as int, chars@.len() as int)[i as int] != text@[i as int]);
            return false;
        }
        i += 1;
    }
    assert(chars@.subrange(from as int, chars@.len() as int) =~= text@);
    true
}

/// Tells whether `chars` begins with `text`.
pub fn begins_with(chars: &Vec<char>, text: &str) -> (b: bool)
    ensures
        b == (chars@.len() >= text@.len() && chars@.subrange(0, text@.len() as int) == text@),
{
    let n = text.unicode_len();
    if chars.len() < n {
        return false;
    }
    let mut i: usize = 0;
    while i < n
        invariant
            i <= n,
            n == text@.len(),
            n <= chars@.len(),
            forall|j: int| 0 <= j < i ==> chars@[j] == text@[j],
        decreases n - i,
    {
        if chars[i] != text.get_char(i) {
            assert(chars@.subrange(0, n as int)[i as int] != text@[i as int]);
            return false;
        }
        i += 1;
    }
    assert(chars@.subrange(0, n as int) =~= text@);
    true
}

/// Reads the characters from place `from` on as a number below 65536.
pub fn read_u16(chars: &Vec<char>, from: usize) -> (r: Option<u16>)
    requires
        from <= chars@.len(),
    ensures
        r == parse_u16(chars@.subrange(from as int, chars@.len() as int)),
{
    let ghost whole = chars@.subrange(from as int, chars@.len() as int);
    let n = chars.len();
    let mut start = from;
    if start < n && chars[start] == '+' {
        assert(whole[0] == '+');
        start += 1;
    } else {
        assert(whole.len() > 0 ==> whole[0] == chars@[from as int]);
    }
    let ghost body = chars@.subrange(start as int, n as int);
    assert(body =~= unsigned_body(whole));
    if start == n {
        return None;
    }
    let mut value: u32 = 0;
    let mut i: usize = start;
    while i < n
        invariant
            start <= i <= n,
            n == chars@.len(),
            body == chars@.subrange(start as int, n as int),
            body == unsigned_body(whole),
            whole == chars@.subrange(from as int, chars@.len() as int),
            body.len() > 0,
            all_digits(body.subrange(0, i - start)),
            value == digits_value(body.subrange(0, i - start)),
            value <= u16::MAX,
        decreases n - i,
    {
        let c = chars[i];
        let code = c as u32;
        if code < 48 || code > 57 {
            assert(!is_digit(body[i - start]));
            return None;
        }
        let next = value * 10 + (code - 48);
        proof {
            let upto = body.subrange(0, i - start + 1);
            assert(upto.drop_last() =~= body.subrange(0, i - start));
            assert(upto.last() == c);
            assert(next == digits_value(upto));
            assert forall|j: int| 0 <= j < upto.len() implies is_digit(#[trigger] upto[j]) by {
                if j < i - start {
                    assert(upto[j] == body.subrange(0, i - start)[j]);
                }
            }
            if next > u16::MAX {
                lemma_digits_value_grows(body, i - start + 1);
            }
        }
        if next > 65535 {
            return None;
        }
        value = next;
        i += 1;
    }
    assert(body.subrange(0, i - start) =~= body);
    Some(value as u16)
}

} // verus!
