//! Character-level helpers: decimal integers, splitting on a delimiter and
//! joining fields back together.

use vstd::prelude::*;

verus! {

/// Relies on `String::push`: the character is appended at the end.
#[verifier::external_body]
pub(crate) fn push_char(s: &mut String, c: char)
    ensures
        final(s)@ == old(s)@.push(c),
{
    s.push(c);
}

pub open spec fn is_digit(c: char) -> bool {
    48 <= (c as u32) && (c as u32) <= 57
}

pub open spec fn digit_char(d: nat) -> char {
    ((d + 48) as u32) as char
}

pub open spec fn digit_value(c: char) -> int {
    (c as u32) - 48
}

/// The base-10 rendering of `n`, without sign or leading zeros.
pub open spec fn decimal(n: nat) -> Seq<char>
    decreases n,
{
    if n < 10 {
        seq![digit_char(n)]
    } else {
        decimal(n / 10).push(digit_char(n % 10))
    }
}

/// The base-10 rendering of a signed integer: a `-` before negative values.
pub open spec fn int_text(n: int) -> Seq<char> {
    if n < 0 {
        seq!['-'] + decimal((-n) as nat)
    } else {
        decimal(n as nat)
    }
}

pub open spec fn all_digits(s: Seq<char>) -> bool {
    forall|i: int| 0 <= i < s.len() ==> is_digit(#[trigger] s[i])
}

/// The value of a string of decimal digits.
pub open spec fn digits_value(s: Seq<char>) -> int
    decreases s.len(),
{
    if s.len() == 0 {
        0
    } else {
        10 * digits_value(s.drop_last()) + digit_value(s.last())
    }
}

/// The integer that `s` writes: an optional sign, then at least one digit.
pub open spec fn int_of(s: Seq<char>) -> Option<int> {
    if s.len() > 0 && (s[0] == '+' || s[0] == '-') {
        let rest = s.subrange(1, s.len() as int);
        if rest.len() > 0 && all_digits(rest) {
            if s[0] == '-' {
                Some(-digits_value(rest))
            } else {
                Some(digits_value(rest))
            }
        } else {
            None
        }
    } else if s.len() > 0 && all_digits(s) {
        Some(digits_value(s))
    } else {
        None
    }
}

/// The `i64` that `s` writes, if it writes one in range.
pub open spec fn i64_of(s: Seq<char>) -> Option<i64> {
    match int_of(s) {
        Some(v) => if i64::MIN <= v && v <= i64::MAX {
            Some(v as i64)
        } else {
            None
        },
        None => None,
    }
}


proof fn lemma_digit_char(d: nat)
    requires
        d < 10,
    ensures
        is_digit(digit_char(d)),
        digit_value(digit_char(d)) == d,
{
}

/// A rendered decimal is a non-empty run of digits whose value is `n`.
pub proof fn lemma_decimal(n: nat)
    ensures
        decimal(n).len() > 0,
        all_digits(decimal(n)),
        digits_value(decimal(n)) == n,
    decreases n,
{
    if n < 10 {
        lemma_digit_char(n);
        assert(decimal(n).drop_last() =~= Seq::<char>::empty());
        assert(digits_value(Seq::<char>::empty()) == 0);
        assert(decimal(n).last() == digit_char(n));
    } else {
        lemma_decimal(n / 10);
        lemma_digit_char(n % 10);
        let s = decimal(n);
        assert(s.drop_last() =~= decimal(n / 10));
        assert(s.last() == digit_char(n % 10));
        assert(n == 10 * (n / 10) + n % 10);
        assert forall|i: int| 0 <= i < s.len() implies is_digit(#[trigger] s[i]) by {
            if i < s.len() - 1 {
                assert(s[i] == decimal(n / 10)[i]);
            }
        }
    }
}

/// Reading back a rendered decimal gives the number.
pub proof fn lemma_int_of_decimal(n: nat)
    ensures
        int_of(decimal(n)) == Some(n as int),
{
    lemma_decimal(n);
    assert(is_digit(decimal(n)[0]));
}

proof fn lemma_digits_value_nonneg(s: Seq<char>)
    requires
        all_digits(s),
    ensures
        digits_value(s) >= 0,
    decreases s.len(),
{
    if s.len() > 0 {
        assert(all_digits(s.drop_last())) by {
            assert forall|i: int| 0 <= i < s.drop_last().len() implies is_digit(
                #[trigger] s.drop_last()[i],
            ) by {
                assert(is_digit(s[i]));
            }
        }
        lemma_digits_value_nonneg(s.drop_last());
        assert(is_digit(s[s.len() - 1]));
    }
}

/// Appending digits never lowers the value of a run of digits.
proof fn lemma_digits_value_prefix(s: Seq<char>, j: int)
    requires
        all_digits(s),
        0 <= j <= s.len(),
    ensures
        digits_value(s.subrange(0, j)) <= digits_value(s),
    decreases s.len() - j,
{
    if j < s.len() {
        let t = s.subrange(0, j + 1);
        assert(t.drop_last() =~= s.subrange(0, j));
        assert(all_digits(s.subrange(0, j))) by {
            assert forall|i: int| 0 <= i < j implies is_digit(#[trigger] s.subrange(0, j)[i]) by {
                assert(is_digit(s[i]));
            }
        }
        lemma_digits_value_nonneg(s.subrange(0, j));
        assert(is_digit(s[j]));
        assert(t.last() == s[j]);
        lemma_digits_value_prefix(s, j + 1);
    } else {
        assert(s.subrange(0, j) =~= s);
    }
}

fn digit_to_char(d: u64) -> (c: char)
    requires
        d < 10,
    ensures
        digit_char(d as nat) == c,
{
    let b: u8 = (d as u8) + 48;
    b as char
}

/// Appends the decimal rendering of `n`.
pub fn push_decimal(s: &mut String, n: u64)
    ensures
        final(s)@ == old(s)@ + decimal(n as nat),
    decreases n,
{
    if n >= 10 {
        push_decimal(s, n / 10);
        push_char(s, digit_to_char(n % 10));
        assert(s@ =~= old(s)@ + decimal(n as nat));
    } else {
        push_char(s, digit_to_char(n));
        assert(s@ =~= old(s)@ + decimal(n as nat));
    }
}

/// Appends the decimal rendering of `n`, with a `-` before a negative value.
pub fn push_int(s: &mut String, n: i64)
    ensures
        final(s)@ == old(s)@ + int_text(n as int),
{
    if n < 0 {
        push_char(s, '-');
        let m: u64 = ((-(n + 1)) as u64) + 1;
        push_decimal(s, m);
        assert(s@ =~= old(s)@ + int_text(n as int));
    } else {
        push_decimal(s, n as u64);
    }
}

/// Reads an `i64` written in base 10, with an optional `+` or `-` sign.
pub fn parse_i64(s: &str) -> (r: Option<i64>)
    ensures
        r == i64_of(s@),
{
    let n = s.unicode_len();
    if n == 0 {
        return None;
    }
    let c0 = s.get_char(0);
    let start: usize = if c0 == '+' || c0 == '-' {
        1
    } else {
        0
    };
    let neg = c0 == '-';
    if start == n {
        return None;
    }
    let ghost digits = s@.subrange(start as int, n as int);
    let mut i: usize = start;
    while i < n
        invariant
            start <= i <= n,
            start <= 1,
            n > 0,
            start == 0 ==> !(s@[0] == '+' || s@[0] == '-'),
            start == 1 ==> (s@[0] == '+' || s@[0] == '-'),
            neg == (s@[0] == '-'),
            n == s@.len(),
            digits == s@.subrange(start as int, n as int),
            forall|k: int| start <= k < i ==> is_digit(#[trigger] s@[k]),
        decreases n - i,
    {
        let c = s.get_char(i);
        let code = c as u32;
        if !(48 <= code && code <= 57) {
            assert(!is_digit(digits[i - start]));
            assert(!all_digits(digits));
            if start == 0 {
                assert(digits =~= s@);
            } else {
                assert(digits =~= s@.subrange(1, s@.len() as int));
            }
            return None;
        }
        i = i + 1;
    }
    assert(all_digits(digits)) by {
        assert forall|k: int| 0 <= k < digits.len() implies is_digit(#[trigger] digits[k]) by {
            assert(digits[k] == s@[k + start]);
        }
    }
    if start == 0 {
        assert(digits =~= s@);
    } else {
        assert(digits =~= s@.subrange(1, s@.len() as int));
    }
    let limit: u64 = 9223372036854775808;
    let mut acc: u64 = 0;
    let mut j: usize = start;
    while j < n
        invariant
            start <= j <= n,
            start <= 1,
            n > 0,
            start == 0 ==> !(s@[0] == '+' || s@[0] == '-'),
            start == 1 ==> (s@[0] == '+' || s@[0] == '-'),
            neg == (s@[0] == '-'),
            n == s@.len(),
            digits == s@.subrange(start as int, n as int),
            all_digits(digits),
            limit == 9223372036854775808u64,
            acc <= limit,
            acc as int == digits_value(digits.subrange(0, j - start)),
        decreases n - j,
    {
        let c = s.get_char(j);
        let ghost pre = digits.subrange(0, j - start);
        let ghost next = digits.subrange(0, j + 1 - start);
        assert(next.drop_last() =~= pre);
        assert(next.last() == c);
        assert(digits[j - start] == c);
        assert(is_digit(digits[j - start]));
        let d: u64 = (c as u32 - 48) as u64;
        if acc > (limit - d) / 10 {
            proof {
                assert(digits_value(next) == acc * 10 + d);
                assert(acc * 10 + d > limit);
                lemma_digits_value_prefix(digits, j + 1 - start);
                if start == 0 {
                    assert(digits =~= s@);
                } else {
                    assert(digits =~= s@.subrange(1, s@.len() as int));
                }
            }
            return None;
        }
        acc = acc * 10 + d;
        j = j + 1;
    }
    assert(digits.subrange(0, n - start) =~= digits);
    if neg {
        if acc == limit {
            Some(i64::MIN)
        } else {
            Some(-(acc as i64))
        }
    } else if acc == limit {
        None
    } else {
        Some(acc as i64)
    }
}


/// The views of a sequence of strings.
pub open spec fn views(v: Seq<String>) -> Seq<Seq<char>> {
    v.map_values(|f: String| f@)
}

/// The fields of `s` between occurrences of `d`: `k` delimiters make
/// `k + 1` fields, some of which may be empty.
pub open spec fn fields_of(s: Seq<char>, d: char) -> Seq<Seq<char>>
    decreases s.len(),
{
    if s.len() == 0 {
        seq![Seq::<char>::empty()]
    } else {
        let prev = fields_of(s.drop_last(), d);
        if s.last() == d {
            prev.push(Seq::<char>::empty())
        } else {
            prev.update(prev.len() - 1, prev.last().push(s.last()))
        }
    }
}

/// The fields put back together, one `d` between each two.
pub open spec fn join_fields(fs: Seq<Seq<char>>, d: char) -> Seq<char>
    decreases fs.len(),
{
    if fs.len() == 0 {
        Seq::<char>::empty()
    } else if fs.len() == 1 {
        fs[0]
    } else {
        join_fields(fs.drop_last(), d) + seq![d] + fs.last()
    }
}

pub open spec fn free_of(s: Seq<char>, d: char) -> bool {
    forall|i: int| 0 <= i < s.len() ==> #[trigger] s[i] != d
}

pub proof fn lemma_fields_len(s: Seq<char>, d: char)
    ensures
        fields_of(s, d).len() >= 1,
    decreases s.len(),
{
    if s.len() > 0 {
        lemma_fields_len(s.drop_last(), d);
    }
}

/// A string without the delimiter is a single field.
pub proof fn lemma_fields_single(s: Seq<char>, d: char)
    requires
        free_of(s, d),
    ensures
        fields_of(s, d) == seq![s],
    decreases s.len(),
{
    if s.len() > 0 {
        let t = s.drop_last();
        assert(free_of(t, d)) by {
            assert forall|i: int| 0 <= i < t.len() implies #[trigger] t[i] != d by {
                assert(t[i] == s[i]);
            }
        }
        lemma_fields_single(t, d);
        assert(s.last() != d);
        assert(t.push(s.last()) =~= s);
        assert(fields_of(s, d) =~= seq![s]);
    } else {
        assert(s =~= Seq::<char>::empty());
    }
}

/// Splitting at one delimiter splits the fields of the two sides apart.
pub proof fn lemma_fields_concat(a: Seq<char>, b: Seq<char>, d: char)
    ensures
        fields_of(a + seq![d] + b, d) == fields_of(a, d) + fields_of(b, d),
    decreases b.len(),
{
    let s = a + seq![d] + b;
    lemma_fields_len(a, d);
    if b.len() == 0 {
        assert(s.drop_last() =~= a);
        assert(fields_of(s, d) =~= fields_of(a, d) + fields_of(b, d));
    } else {
        let b2 = b.drop_last();
        lemma_fields_concat(a, b2, d);
        lemma_fields_len(b2, d);
        assert(s.drop_last() =~= a + seq![d] + b2);
        assert(s.last() == b.last());
        assert(fields_of(s, d) =~= fields_of(a, d) + fields_of(b, d));
    }
}

/// Splits `s` at each occurrence of `d`.
pub fn split_fields(s: &str, d: char) -> (r: Vec<String>)
    ensures
        views(r@) == fields_of(s@, d),
{
    let n = s.unicode_len();
    let mut fields: Vec<String> = Vec::new();
    let mut cur = String::new();
    let mut i: usize = 0;
    while i < n
        invariant
            i <= n,
            n == s@.len(),
            views(fields@).push(cur@) == fields_of(s@.subrange(0, i as int), d),
        decreases n - i,
    {
        let c = s.get_char(i);
        let ghost pre = s@.subrange(0, i as int);
        let ghost next = s@.subrange(0, i + 1);
        assert(next.drop_last() =~= pre);
        assert(next.last() == c);
        proof {
            lemma_fields_len(pre, d);
        }
        if c == d {
            let done = cur;
            fields.push(done);
            cur = String::new();
            assert(views(fields@).push(cur@) =~= fields_of(next, d));
        } else {
            push_char(&mut cur, c);
            assert(views(fields@).push(cur@) =~= fields_of(next, d));
        }
        i = i + 1;
    }
    fields.push(cur);
    assert(s@.subrange(0, n as int) =~= s@);
    fields
}

/// Joins `fields[start..]` with `d` between each two.
pub fn join_from(fields: &Vec<String>, start: usize, d: char) -> (r: String)
    requires
        start <= fields.len(),
    ensures
        r@ == join_fields(views(fields@).subrange(start as int, fields.len() as int), d),
{
    let mut r = String::new();
    let mut i: usize = start;
    while i < fields.len()
        invariant
            start <= i <= fields.len(),
            r@ == join_fields(views(fields@).subrange(start as int, i as int), d),
        decreases fields.len() - i,
    {
        let ghost pre = views(fields@).subrange(start as int, i as int);
        let ghost next = views(fields@).subrange(start as int, i + 1);
        assert(next.drop_last() =~= pre);
        assert(next.last() == fields@[i as int]@);
        if i > start {
            push_char(&mut r, d);
        }
        r.append(fields[i].as_str());
        i = i + 1;
    }
    r
}


/// Whether two strings hold the same characters.
pub fn text_eq(a: &str, b: &str) -> (r: bool)
    ensures
        r == (a@ == b@),
{
    let n = a.unicode_len();
    if n != b.unicode_len() {
        return false;
    }
    let mut i: usize = 0;
    while i < n
        invariant
            i <= n,
            n == a@.len(),
            n == b@.len(),
            forall|k: int| 0 <= k < i ==> a@[k] == b@[k],
        decreases n - i,
    {
        if a.get_char(i) != b.get_char(i) {
            return false;
        }
        i = i + 1;
    }
    assert(a@ =~= b@);
    true
}

} // verus!
