use vstd::prelude::*;

verus! {

/// Whether `c` is an ASCII decimal digit.
pub open spec fn is_digit(c: char) -> bool {
    '0' <= c && c <= '9'
}

/// The number that a string of decimal digits writes.
pub open spec fn digits_value(s: Seq<char>) -> int
    decreases s.len(),
{
    if s.len() == 0 {
        0
    } else {
        digits_value(s.drop_last()) * 10 + (s.last() as int - '0' as int)
    }
}

/// The position of the last `-` in `s`, or -1 where there is none.
pub open spec fn last_dash(s: Seq<char>) -> int
    decreases s.len(),
{
    if s.len() == 0 {
        -1
    } else if s.last() == '-' {
        s.len() - 1
    } else {
        last_dash(s.drop_last())
    }
}

/// The partition key that a partition's name `<topic>-<index>` denotes: the
/// topic is all before the last dash, the index the decimal digits after it.
pub open spec fn partition_name_key(s: Seq<char>) -> Option<(Seq<char>, i32)> {
    let d = last_dash(s);
    let suffix = s.subrange(d + 1, s.len() as int);
    if d >= 0 && suffix.len() > 0 && (forall|i: int| 0 <= i < suffix.len() ==> is_digit(#[trigger] suffix[i]))
        && digits_value(suffix) <= i32::MAX {
        Some((s.subrange(0, d), digits_value(suffix) as i32))
    } else {
        None
    }
}

proof fn lemma_last_dash_bounds(s: Seq<char>)
    ensures
        -1 <= last_dash(s) < s.len(),
        last_dash(s) >= 0 ==> s[last_dash(s)] == '-',
        forall|i: int| last_dash(s) < i < s.len() ==> s[i] != '-',
    decreases s.len(),
{
    if s.len() > 0 && s.last() != '-' {
        let t = s.drop_last();
        lemma_last_dash_bounds(t);
        assert forall|i: int| last_dash(s) < i < s.len() implies s[i] != '-' by {
            if i < s.len() - 1 {
                assert(s[i] == t[i]);
            }
        }
    }
}

proof fn lemma_last_dash_prefix(s: Seq<char>, k: int)
    requires
        0 <= k <= s.len(),
        forall|i: int| k <= i < s.len() ==> s[i] != '-',
    ensures
        last_dash(s) == last_dash(s.subrange(0, k)),
    decreases s.len() - k,
{
    if k < s.len() {
        assert(s.drop_last() =~= s.subrange(0, s.len() - 1));
        lemma_last_dash_prefix(s.drop_last(), k);
        assert(s.drop_last().subrange(0, k) =~= s.subrange(0, k));
    } else {
        assert(s.subrange(0, k) =~= s);
    }
}

proof fn lemma_digits_monotone(s: Seq<char>, j: int, k: int)
    requires
        0 <= j <= k <= s.len(),
        forall|i: int| 0 <= i < s.len() ==> is_digit(#[trigger] s[i]),
    ensures
        0 <= digits_value(s.subrange(0, j)) <= digits_value(s.subrange(0, k)),
    decreases k - j,
{
    if j < k {
        lemma_digits_monotone(s, j, k - 1);
        let t = s.subrange(0, k);
        assert(t.drop_last() =~= s.subrange(0, k - 1));
        assert(is_digit(s[k - 1]));
    } else {
        lemma_digits_nonneg(s.subrange(0, k));
    }
}

proof fn lemma_digits_nonneg(s: Seq<char>)
    requires
        forall|i: int| 0 <= i < s.len() ==> is_digit(#[trigger] s[i]),
    ensures
        digits_value(s) >= 0,
    decreases s.len(),
{
    if s.len() > 0 {
        assert(is_digit(s[s.len() - 1]));
        lemma_digits_nonneg(s.drop_last());
    }
}

/// Whether two strings hold the same characters.
pub fn same_text(a: &str, b: &str) -> (r: bool)
    ensures
        r == (a@ == b@),
{
    let n = a.unicode_len();
    if n != b.unicode_len() {
        return false;
    }
    let mut i: usize = 0;
    while i < n
        invariant
            n == a@.len(),
            n == b@.len(),
            i <= n,
            a@.subrange(0, i as int) == b@.subrange(0, i as int),
        decreases n - i,
    {
        if a.get_char(i) != b.get_char(i) {
            return false;
        }
        assert(a@.subrange(0, i + 1) =~= a@.subrange(0, i as int).push(a@[i as int]));
        assert(b@.subrange(0, i + 1) =~= b@.subrange(0, i as int).push(b@[i as int]));
        i = i + 1;
    }
    assert(a@ =~= a@.subrange(0, n as int));
    assert(b@ =~= b@.subrange(0, n as int));
    true
}

/// Splits a partition's name `<topic>-<index>` into its topic and index.
pub fn parse_partition_name(name: &str) -> (r: Option<(String, i32)>)
    ensures
        match r {
            Some((t, p)) => partition_name_key(name@) == Some((t@, p)),
            None => partition_name_key(name@).is_none(),
        },
{
    let n = name.unicode_len();
    let ghost s = name@;
    proof {
        lemma_last_dash_bounds(s);
    }
    // find the last dash, from the end
    let mut k: usize = n;
    while k > 0 && name.get_char(k - 1) != '-'
        invariant
            n == s.len(),
            s == name@,
            k <= n,
            forall|i: int| k <= i < n ==> s[i] != '-',
        decreases k,
    {
        k = k - 1;
    }
    proof {
        lemma_last_dash_prefix(s, k as int);
        if k > 0 {
            let t = s.subrange(0, k as int);
            assert(t.last() == '-');
        } else {
            assert(s.subrange(0, 0).len() == 0);
        }
    }
    if k == 0 {
        return None;
    }
    let d: usize = k - 1;
    assert(last_dash(s) == d);
    let ghost suffix = s.subrange(d + 1, n as int);
    if d + 1 == n {
        return None;
    }
    let mut value: i32 = 0;
    let mut j: usize = d + 1;
    while j < n
        invariant
            n == s.len(),
            s == name@,
            d + 1 <= j <= n,
            suffix == s.subrange(d + 1, n as int),
            forall|i: int| 0 <= i < j - (d + 1) ==> is_digit(#[trigger] suffix[i]),
            value as int == digits_value(suffix.subrange(0, j - (d + 1))),
            value >= 0,
            last_dash(s) == d,
        decreases n - j,
    {
        let c = name.get_char(j);
        if !('0' <= c && c <= '9') {
            assert(!is_digit(suffix[j - (d + 1)]));
            return None;
        }
        let digit: i32 = (c as u32 - '0' as u32) as i32;
        let ghost m: int = j - (d + 1);
        assert(suffix.subrange(0, m + 1).drop_last() =~= suffix.subrange(0, m));
        if value > (i32::MAX - digit) / 10 {
            proof {
                let v = value as int;
                let dg = digit as int;
                assert(0 <= dg <= 9);
                assert(v * 10 + dg > i32::MAX) by (nonlinear_arith)
                    requires
                        v > (i32::MAX - dg) / 10,
                        0 <= dg <= 9,
                ;
                assert(suffix[m] == c);
                assert(digits_value(suffix.subrange(0, m + 1)) == v * 10 + dg);
                if forall|i: int| 0 <= i < suffix.len() ==> is_digit(#[trigger] suffix[i]) {
                    lemma_digits_monotone(suffix, m + 1, suffix.len() as int);
                    assert(suffix.subrange(0, suffix.len() as int) =~= suffix);
                }
            }
            return None;
        }
        value = value * 10 + digit;
        j = j + 1;
    }
    assert(suffix.subrange(0, suffix.len() as int) =~= suffix);
    let topic = String::from_str(name.substring_char(0, d));
    Some((topic, value))
}

} // verus!
