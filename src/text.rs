use vstd::prelude::*;
use vstd::string::*;

verus! {

/// The decimal digit character for `d` (taken modulo ten).
pub open spec fn digit_char(d: nat) -> char {
    if d % 10 == 0 {
        '0'
    } else if d % 10 == 1 {
        '1'
    } else if d % 10 == 2 {
        '2'
    } else if d % 10 == 3 {
        '3'
    } else if d % 10 == 4 {
        '4'
    } else if d % 10 == 5 {
        '5'
    } else if d % 10 == 6 {
        '6'
    } else if d % 10 == 7 {
        '7'
    } else if d % 10 == 8 {
        '8'
    } else {
        '9'
    }
}

/// The shortest decimal rendering of `n`, without sign or leading zeros.
pub open spec fn decimal(n: nat) -> Seq<char>
    decreases n,
{
    if n < 10 {
        seq![digit_char(n)]
    } else {
        decimal(n / 10).push(digit_char(n % 10))
    }
}

fn digit_text(d: u64) -> (r: &'static str)
    requires
        d < 10,
    ensures
        r@ == seq![digit_char(d as nat)],
{
    proof {
        reveal_strlit("0");
        reveal_strlit("1");
        reveal_strlit("2");
        reveal_strlit("3");
        reveal_strlit("4");
        reveal_strlit("5");
        reveal_strlit("6");
        reveal_strlit("7");
        reveal_strlit("8");
        reveal_strlit("9");
    }
    if d == 0 {
        "0"
    } else if d == 1 {
        "1"
    } else if d == 2 {
        "2"
    } else if d == 3 {
        "3"
    } else if d == 4 {
        "4"
    } else if d == 5 {
        "5"
    } else if d == 6 {
        "6"
    } else if d == 7 {
        "7"
    } else if d == 8 {
        "8"
    } else {
        "9"
    }
}

/// Appends the decimal rendering of `n` to `s`.
pub fn push_decimal(s: &mut String, n: u64)
    ensures
        final(s)@ == old(s)@ + decimal(n as nat),
    decreases n,
{
    if n >= 10 {
        push_decimal(s, n / 10);
    }
    s.append(digit_text(n % 10));
    assert(s@ =~= old(s)@ + decimal(n as nat));
}

/// Position of the last occurrence of `c` in `s`, or -1 when there is none.
pub open spec fn last_index_of(s: Seq<char>, c: char) -> int
    decreases s.len(),
{
    if s.len() == 0 {
        -1
    } else if s.last() == c {
        s.len() - 1
    } else {
        last_index_of(s.drop_last(), c)
    }
}

pub open spec fn is_digit(c: char) -> bool {
    '0' <= c && c <= '9'
}

pub open spec fn all_digits(s: Seq<char>) -> bool {
    forall|i: int| 0 <= i < s.len() ==> is_digit(#[trigger] s[i])
}

/// The number that a run of decimal digits denotes.
pub open spec fn digits_value(s: Seq<char>) -> nat
    decreases s.len(),
{
    if s.len() == 0 {
        0
    } else {
        digits_value(s.drop_last()) * 10 + ((s.last() as nat) - ('0' as nat)) as nat
    }
}

/// How an unsigned 16-bit integer is read from text: an optional `+`, then one
/// or more decimal digits whose value fits in 16 bits.
pub open spec fn parse_u16(t: Seq<char>) -> Option<u16> {
    let d = if t.len() > 0 && t[0] == '+' {
        t.drop_first()
    } else {
        t
    };
    if d.len() > 0 && all_digits(d) && digits_value(d) <= 65535 {
        Some(digits_value(d) as u16)
    } else {
        None
    }
}

/// The port named by an origin: the text after its last `:`, read as a `u16`.
pub open spec fn origin_port(origin: Seq<char>) -> Option<u16> {
    let k = last_index_of(origin, ':');
    if k < 0 {
        None
    } else {
        parse_u16(origin.subrange(k + 1, origin.len() as int))
    }
}

proof fn lemma_last_index_bounds(s: Seq<char>, c: char)
    ensures
        -1 <= last_index_of(s, c) < s.len(),
        last_index_of(s, c) >= 0 ==> s[last_index_of(s, c)] == c,
        forall|j: int| last_index_of(s, c) < j < s.len() ==> s[j] != c,
    decreases s.len(),
{
    if s.len() > 0 && s.last() != c {
        lemma_last_index_bounds(s.drop_last(), c);
        assert forall|j: int| last_index_of(s, c) < j < s.len() implies s[j] != c by {
            if j < s.len() - 1 {
                assert(s[j] == s.drop_last()[j]);
            }
        }
    }
}

/// Position of the last `c` in `s`, if any.
pub fn last_position(s: &str, c: char) -> (r: Option<usize>)
    ensures
        match r {
            Some(k) => k as int == last_index_of(s@, c) && k < s@.len(),
            None => last_index_of(s@, c) < 0,
        },
{
    let n = s.unicode_len();
    let mut k: usize = n;
    while k > 0
        invariant
            k <= n == s@.len(),
            forall|j: int| k <= j < n ==> s@[j] != c,
        ensures
            k == 0 || s@[k - 1] == c,
        decreases k,
    {
        if s.get_char(k - 1) == c {
            break;
        }
        k = k - 1;
    }
    proof {
        lemma_last_index_bounds(s@, c);
    }
    if k == 0 {
        None
    } else {
        Some(k - 1)
    }
}

/// Reads the port from the end of an origin such as `http://127.0.0.1:5173`.
pub fn extract_port(origin: &str) -> (r: Option<u16>)
    ensures
        r == origin_port(origin@),
{
    let n = origin.unicode_len();
    let k: usize = match last_position(origin, ':') {
        Some(p) => p + 1,
        None => {
            return None;
        },
    };
    let ghost t = origin@.subrange(k as int, n as int);
    let mut i: usize = k;
    if i < n && origin.get_char(i) == '+' {
        i = i + 1;
    }
    let ghost d = origin@.subrange(i as int, n as int);
    assert(d =~= (if t.len() > 0 && t[0] == '+' { t.drop_first() } else { t }));
    if i == n {
        return None;
    }
    let start = i;
    let mut acc: u32 = 0;
    while i < n
        invariant
            start <= i <= n == origin@.len(),
            d == origin@.subrange(start as int, n as int),
            d == (if t.len() > 0 && t[0] == '+' { t.drop_first() } else { t }),
            t == origin@.subrange(k as int, n as int),
            k - 1 == last_index_of(origin@, ':'),
            all_digits(origin@.subrange(start as int, i as int)),
            acc as nat == if digits_value(origin@.subrange(start as int, i as int)) <= 65535 {
                digits_value(origin@.subrange(start as int, i as int))
            } else {
                65536
            },
        decreases n - i,
    {
        let c = origin.get_char(i);
        let ghost p = origin@.subrange(start as int, i as int);
        let ghost q = origin@.subrange(start as int, i + 1);
        assert(q.drop_last() =~= p);
        if !('0' <= c && c <= '9') {
            assert(d[i - start] == c);
            assert(!all_digits(d));
            assert(parse_u16(t).is_none());
            return None;
        }
        let v = (c as u32) - ('0' as u32);
        assert(digits_value(q) == digits_value(p) * 10 + v);
        if acc * 10 + v > 65535 {
            acc = 65536;
        } else {
            acc = acc * 10 + v;
        }
        i = i + 1;
        assert(all_digits(q)) by {
            assert forall|j: int| 0 <= j < q.len() implies is_digit(#[trigger] q[j]) by {
                if j < p.len() {
                    assert(q[j] == p[j]);
                }
            }
        }
    }
    assert(origin@.subrange(start as int, i as int) =~= d);
    if acc > 65535 {
        None
    } else {
        Some(acc as u16)
    }
}

} // verus!
