//! Parsing of version-4 internet addresses from their dotted-decimal text:
//! exactly four octets separated by single dots, each one to three decimal
//! digits, no leading zero, value at most 255. Addresses reach the service
//! façade as text; everything downstream works on the four plain octets.

use vstd::prelude::*;

use crate::data::Ipv4;

verus! {

/// A decimal digit.
pub open spec fn is_digit(c: char) -> bool {
    '0' <= c <= '9'
}

/// The number the digit text denotes, most significant digit first.
pub open spec fn digits_val(s: Seq<char>) -> int
    decreases s.len(),
{
    if s.len() == 0 {
        0
    } else {
        digits_val(s.drop_last()) * 10 + (s.last() as int - 48)
    }
}

/// Valid octet text: one to three digits, no leading zero, value at most
/// 255.
pub open spec fn valid_octet_text(s: Seq<char>) -> bool {
    &&& 1 <= s.len() <= 3
    &&& (forall|q: int| 0 <= q < s.len() ==> is_digit(s[q]))
    &&& (s.len() > 1 ==> s[0] != '0')
    &&& digits_val(s) <= 255
}

/// `s` splits into four valid octet texts, with dots exactly at `i`, `j`
/// and `k`.
pub open spec fn ipv4_split_at(s: Seq<char>, i: int, j: int, k: int) -> bool {
    &&& 0 <= i < j < k < s.len()
    &&& s[i] == '.' && s[j] == '.' && s[k] == '.'
    &&& valid_octet_text(s.subrange(0, i))
    &&& valid_octet_text(s.subrange(i + 1, j))
    &&& valid_octet_text(s.subrange(j + 1, k))
    &&& valid_octet_text(s.subrange(k + 1, s.len() as int))
}

/// Valid dotted-decimal address text.
pub open spec fn valid_ipv4_text(s: Seq<char>) -> bool {
    exists|i: int, j: int, k: int| ipv4_split_at(s, i, j, k)
}

/// The address that valid text denotes: the four octet values around the
/// one split the text has.
pub open spec fn spec_parse_ipv4(s: Seq<char>) -> Ipv4 {
    let (i, j, k) = choose|i: int, j: int, k: int| ipv4_split_at(s, i, j, k);
    Ipv4 {
        a: digits_val(s.subrange(0, i)) as u8,
        b: digits_val(s.subrange(i + 1, j)) as u8,
        c: digits_val(s.subrange(j + 1, k)) as u8,
        d: digits_val(s.subrange(k + 1, s.len() as int)) as u8,
    }
}

/// No dot occurs at positions `from` up to `to`.
pub open spec fn no_dot_between(s: Seq<char>, from: int, to: int) -> bool {
    forall|m: int| from <= m < to ==> s[m] != '.'
}

/// Digit text of up to three digits denotes a number within bounds.
proof fn lemma_digits_val_bounds(s: Seq<char>)
    requires
        forall|q: int| 0 <= q < s.len() ==> is_digit(s[q]),
    ensures
        0 <= digits_val(s),
        s.len() <= 1 ==> digits_val(s) <= 9,
        s.len() <= 2 ==> digits_val(s) <= 99,
        s.len() <= 3 ==> digits_val(s) <= 999,
    decreases s.len(),
{
    if s.len() == 0 {
    } else {
        assert forall|q: int| 0 <= q < s.drop_last().len() implies is_digit(
            s.drop_last()[q],
        ) by {
            assert(s.drop_last()[q] == s[q]);
        }
        lemma_digits_val_bounds(s.drop_last());
        assert(is_digit(s[s.len() - 1]));
    }
}

/// In a valid split, the dots stand exactly at the three split positions:
/// every other position holds an octet digit.
proof fn lemma_split_forces_dots(s: Seq<char>, i: int, j: int, k: int)
    requires
        ipv4_split_at(s, i, j, k),
    ensures
        forall|m: int|
            0 <= m < s.len() && m != i && m != j && m != k ==> s[m] != '.',
{
    assert forall|m: int| 0 <= m < s.len() && m != i && m != j && m != k implies s[m]
        != '.' by {
        if m < i {
            assert(s.subrange(0, i)[m] == s[m]);
            assert(is_digit(s.subrange(0, i)[m]));
        } else if m < j {
            assert(s.subrange(i + 1, j)[m - (i + 1)] == s[m]);
            assert(is_digit(s.subrange(i + 1, j)[m - (i + 1)]));
        } else if m < k {
            assert(s.subrange(j + 1, k)[m - (j + 1)] == s[m]);
            assert(is_digit(s.subrange(j + 1, k)[m - (j + 1)]));
        } else {
            assert(s.subrange(k + 1, s.len() as int)[m - (k + 1)] == s[m]);
            assert(is_digit(s.subrange(k + 1, s.len() as int)[m - (k + 1)]));
        }
    }
}

/// A dot can only stand at one of the three recorded dot positions when the
/// stretches between them are dot-free.
proof fn lemma_dot_is_recorded(s: Seq<char>, d1: int, d2: int, d3: int, m: int)
    requires
        0 <= d1 < d2 < d3 < s.len(),
        no_dot_between(s, 0, d1),
        no_dot_between(s, d1 + 1, d2),
        no_dot_between(s, d2 + 1, d3),
        no_dot_between(s, d3 + 1, s.len() as int),
        0 <= m < s.len(),
        s[m] == '.',
    ensures
        m == d1 || m == d2 || m == d3,
{
}

/// Address text splits in at most one way.
pub proof fn lemma_ipv4_split_unique(s: Seq<char>, i: int, j: int, k: int, i2: int, j2: int, k2: int)
    requires
        ipv4_split_at(s, i, j, k),
        ipv4_split_at(s, i2, j2, k2),
    ensures
        i == i2 && j == j2 && k == k2,
{
    lemma_split_forces_dots(s, i, j, k);
    lemma_split_forces_dots(s, i2, j2, k2);
}

/// Checks one octet's text, the characters of `s` from `from` up to `to`,
/// and yields its value.
fn check_octet(s: &str, from: usize, to: usize) -> (r: Option<u8>)
    requires
        from <= to <= s@.len(),
    ensures
        match r {
            Some(v) => valid_octet_text(s@.subrange(from as int, to as int)) && v as int
                == digits_val(s@.subrange(from as int, to as int)),
            None => !valid_octet_text(s@.subrange(from as int, to as int)),
        },
{
    let ghost octet = s@.subrange(from as int, to as int);
    let len = to - from;
    if len == 0 || len > 3 {
        return None;
    }
    if len > 1 && s.get_char(from) == '0' {
        proof {
            assert(octet[0] == '0');
        }
        return None;
    }
    let mut val: u32 = 0;
    let mut t: usize = 0;
    while t < len
        invariant
            from <= to <= s@.len(),
            len == to - from,
            1 <= len <= 3,
            t <= len,
            octet == s@.subrange(from as int, to as int),
            forall|q: int| 0 <= q < t ==> is_digit(octet[q]),
            val as int == digits_val(s@.subrange(from as int, from + t)),
        decreases len - t,
    {
        let c = s.get_char(from + t);
        proof {
            assert(octet[t as int] == s@[from + t]);
        }
        if !('0' <= c && c <= '9') {
            return None;
        }
        proof {
            assert forall|q: int| 0 <= q < t implies is_digit(
                #[trigger] s@.subrange(from as int, from + t)[q],
            ) by {
                assert(s@.subrange(from as int, from + t)[q] == octet[q]);
            }
            lemma_digits_val_bounds(s@.subrange(from as int, from + t));
        }
        val = val * 10 + (c as u32 - 48);
        t = t + 1;
        proof {
            let sub = s@.subrange(from as int, from + t);
            assert(sub.drop_last() =~= s@.subrange(from as int, from + t - 1));
            assert(sub.last() == s@[from + t - 1]);
        }
    }
    proof {
        assert(s@.subrange(from as int, from + t) =~= octet);
    }
    if val > 255 {
        return None;
    }
    Some(val as u8)
}

/// Parses dotted-decimal address text.
///
/// Yields the four octets exactly when the text is a valid dotted-decimal
/// address — four octets of one to three digits each, no leading zeros,
/// values at most 255, single dots between them — and nothing otherwise.
pub fn parse_ipv4(s: &str) -> (r: Option<Ipv4>)
    ensures
        match r {
            Some(ip) => valid_ipv4_text(s@) && ip == spec_parse_ipv4(s@),
            None => !valid_ipv4_text(s@),
        },
{
    let n = s.unicode_len();
    let mut ndots: usize = 0;
    let mut d1: usize = 0;
    let mut d2: usize = 0;
    let mut d3: usize = 0;
    let mut m: usize = 0;
    while m < n
        invariant
            n == s@.len(),
            m <= n,
            ndots <= 3,
            ndots >= 1 ==> d1 < m && s@[d1 as int] == '.' && no_dot_between(s@, 0, d1 as int),
            ndots >= 2 ==> d1 < d2 < m && s@[d2 as int] == '.' && no_dot_between(
                s@,
                d1 + 1,
                d2 as int,
            ),
            ndots == 3 ==> d2 < d3 < m && s@[d3 as int] == '.' && no_dot_between(
                s@,
                d2 + 1,
                d3 as int,
            ),
            ndots == 0 ==> no_dot_between(s@, 0, m as int),
            ndots == 1 ==> no_dot_between(s@, d1 + 1, m as int),
            ndots == 2 ==> no_dot_between(s@, d2 + 1, m as int),
            ndots == 3 ==> no_dot_between(s@, d3 + 1, m as int),
        decreases n - m,
    {
        let c = s.get_char(m);
        if c == '.' {
            if ndots == 0 {
                d1 = m;
            } else if ndots == 1 {
                d2 = m;
            } else if ndots == 2 {
                d3 = m;
            } else {
                // A fourth dot: a valid split places only three.
                proof {
                    if valid_ipv4_text(s@) {
                        let (i, j, k) = choose|i: int, j: int, k: int| ipv4_split_at(s@, i, j, k);
                        lemma_split_forces_dots(s@, i, j, k);
                        let di = d1 as int;
                        let dj = d2 as int;
                        let dk = d3 as int;
                        let dm = m as int;
                        assert(di == i || di == j || di == k);
                        assert(dj == i || dj == j || dj == k);
                        assert(dk == i || dk == j || dk == k);
                        assert(dm == i || dm == j || dm == k);
                    }
                }
                return None;
            }
            ndots = ndots + 1;
        }
        m = m + 1;
    }
    if ndots != 3 {
        // Fewer than three dots: a valid split needs three distinct ones.
        proof {
            if valid_ipv4_text(s@) {
                let (i, j, k) = choose|i: int, j: int, k: int| ipv4_split_at(s@, i, j, k);
                assert(s@[i] == '.' && s@[j] == '.' && s@[k] == '.');
                if ndots == 0 {
                    assert(s@[i] != '.');
                } else if ndots == 1 {
                    assert(i == d1 && j == d1);
                } else {
                    assert(i == d1 || i == d2);
                    assert(j == d1 || j == d2);
                    assert(k == d1 || k == d2);
                }
            }
        }
        return None;
    }
    proof {
        if valid_ipv4_text(s@) {
            let (i, j, k) = choose|i: int, j: int, k: int| ipv4_split_at(s@, i, j, k);
            lemma_dot_is_recorded(s@, d1 as int, d2 as int, d3 as int, i);
            lemma_dot_is_recorded(s@, d1 as int, d2 as int, d3 as int, j);
            lemma_dot_is_recorded(s@, d1 as int, d2 as int, d3 as int, k);
            assert(i == d1 && j == d2 && k == d3);
        }
    }
    let a = match check_octet(s, 0, d1) {
        Some(v) => v,
        None => {
            return None;
        },
    };
    let b = match check_octet(s, d1 + 1, d2) {
        Some(v) => v,
        None => {
            return None;
        },
    };
    let c = match check_octet(s, d2 + 1, d3) {
        Some(v) => v,
        None => {
            return None;
        },
    };
    let d = match check_octet(s, d3 + 1, n) {
        Some(v) => v,
        None => {
            return None;
        },
    };
    proof {
        assert(ipv4_split_at(s@, d1 as int, d2 as int, d3 as int));
        let (ci, cj, ck) = choose|i: int, j: int, k: int| ipv4_split_at(s@, i, j, k);
        lemma_ipv4_split_unique(s@, d1 as int, d2 as int, d3 as int, ci, cj, ck);
        lemma_digits_val_bounds(s@.subrange(0, d1 as int));
        lemma_digits_val_bounds(s@.subrange(d1 + 1, d2 as int));
        lemma_digits_val_bounds(s@.subrange(d2 + 1, d3 as int));
        lemma_digits_val_bounds(s@.subrange(d3 + 1, s@.len() as int));
    }
    Some(Ipv4 { a, b, c, d })
}

} // verus!
