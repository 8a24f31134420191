//! `file:` URIs: the local path that such a URI names, percent-decoded.
//!
//! Everything here works on the URI's UTF-8 bytes. The bytes that the
//! grammar looks at (`:`, `/`, `%`, hex digits, the letters of `file` and
//! `localhost`) are ASCII, and an ASCII byte never occurs inside the
//! encoding of another character, so reading bytes reads characters.
use vstd::prelude::*;
use vstd::string::StringSliceAdditionalSpecFns;

verus! {

/// The value of an ASCII hexadecimal digit (either case), if `b` is one.
pub open spec fn hex_digit_value(b: u8) -> Option<u8> {
    if 48 <= b <= 57 {
        Some((b - 48) as u8)
    } else if 97 <= b <= 102 {
        Some((b - 87) as u8)
    } else if 65 <= b <= 70 {
        Some((b - 55) as u8)
    } else {
        None
    }
}

/// Percent-decoding: a `%` followed by two hex digits stands for the byte
/// they spell; every other byte, a `%` without two hex digits after it
/// included, stands for itself.
pub open spec fn percent_decoded(s: Seq<u8>) -> Seq<u8>
    decreases s.len(),
{
    if s.len() == 0 {
        Seq::empty()
    } else if s[0] == 37 && s.len() >= 3 && hex_digit_value(s[1]) is Some && hex_digit_value(
        s[2],
    ) is Some {
        seq![(hex_digit_value(s[1])->0 * 16 + hex_digit_value(s[2])->0) as u8] + percent_decoded(
            s.skip(3),
        )
    } else {
        seq![s[0]] + percent_decoded(s.skip(1))
    }
}

/// An ASCII upper-case letter made lower-case; any other byte unchanged.
pub open spec fn ascii_lower_byte(b: u8) -> u8 {
    if 65 <= b <= 90 {
        (b + 32) as u8
    } else {
        b
    }
}

/// Whether two byte strings are equal up to the case of ASCII letters.
pub open spec fn eq_ignore_ascii_case(a: Seq<u8>, t: Seq<u8>) -> bool {
    &&& a.len() == t.len()
    &&& forall|i: int| 0 <= i < a.len() ==> ascii_lower_byte(a[i]) == ascii_lower_byte(t[i])
}

/// Whether `i` is the position of the first `b` in `s`.
pub open spec fn is_first_byte(s: Seq<u8>, b: u8, i: int) -> bool {
    &&& 0 <= i < s.len()
    &&& s[i] == b
    &&& forall|j: int| 0 <= j < i ==> s[j] != b
}

/// The position of the first `b` in `s`, if `b` occurs.
pub open spec fn first_byte(s: Seq<u8>, b: u8) -> Option<int> {
    if exists|i: int| is_first_byte(s, b, i) {
        Some(choose|i: int| is_first_byte(s, b, i))
    } else {
        None
    }
}

/// The letters `file`.
pub open spec fn file_word() -> Seq<u8> {
    seq![102u8, 105u8, 108u8, 101u8]
}

/// The letters `localhost`.
pub open spec fn localhost_word() -> Seq<u8> {
    seq![108u8, 111u8, 99u8, 97u8, 108u8, 104u8, 111u8, 115u8, 116u8]
}

/// Where the part of a URI that names a resource ends: at the first `?`
/// (a query) or `#` (a fragment), else at its end.
pub open spec fn resource_end(u: Seq<u8>) -> int {
    match (first_byte(u, 63u8), first_byte(u, 35u8)) {
        (Some(q), Some(f)) => if q < f {
            q
        } else {
            f
        },
        (Some(q), None) => q,
        (None, Some(f)) => f,
        (None, None) => u.len() as int,
    }
}

/// The local path named by a URI, as bytes. Query and fragment (from the
/// first `?` or `#`) are left out. The scheme (what comes before the first
/// `:`) must be `file` in any case. After it, a `//` opens an authority
/// that runs to the next `/` (or to the end, the path then being `/`); it
/// must be empty or `localhost` in any case. Without `//` the path is all
/// that follows the `:`, made absolute with a leading `/` where it has
/// none. The path is percent-decoded. `None` for any other URI.
pub open spec fn file_uri_local_path(uri: Seq<u8>) -> Option<Seq<u8>> {
    resource_local_path(uri.take(resource_end(uri)))
}

/// The local path named by a URI that has no query or fragment (see
/// [`file_uri_local_path`]).
pub open spec fn resource_local_path(u: Seq<u8>) -> Option<Seq<u8>> {
    match first_byte(u, 58u8) {
        None => None,
        Some(k) => {
            let rest = u.skip(k + 1);
            if !eq_ignore_ascii_case(u.take(k), file_word()) {
                None
            } else if rest.len() >= 2 && rest[0] == 47 && rest[1] == 47 {
                let after = rest.skip(2);
                let (host, path) = match first_byte(after, 47u8) {
                    None => (after, seq![47u8]),
                    Some(m) => (after.take(m), after.skip(m)),
                };
                if host.len() > 0 && !eq_ignore_ascii_case(host, localhost_word()) {
                    None
                } else {
                    Some(percent_decoded(path))
                }
            } else if rest.len() > 0 && rest[0] == 47 {
                Some(percent_decoded(rest))
            } else {
                Some(seq![47u8] + percent_decoded(rest))
            }
        },
    }
}

/// The value of a hexadecimal digit byte.
fn hex_digit(b: u8) -> (r: Option<u8>)
    ensures
        r == hex_digit_value(b),
        r matches Some(v) ==> v < 16,
{
    if 48 <= b && b <= 57 {
        Some(b - 48)
    } else if 97 <= b && b <= 102 {
        Some(b - 87)
    } else if 65 <= b && b <= 70 {
        Some(b - 55)
    } else {
        None
    }
}

/// Percent-decode the bytes of `s` from index `start` on.
fn percent_decode_from(s: &[u8], start: usize) -> (out: Vec<u8>)
    requires
        start <= s@.len(),
    ensures
        out@ == percent_decoded(s@.skip(start as int)),
{
    let mut out: Vec<u8> = Vec::new();
    let mut i: usize = start;
    while i < s.len()
        invariant
            start <= i <= s@.len(),
            out@ + percent_decoded(s@.skip(i as int)) == percent_decoded(s@.skip(start as int)),
        decreases s@.len() - i,
    {
        let ghost rest = s@.skip(i as int);
        let b = s[i];
        let mut byte: u8 = b;
        let mut step: usize = 1;
        if b == 37u8 && s.len() - i >= 3 {
            let h = hex_digit(s[i + 1]);
            let l = hex_digit(s[i + 2]);
            if let Some(hv) = h {
                if let Some(lv) = l {
                    byte = hv * 16 + lv;
                    step = 3;
                }
            }
        }
        proof {
            assert(rest[0] == b);
            if rest.len() >= 3 {
                assert(rest[1] == s@[i + 1]);
                assert(rest[2] == s@[i + 2]);
            }
            assert(rest.skip(step as int) =~= s@.skip((i + step) as int));
            assert(percent_decoded(rest) == seq![byte] + percent_decoded(rest.skip(step as int)));
            assert(out@.push(byte) + percent_decoded(s@.skip((i + step) as int)) =~= out@ + (seq![
                byte,
            ] + percent_decoded(rest.skip(step as int))));
        }
        out.push(byte);
        i = i + step;
    }
    proof {
        assert(s@.skip(i as int) =~= Seq::<u8>::empty());
        assert(out@ + Seq::<u8>::empty() =~= out@);
    }
    out
}

/// The position of the first `b` in `s` at or after `from`.
fn find_byte(s: &[u8], from: usize, b: u8) -> (r: Option<usize>)
    requires
        from <= s@.len(),
    ensures
        match r {
            Some(i) => from <= i < s@.len() && first_byte(s@.skip(from as int), b) == Some(
                i - from,
            ),
            None => first_byte(s@.skip(from as int), b) is None,
        },
{
    let ghost t = s@.skip(from as int);
    let mut i: usize = from;
    while i < s.len()
        invariant
            from <= i <= s@.len(),
            t == s@.skip(from as int),
            forall|j: int| from <= j < i ==> s@[j] != b,
        decreases s@.len() - i,
    {
        if s[i] == b {
            proof {
                let m = i - from;
                assert(is_first_byte(t, b, m)) by {
                    assert forall|j: int| 0 <= j < m implies t[j] != b by {
                        assert(t[j] == s@[from + j]);
                    }
                }
                let c = choose|c: int| is_first_byte(t, b, c);
                if c < m {
                    assert(t[c] == s@[from + c]);
                } else if c > m {
                    assert(t[m] == b);
                }
            }
            return Some(i);
        }
        i = i + 1;
    }
    proof {
        assert forall|m: int| !is_first_byte(t, b, m) by {
            if 0 <= m < t.len() {
                assert(t[m] == s@[from + m]);
            }
        }
    }
    None
}

/// Whether the bytes of `s` in `start..end` equal `t` up to ASCII case.
fn range_eq_ignore_case(s: &[u8], start: usize, end: usize, t: &[u8]) -> (r: bool)
    requires
        start <= end <= s@.len(),
    ensures
        r == eq_ignore_ascii_case(s@.subrange(start as int, end as int), t@),
{
    let ghost a = s@.subrange(start as int, end as int);
    if end - start != t.len() {
        return false;
    }
    let mut k: usize = 0;
    while k < t.len()
        invariant
            a == s@.subrange(start as int, end as int),
            end - start == t@.len(),
            start <= end <= s@.len(),
            k <= t@.len(),
            forall|i: int| 0 <= i < k ==> ascii_lower_byte(a[i]) == ascii_lower_byte(t@[i]),
        decreases t@.len() - k,
    {
        let x = s[start + k];
        let y = t[k];
        let lx: u8 = if 65 <= x && x <= 90 {
            x + 32
        } else {
            x
        };
        let ly: u8 = if 65 <= y && y <= 90 {
            y + 32
        } else {
            y
        };
        assert(a[k as int] == x);
        if lx != ly {
            return false;
        }
        k = k + 1;
    }
    true
}

/// The first `n` bytes of `s`, as a vector.
fn prefix_of(s: &[u8], n: usize) -> (v: Vec<u8>)
    requires
        n <= s@.len(),
    ensures
        v@ == s@.take(n as int),
{
    let mut v: Vec<u8> = Vec::new();
    let mut i: usize = 0;
    while i < n
        invariant
            n <= s@.len(),
            i <= n,
            v@ == s@.take(i as int),
        decreases n - i,
    {
        v.push(s[i]);
        i = i + 1;
        assert(v@ =~= s@.take(i as int));
    }
    v
}

/// The local path named by a `file:` URI, as bytes (see
/// [`file_uri_local_path`]); `None` for any other URI.
pub fn local_path_of_file_uri(uri: &str) -> (r: Option<Vec<u8>>)
    ensures
        match file_uri_local_path(uri.spec_bytes()) {
            Some(p) => r matches Some(v) && v@ == p,
            None => r is None,
        },
{
    let whole = uri.as_bytes();
    assert(whole@.skip(0) =~= whole@);
    let end: usize = match (find_byte(whole, 0, 63u8), find_byte(whole, 0, 35u8)) {
        (Some(q), Some(f)) => if q < f {
            q
        } else {
            f
        },
        (Some(q), None) => q,
        (None, Some(f)) => f,
        (None, None) => whole.len(),
    };
    let kept = prefix_of(whole, end);
    local_path_of_resource(kept.as_slice())
}

/// The local path named by a URI without query or fragment (see
/// [`resource_local_path`]).
fn local_path_of_resource(s: &[u8]) -> (r: Option<Vec<u8>>)
    ensures
        match resource_local_path(s@) {
            Some(p) => r matches Some(v) && v@ == p,
            None => r is None,
        },
{
    let ghost u = s@;
    assert(u.skip(0) =~= u);
    let k = match find_byte(s, 0, 58u8) {
        None => return None,
        Some(k) => k,
    };
    let file: [u8; 4] = [102u8, 105u8, 108u8, 101u8];
    assert(file@ =~= file_word());
    assert(u.subrange(0, k as int) =~= u.take(k as int));
    if !range_eq_ignore_case(s, 0, k, &file) {
        return None;
    }
    let p: usize = k + 1;
    let ghost rest = u.skip(p as int);
    let localhost: [u8; 9] = [108u8, 111u8, 99u8, 97u8, 108u8, 104u8, 111u8, 115u8, 116u8];
    assert(localhost@ =~= localhost_word());
    if s.len() - p >= 2 && s[p] == 47u8 && s[p + 1] == 47u8 {
        assert(rest[0] == s@[p as int] && rest[1] == s@[p + 1]);
        let a: usize = p + 2;
        assert(rest.skip(2) =~= u.skip(a as int));
        match find_byte(s, a, 47u8) {
            None => {
                assert(u.skip(a as int) =~= u.subrange(a as int, u.len() as int));
                if s.len() > a && !range_eq_ignore_case(s, a, s.len(), &localhost) {
                    return None;
                }
                let mut root: Vec<u8> = Vec::new();
                root.push(47u8);
                proof {
                    let one = seq![47u8];
                    assert(one.skip(1) =~= Seq::<u8>::empty());
                    assert(percent_decoded(one.skip(1)) =~= Seq::<u8>::empty());
                    assert(percent_decoded(one) =~= one);
                }
                Some(root)
            },
            Some(m) => {
                assert(u.skip(a as int).take(m - a) =~= u.subrange(a as int, m as int));
                if m > a && !range_eq_ignore_case(s, a, m, &localhost) {
                    return None;
                }
                assert(u.skip(a as int).skip(m - a) =~= u.skip(m as int));
                Some(percent_decode_from(s, m))
            },
        }
    } else if s.len() > p && s[p] == 47u8 {
        Some(percent_decode_from(s, p))
    } else {
        let mut path: Vec<u8> = Vec::new();
        path.push(47u8);
        let mut decoded = percent_decode_from(s, p);
        path.append(&mut decoded);
        Some(path)
    }
}

} // verus!
