//! Small verified string helpers: joining with a separator and rendering
//! unsigned integers in decimal.

use vstd::prelude::*;

verus! {

/// The characters obtained by placing `sep` between consecutive parts.
pub open spec fn spec_join(parts: Seq<Seq<char>>, sep: Seq<char>) -> Seq<char>
    decreases parts.len(),
{
    if parts.len() == 0 {
        Seq::empty()
    } else if parts.len() == 1 {
        parts[0]
    } else {
        parts[0] + sep + spec_join(parts.drop_first(), sep)
    }
}

proof fn lemma_join_push(parts: Seq<Seq<char>>, sep: Seq<char>, last: Seq<char>)
    ensures
        parts.len() == 0 ==> spec_join(parts.push(last), sep) == last,
        parts.len() > 0 ==> spec_join(parts.push(last), sep) == spec_join(parts, sep) + sep
            + last,
    decreases parts.len(),
{
    if parts.len() == 0 {
    } else if parts.len() == 1 {
        assert(parts.push(last)[0] == parts[0]);
        assert(parts.push(last).drop_first() =~= seq![last]);
        assert(spec_join(seq![last], sep) == last);
        assert(spec_join(parts.push(last), sep) =~= spec_join(parts, sep) + sep + last);
    } else {
        lemma_join_push(parts.drop_first(), sep, last);
        assert(parts.push(last)[0] == parts[0]);
        assert(parts.push(last).drop_first() =~= parts.drop_first().push(last));
        assert(spec_join(parts.push(last), sep) =~= spec_join(parts, sep) + sep + last);
    }
}

/// Joins the parts, writing `sep` between consecutive parts.
pub fn join_strings(parts: &Vec<String>, sep: &str) -> (r: String)
    ensures
        r@ == spec_join(parts@.map_values(|p: String| p@), sep@),
{
    let mut r = String::new();
    let n = parts.len();
    for i in 0..n
        invariant
            n == parts@.len(),
            r@ == spec_join(parts@.map_values(|p: String| p@).take(i as int), sep@),
    {
        if i > 0 {
            r.append(sep);
        }
        r.append(parts[i].as_str());
        proof {
            let m = parts@.map_values(|p: String| p@);
            assert(m.take(i as int).push(m[i as int]) =~= m.take(i + 1));
            lemma_join_push(m.take(i as int), sep@, m[i as int]);
        }
    }
    proof {
        let m = parts@.map_values(|p: String| p@);
        assert(m.take(n as int) =~= m);
    }
    r
}

/// A copy of the strings, character for character.
pub fn clone_strings(v: &Vec<String>) -> (r: Vec<String>)
    ensures
        r@.map_values(|p: String| p@) == v@.map_values(|p: String| p@),
{
    let mut r: Vec<String> = Vec::new();
    let n = v.len();
    for i in 0..n
        invariant
            n == v@.len(),
            r@.len() == i,
            forall|j: int| 0 <= j < i ==> (#[trigger] r@[j])@ == v@[j]@,
    {
        r.push(v[i].clone());
    }
    proof {
        assert(r@.map_values(|p: String| p@) =~= v@.map_values(|p: String| p@));
    }
    r
}

/// A copy of an optional string, character for character.
pub fn clone_opt_string(v: &Option<String>) -> (r: Option<String>)
    ensures
        match (r, v) {
            (Some(a), Some(b)) => a@ == b@,
            (None, None) => true,
            _ => false,
        },
{
    match v {
        Some(s) => Some(s.clone()),
        None => None,
    }
}

/// The needle occurs in the haystack starting at position `i`.
pub open spec fn matches_at(h: Seq<char>, n: Seq<char>, i: int) -> bool {
    forall|j: int| 0 <= j < n.len() ==> h[i + j] == n[j]
}

/// The needle occurs somewhere in the haystack.
pub open spec fn spec_contains_sub(h: Seq<char>, n: Seq<char>) -> bool {
    exists|i: int| 0 <= i <= h.len() - n.len() && matches_at(h, n, i)
}

/// Substring search by characters.
pub fn contains_sub(h: &str, n: &str) -> (r: bool)
    ensures
        r == spec_contains_sub(h@, n@),
{
    let hl = h.unicode_len();
    let nl = n.unicode_len();
    if nl > hl {
        proof {
            assert forall|i: int| !(0 <= i <= h@.len() - n@.len() && matches_at(h@, n@, i)) by {}
        }
        return false;
    }
    let mut i: usize = 0;
    while i <= hl - nl
        invariant
            hl == h@.len(),
            nl == n@.len(),
            nl <= hl,
            i <= hl - nl + 1,
            forall|p: int| 0 <= p < i ==> !matches_at(h@, n@, p),
        decreases hl - nl + 1 - i,
    {
        let mut j: usize = 0;
        let mut hit = true;
        while j < nl
            invariant
                hl == h@.len(),
                nl == n@.len(),
                i + nl <= hl,
                j <= nl,
                hit ==> forall|q: int| 0 <= q < j ==> h@[i + q] == n@[q],
                !hit ==> !matches_at(h@, n@, i as int),
            decreases nl - j,
        {
            if h.get_char(i + j) != n.get_char(j) {
                hit = false;
                proof {
                    assert(!matches_at(h@, n@, i as int));
                }
                j = nl;
            } else {
                j = j + 1;
            }
        }
        if hit {
            assert(matches_at(h@, n@, i as int));
            return true;
        }
        assert(!matches_at(h@, n@, i as int));
        i = i + 1;
    }
    proof {
        assert forall|p: int| 0 <= p <= h@.len() - n@.len() implies !matches_at(h@, n@, p) by {}
    }
    false
}

/// Whether any of the strings contains the needle.
pub open spec fn spec_any_contains(parts: Seq<Seq<char>>, n: Seq<char>) -> bool {
    exists|i: int| 0 <= i < parts.len() && spec_contains_sub(#[trigger] parts[i], n)
}

/// Whether any of the strings contains the needle.
pub fn any_contains(parts: &Vec<String>, n: &str) -> (r: bool)
    ensures
        r == spec_any_contains(parts@.map_values(|p: String| p@), n@),
{
    let m = parts.len();
    for i in 0..m
        invariant
            m == parts@.len(),
            forall|j: int| 0 <= j < i ==> !spec_contains_sub((#[trigger] parts@[j])@, n@),
    {
        if contains_sub(parts[i].as_str(), n) {
            proof {
                let mapped = parts@.map_values(|p: String| p@);
                assert(mapped[i as int] == parts@[i as int]@);
                assert(spec_contains_sub(mapped[i as int], n@));
            }
            return true;
        }
    }
    proof {
        let mapped = parts@.map_values(|p: String| p@);
        assert forall|j: int| 0 <= j < mapped.len() implies !spec_contains_sub(
            #[trigger] mapped[j],
            n@,
        ) by {
            assert(mapped[j] == parts@[j]@);
        }
    }
    false
}

/// Compares two string slices by their characters.
pub fn str_eq(a: &str, b: &str) -> (r: bool)
    ensures
        r == (a@ == b@),
{
    let sa: String = a.to_owned();
    let sb: String = b.to_owned();
    sa == sb
}

/// The character standing for one decimal digit.
pub open spec fn digit_char(d: nat) -> char {
    if d == 0 {
        '0'
    } else if d == 1 {
        '1'
    } else if d == 2 {
        '2'
    } else if d == 3 {
        '3'
    } else if d == 4 {
        '4'
    } else if d == 5 {
        '5'
    } else if d == 6 {
        '6'
    } else if d == 7 {
        '7'
    } else if d == 8 {
        '8'
    } else {
        '9'
    }
}

/// The decimal rendering of `n`, most significant digit first, no leading
/// zeros (except for `n == 0` itself).
pub open spec fn spec_dec(n: nat) -> Seq<char>
    decreases n,
{
    if n < 10 {
        seq![digit_char(n)]
    } else {
        spec_dec(n / 10).push(digit_char(n % 10))
    }
}

fn digit_str(d: u64) -> (r: &'static str)
    requires
        d < 10,
    ensures
        r@ =~= seq![digit_char(d as nat)],
{
    proof {
        reveal_strlit("0");
        reveal_strlit("1");
        reveal_strlit("2");
        reveal_strlit("3");
        reveal_strlit("4");
        reveal_strlit("5");
        reveal_strlit("6");
        reveal_strlit("7");
        reveal_strlit("8");
        reveal_strlit("9");
    }
    if d == 0 {
        "0"
    } else if d == 1 {
        "1"
    } else if d == 2 {
        "2"
    } else if d == 3 {
        "3"
    } else if d == 4 {
        "4"
    } else if d == 5 {
        "5"
    } else if d == 6 {
        "6"
    } else if d == 7 {
        "7"
    } else if d == 8 {
        "8"
    } else {
        "9"
    }
}

/// The character standing for one hexadecimal digit, lower case.
pub open spec fn spec_hex_digit(d: nat) -> char {
    if d == 0 {
        '0'
    } else if d == 1 {
        '1'
    } else if d == 2 {
        '2'
    } else if d == 3 {
        '3'
    } else if d == 4 {
        '4'
    } else if d == 5 {
        '5'
    } else if d == 6 {
        '6'
    } else if d == 7 {
        '7'
    } else if d == 8 {
        '8'
    } else if d == 9 {
        '9'
    } else if d == 10 {
        'a'
    } else if d == 11 {
        'b'
    } else if d == 12 {
        'c'
    } else if d == 13 {
        'd'
    } else if d == 14 {
        'e'
    } else {
        'f'
    }
}

/// One hexadecimal digit as a string slice.
pub fn hex_digit_str(d: u64) -> (r: &'static str)
    requires
        d < 16,
    ensures
        r@ =~= seq![spec_hex_digit(d as nat)],
{
    proof {
        reveal_strlit("0");
        reveal_strlit("1");
        reveal_strlit("2");
        reveal_strlit("3");
        reveal_strlit("4");
        reveal_strlit("5");
        reveal_strlit("6");
        reveal_strlit("7");
        reveal_strlit("8");
        reveal_strlit("9");
        reveal_strlit("a");
        reveal_strlit("b");
        reveal_strlit("c");
        reveal_strlit("d");
        reveal_strlit("e");
        reveal_strlit("f");
    }
    if d == 0 {
        "0"
    } else if d == 1 {
        "1"
    } else if d == 2 {
        "2"
    } else if d == 3 {
        "3"
    } else if d == 4 {
        "4"
    } else if d == 5 {
        "5"
    } else if d == 6 {
        "6"
    } else if d == 7 {
        "7"
    } else if d == 8 {
        "8"
    } else if d == 9 {
        "9"
    } else if d == 10 {
        "a"
    } else if d == 11 {
        "b"
    } else if d == 12 {
        "c"
    } else if d == 13 {
        "d"
    } else if d == 14 {
        "e"
    } else {
        "f"
    }
}

/// The four hex digits of a 16-bit group, high nibble first.
pub open spec fn spec_hex4(g: u16) -> Seq<char> {
    seq![
        spec_hex_digit((g >> 12) as nat),
        spec_hex_digit(((g >> 8) & 0xf) as nat),
        spec_hex_digit(((g >> 4) & 0xf) as nat),
        spec_hex_digit((g & 0xf) as nat),
    ]
}

/// See [`spec_hex4`].
pub fn hex4(g: u16) -> (r: String)
    ensures
        r@ == spec_hex4(g),
{
    proof {
        assert((g >> 12) < 16 && ((g >> 8) & 0xf) < 16 && ((g >> 4) & 0xf) < 16 && (g & 0xf) < 16)
            by (bit_vector);
    }
    let mut r = String::from_str(hex_digit_str((g >> 12) as u64));
    r.append(hex_digit_str(((g >> 8) & 0xf) as u64));
    r.append(hex_digit_str(((g >> 4) & 0xf) as u64));
    r.append(hex_digit_str((g & 0xf) as u64));
    proof {
        assert(r@ =~= spec_hex4(g));
    }
    r
}

/// Renders `n` in decimal.
pub fn u64_to_dec(n: u64) -> (r: String)
    ensures
        r@ == spec_dec(n as nat),
    decreases n,
{
    if n < 10 {
        String::from_str(digit_str(n))
    } else {
        let mut r = u64_to_dec(n / 10);
        r.append(digit_str(n % 10));
        assert(r@ =~= spec_dec(n as nat));
        r
    }
}

} // verus!
