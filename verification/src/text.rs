//! Character-level text helpers: searching, splitting and joining on a
//! separator, and decimal rendering and lenient parsing of page limits.
//! Every executable function is proved against a recursive specification,
//! which the codec's round-trip arguments are built on.

use vstd::prelude::*;

verus! {

/// The views of a sequence of strings.
pub open spec fn views(v: Seq<String>) -> Seq<Seq<char>> {
    v.map_values(|x: String| x@)
}

/// Whether `c` occurs anywhere in `s`.
pub open spec fn has_char(s: Seq<char>, c: char) -> bool {
    exists|i: int| 0 <= i < s.len() && s[i] == c
}

/// Index of the first occurrence of `c` in `s`, or `s.len()` when absent.
pub open spec fn find_char(s: Seq<char>, c: char) -> int
    decreases s.len(),
{
    if s.len() == 0 {
        0
    } else if s[0] == c {
        0
    } else {
        1 + find_char(s.drop_first(), c)
    }
}

/// `find_char` lands in bounds, on `c`, and nothing before it is `c`.
pub proof fn lemma_find_char(s: Seq<char>, c: char)
    ensures
        0 <= find_char(s, c) <= s.len(),
        find_char(s, c) < s.len() ==> s[find_char(s, c)] == c,
        forall|j: int| 0 <= j < find_char(s, c) ==> s[j] != c,
    decreases s.len(),
{
    if s.len() == 0 {
    } else if s[0] == c {
    } else {
        lemma_find_char(s.drop_first(), c);
        assert forall|j: int| 0 <= j < find_char(s, c) implies s[j] != c by {
            if j > 0 {
                assert(s.drop_first()[j - 1] != c);
            }
        }
    }
}

/// When `c` does not occur, `find_char` answers the length.
pub proof fn lemma_find_char_absent(s: Seq<char>, c: char)
    requires
        !has_char(s, c),
    ensures
        find_char(s, c) == s.len(),
    decreases s.len(),
{
    if s.len() > 0 {
        assert(s[0] != c);
        assert(!has_char(s.drop_first(), c)) by {
            if has_char(s.drop_first(), c) {
                let i = choose|i: int| 0 <= i < s.drop_first().len() && s.drop_first()[i] == c;
                assert(s[i + 1] == c);
            }
        }
        lemma_find_char_absent(s.drop_first(), c);
    }
}

/// The first `c` in `a ++ [c] ++ b` sits right after `a` when `a` is `c`-free.
pub proof fn lemma_find_char_append(a: Seq<char>, b: Seq<char>, c: char)
    requires
        !has_char(a, c),
    ensures
        find_char(a + seq![c] + b, c) == a.len(),
    decreases a.len(),
{
    let s = a + seq![c] + b;
    if a.len() == 0 {
        assert(s[0] == c);
    } else {
        assert(s[0] == a[0]);
        assert(a[0] != c) by {
            assert(!has_char(a, c));
        }
        assert(!has_char(a.drop_first(), c)) by {
            if has_char(a.drop_first(), c) {
                let i = choose|i: int|
                    0 <= i < a.drop_first().len() && a.drop_first()[i] == c;
                assert(a[i + 1] == c);
            }
        }
        lemma_find_char_append(a.drop_first(), b, c);
        assert(s.drop_first() =~= a.drop_first() + seq![c] + b);
    }
}

/// Pieces of `s` between occurrences of `c`, in order; at least one piece.
pub open spec fn split_char(s: Seq<char>, c: char) -> Seq<Seq<char>>
    decreases s.len(),
{
    let f = find_char(s, c);
    if 0 <= f < s.len() {
        seq![s.subrange(0, f)] + split_char(s.subrange(f + 1, s.len() as int), c)
    } else {
        seq![s]
    }
}

/// The pieces, interleaved with the separator.
pub open spec fn join_char(xs: Seq<Seq<char>>, c: char) -> Seq<char>
    decreases xs.len(),
{
    if xs.len() == 0 {
        Seq::empty()
    } else if xs.len() == 1 {
        xs[0]
    } else {
        xs[0] + seq![c] + join_char(xs.drop_first(), c)
    }
}

/// Appending one more piece extends the join by a separator and the piece.
pub proof fn lemma_join_push(xs: Seq<Seq<char>>, x: Seq<char>, c: char)
    ensures
        join_char(xs.push(x), c) == if xs.len() == 0 {
            x
        } else {
            join_char(xs, c) + seq![c] + x
        },
    decreases xs.len(),
{
    let p = xs.push(x);
    if xs.len() == 0 {
        assert(p.len() == 1);
        assert(p[0] == x);
    } else if xs.len() == 1 {
        assert(p.len() == 2);
        assert(p[0] == xs[0]);
        assert(p.drop_first() =~= seq![x]);
        assert(join_char(seq![x], c) == x);
        assert(join_char(p, c) == xs[0] + seq![c] + x);
        assert(join_char(xs, c) == xs[0]);
    } else {
        assert(p.drop_first() =~= xs.drop_first().push(x));
        lemma_join_push(xs.drop_first(), x, c);
        assert(join_char(p, c) == xs[0] + seq![c] + (join_char(xs.drop_first(), c) + seq![c]
            + x));
        assert(xs[0] + seq![c] + (join_char(xs.drop_first(), c) + seq![c] + x) =~= (xs[0]
            + seq![c] + join_char(xs.drop_first(), c)) + seq![c] + x);
    }
}

/// Splitting a join of separator-free pieces gives the pieces back.
pub proof fn lemma_split_join(xs: Seq<Seq<char>>, c: char)
    requires
        xs.len() >= 1,
        forall|i: int| 0 <= i < xs.len() ==> !has_char(#[trigger] xs[i], c),
    ensures
        split_char(join_char(xs, c), c) == xs,
    decreases xs.len(),
{
    let s = join_char(xs, c);
    if xs.len() == 1 {
        assert(s == xs[0]);
        lemma_find_char_absent(s, c);
        assert(split_char(s, c) =~= xs);
    } else {
        let rest = xs.drop_first();
        assert(s == xs[0] + seq![c] + join_char(rest, c));
        lemma_find_char_append(xs[0], join_char(rest, c), c);
        let f = find_char(s, c);
        assert(f == xs[0].len());
        assert(s.subrange(0, f) =~= xs[0]);
        assert(s.subrange(f + 1, s.len() as int) =~= join_char(rest, c));
        assert(forall|i: int| 0 <= i < rest.len() ==> !has_char(#[trigger] rest[i], c));
        lemma_split_join(rest, c);
        assert(split_char(s, c) =~= seq![xs[0]] + split_char(join_char(rest, c), c));
        assert(seq![xs[0]] + rest =~= xs);
    }
}

/// The pieces with the empty ones removed.
pub open spec fn drop_empty(xs: Seq<Seq<char>>) -> Seq<Seq<char>>
    decreases xs.len(),
{
    if xs.len() == 0 {
        Seq::empty()
    } else if xs[0].len() > 0 {
        seq![xs[0]] + drop_empty(xs.drop_first())
    } else {
        drop_empty(xs.drop_first())
    }
}

/// `drop_empty` distributes over concatenation.
pub proof fn lemma_drop_empty_add(a: Seq<Seq<char>>, b: Seq<Seq<char>>)
    ensures
        drop_empty(a + b) == drop_empty(a) + drop_empty(b),
    decreases a.len(),
{
    if a.len() == 0 {
        assert(a + b =~= b);
        assert(drop_empty(a) + drop_empty(b) =~= drop_empty(b));
    } else {
        assert((a + b).drop_first() =~= a.drop_first() + b);
        lemma_drop_empty_add(a.drop_first(), b);
        if a[0].len() > 0 {
            assert((a + b)[0] == a[0]);
            assert(seq![a[0]] + (drop_empty(a.drop_first()) + drop_empty(b)) =~= (seq![a[0]]
                + drop_empty(a.drop_first())) + drop_empty(b));
        } else {
            assert((a + b)[0] == a[0]);
        }
    }
}

/// First occurrence of `c` in `s`, or the character count when absent.
pub fn find_char_str(s: &str, c: char) -> (r: usize)
    ensures
        r as int == find_char(s@, c),
        r <= s@.len(),
{
    let n = s.unicode_len();
    let mut i: usize = 0;
    loop
        invariant
            i <= n,
            n == s@.len(),
            forall|j: int| 0 <= j < i ==> s@[j] != c,
        decreases n - i,
    {
        if i == n {
            proof {
                lemma_find_char_absent(s@, c);
            }
            return n;
        }
        let ch = s.get_char(i);
        if ch == c {
            proof {
                lemma_find_char(s@, c);
            }
            return i;
        }
        i = i + 1;
    }
}

/// Splits `s` on `c`; the result always holds at least one piece.
pub fn split_str(s: &str, c: char) -> (r: Vec<String>)
    ensures
        views(r@) == split_char(s@, c),
{
    let mut r: Vec<String> = Vec::new();
    let mut rest: &str = s;
    loop
        invariant
            views(r@) + split_char(rest@, c) == split_char(s@, c),
        decreases rest@.len(),
    {
        let n = rest.unicode_len();
        let f = find_char_str(rest, c);
        proof {
            lemma_find_char(rest@, c);
        }
        if f < n {
            let head = rest.substring_char(0, f);
            let ghost old_views = views(r@);
            r.push(head.to_owned());
            let tail = rest.substring_char(f + 1, n);
            proof {
                assert(views(r@) =~= old_views.push(head@));
                assert(split_char(rest@, c) == seq![rest@.subrange(0, f as int)] + split_char(
                    tail@,
                    c,
                ));
                assert(views(r@) + split_char(tail@, c) =~= (old_views + split_char(rest@, c)));
            }
            rest = tail;
        } else {
            let ghost old_views = views(r@);
            r.push(rest.to_owned());
            proof {
                assert(split_char(rest@, c) == seq![rest@]);
                assert(views(r@) =~= old_views.push(rest@));
                assert(views(r@) =~= old_views + split_char(rest@, c));
            }
            return r;
        }
    }
}

/// Joins the pieces with the separator; `sep_str` is the one-character
/// string spelling of `sep`.
pub fn join_str(v: &Vec<String>, sep: char, sep_str: &str) -> (r: String)
    requires
        sep_str@ == seq![sep],
    ensures
        r@ == join_char(views(v@), sep),
{
    let mut out = String::new();
    let mut i: usize = 0;
    while i < v.len()
        invariant
            i <= v.len(),
            sep_str@ == seq![sep],
            out@ == join_char(views(v@).take(i as int), sep),
        decreases v.len() - i,
    {
        if i > 0 {
            out.append(sep_str);
        }
        out.append(v[i].as_str());
        proof {
            let vs = views(v@);
            assert(vs.take(i as int).push(vs[i as int]) =~= vs.take(i + 1));
            lemma_join_push(vs.take(i as int), vs[i as int], sep);
        }
        i = i + 1;
    }
    proof {
        assert(views(v@).take(v@.len() as int) =~= views(v@));
    }
    out
}

/// A `key=value` pair: the part before the first `=` and the part after it.
/// With no `=`, the whole piece is the key and the value is empty.
pub open spec fn pair_of(p: Seq<char>) -> (Seq<char>, Seq<char>) {
    let f = find_char(p, '=');
    if f < p.len() {
        (p.subrange(0, f), p.subrange(f + 1, p.len() as int))
    } else {
        (p, Seq::empty())
    }
}

/// The `key=value` pairs of a raw query string, split on `&`.
pub open spec fn params_of(qs: Seq<char>) -> Seq<(Seq<char>, Seq<char>)> {
    split_char(qs, '&').map_values(|p: Seq<char>| pair_of(p))
}

/// The views of a sequence of string pairs.
pub open spec fn pair_views(v: Seq<(String, String)>) -> Seq<(Seq<char>, Seq<char>)> {
    v.map_values(|p: (String, String)| (p.0@, p.1@))
}

/// The view of an optional string.
pub open spec fn opt_view(o: Option<String>) -> Option<Seq<char>> {
    match o {
        Some(s) => Some(s@),
        None => None,
    }
}

/// The value of the first pair whose key is `key`, if any.
pub open spec fn lookup(ps: Seq<(Seq<char>, Seq<char>)>, key: Seq<char>) -> Option<Seq<char>>
    decreases ps.len(),
{
    if ps.len() == 0 {
        None
    } else if ps[0].0 == key {
        Some(ps[0].1)
    } else {
        lookup(ps.drop_first(), key)
    }
}

/// Splits one `key=value` piece at its first `=`.
pub fn split_pair(p: &str) -> (r: (String, String))
    ensures
        (r.0@, r.1@) == pair_of(p@),
{
    let n = p.unicode_len();
    let f = find_char_str(p, '=');
    proof {
        lemma_find_char(p@, '=');
    }
    if f < n {
        (p.substring_char(0, f).to_owned(), p.substring_char(f + 1, n).to_owned())
    } else {
        (p.to_owned(), String::new())
    }
}

/// Splits a raw query string into its `key=value` pairs.
pub fn decode_params_text(qs: &str) -> (r: Vec<(String, String)>)
    ensures
        pair_views(r@) == params_of(qs@),
{
    let parts = split_str(qs, '&');
    let mut r: Vec<(String, String)> = Vec::new();
    let mut i: usize = 0;
    while i < parts.len()
        invariant
            i <= parts.len(),
            views(parts@) == split_char(qs@, '&'),
            pair_views(r@) == params_of(qs@).take(i as int),
        decreases parts.len() - i,
    {
        let pr = split_pair(parts[i].as_str());
        let ghost prv = (pr.0@, pr.1@);
        r.push(pr);
        proof {
            let ps = params_of(qs@);
            assert(ps[i as int] == pair_of(views(parts@)[i as int]));
            assert(views(parts@)[i as int] == parts@[i as int]@);
            assert(prv == ps[i as int]);
            assert(ps.take(i + 1) =~= ps.take(i as int).push(ps[i as int]));
            assert(pair_views(r@) =~= ps.take(i as int).push(prv));
        }
        i = i + 1;
    }
    proof {
        assert(params_of(qs@).take(params_of(qs@).len() as int) =~= params_of(qs@));
        assert(parts@.len() == params_of(qs@).len());
    }
    r
}

/// The value of the first pair whose key matches, if any.
pub fn lookup_param(ps: &Vec<(String, String)>, key: &str) -> (r: Option<String>)
    ensures
        opt_view(r) == lookup(pair_views(ps@), key@),
{
    let mut i: usize = 0;
    proof {
        assert(pair_views(ps@).skip(0) =~= pair_views(ps@));
    }
    loop
        invariant
            i <= ps.len(),
            lookup(pair_views(ps@), key@) == lookup(pair_views(ps@).skip(i as int), key@),
        decreases ps.len() - i,
    {
        if i == ps.len() {
            proof {
                assert(pair_views(ps@).skip(i as int) =~= Seq::<(Seq<char>, Seq<char>)>::empty());
            }
            return None;
        }
        proof {
            assert(pair_views(ps@).skip(i as int)[0] == (ps@[i as int].0@, ps@[i as int].1@));
        }
        if str_eq(ps[i].0.as_str(), key) {
            return Some(ps[i].1.clone());
        }
        proof {
            assert(pair_views(ps@).skip(i as int).drop_first() =~= pair_views(ps@).skip(i + 1));
        }
        i = i + 1;
    }
}

/// The character for one decimal digit.
pub open spec fn digit_char(d: int) -> char {
    if d == 0 {
        '0'
    } else if d == 1 {
        '1'
    } else if d == 2 {
        '2'
    } else if d == 3 {
        '3'
    } else if d == 4 {
        '4'
    } else if d == 5 {
        '5'
    } else if d == 6 {
        '6'
    } else if d == 7 {
        '7'
    } else if d == 8 {
        '8'
    } else {
        '9'
    }
}

/// The value of one decimal digit character, or -1 for any other character.
pub open spec fn digit_val(c: char) -> int {
    if c == '0' {
        0
    } else if c == '1' {
        1
    } else if c == '2' {
        2
    } else if c == '3' {
        3
    } else if c == '4' {
        4
    } else if c == '5' {
        5
    } else if c == '6' {
        6
    } else if c == '7' {
        7
    } else if c == '8' {
        8
    } else if c == '9' {
        9
    } else {
        -1
    }
}

/// Whether `c` is a decimal digit.
pub open spec fn is_digit(c: char) -> bool {
    digit_val(c) >= 0
}

/// The canonical decimal spelling of `n`, with no leading zeros.
pub open spec fn dec_str(n: nat) -> Seq<char>
    decreases n,
{
    if n < 10 {
        seq![digit_char(n as int)]
    } else {
        dec_str(n / 10) + seq![digit_char((n % 10) as int)]
    }
}

/// Whether every character of `s` is a decimal digit.
pub open spec fn all_digits(s: Seq<char>) -> bool {
    forall|i: int| 0 <= i < s.len() ==> is_digit(#[trigger] s[i])
}

/// The number a digit string denotes, read left to right.
pub open spec fn dec_val(s: Seq<char>) -> int
    decreases s.len(),
{
    if s.len() == 0 {
        0
    } else {
        dec_val(s.drop_last()) * 10 + digit_val(s.last())
    }
}

/// The lenient page-limit reading of `s`: a value only when `s` is a
/// nonempty, all-digit string whose value fits in 32 bits.
pub open spec fn parse_u32(s: Seq<char>) -> Option<u32> {
    if s.len() > 0 && all_digits(s) && dec_val(s) <= u32::MAX {
        Some(dec_val(s) as u32)
    } else {
        None
    }
}

/// A digit character reads back as the digit it was made from.
pub proof fn lemma_digit_roundtrip(d: int)
    requires
        0 <= d < 10,
    ensures
        digit_val(digit_char(d)) == d,
{
}

/// The decimal spelling of `n` is a nonempty digit string denoting `n`.
pub proof fn lemma_dec_str(n: nat)
    ensures
        dec_str(n).len() >= 1,
        all_digits(dec_str(n)),
        dec_val(dec_str(n)) == n,
    decreases n,
{
    if n < 10 {
        let s = dec_str(n);
        assert(s.drop_last() =~= Seq::<char>::empty());
        assert(s.last() == digit_char(n as int));
        assert(dec_val(Seq::<char>::empty()) == 0);
        lemma_digit_roundtrip(n as int);
        assert(dec_val(s) == dec_val(s.drop_last()) * 10 + digit_val(s.last()));
    } else {
        lemma_dec_str(n / 10);
        let s = dec_str(n);
        let head = dec_str(n / 10);
        assert(s.drop_last() =~= head);
        assert(s.last() == digit_char((n % 10) as int));
        lemma_digit_roundtrip((n % 10) as int);
        assert(dec_val(s) == dec_val(head) * 10 + (n % 10));
        assert(n == (n / 10) * 10 + n % 10);
        assert forall|i: int| 0 <= i < s.len() implies is_digit(#[trigger] s[i]) by {
            if i < head.len() {
                assert(s[i] == head[i]);
            }
        }
    }
}

/// An all-digit string never denotes a negative number.
pub proof fn lemma_dec_val_nonneg(s: Seq<char>)
    requires
        all_digits(s),
    ensures
        dec_val(s) >= 0,
    decreases s.len(),
{
    if s.len() > 0 {
        assert(all_digits(s.drop_last()));
        lemma_dec_val_nonneg(s.drop_last());
        assert(is_digit(s.last()));
    }
}

/// Reading more digits never shrinks the value.
pub proof fn lemma_dec_val_prefix(s: Seq<char>, i: int)
    requires
        all_digits(s),
        0 <= i <= s.len(),
    ensures
        dec_val(s.take(i)) <= dec_val(s),
    decreases s.len() - i,
{
    if i < s.len() {
        let t = s.take(i + 1);
        assert(t.drop_last() =~= s.take(i));
        assert(all_digits(s.take(i)));
        lemma_dec_val_nonneg(s.take(i));
        assert(is_digit(t.last()));
        assert(dec_val(t) == dec_val(s.take(i)) * 10 + digit_val(t.last()));
        lemma_dec_val_prefix(s, i + 1);
    } else {
        assert(s.take(i) =~= s);
    }
}

/// Reading back the decimal spelling of a 32-bit number gives it back.
pub proof fn lemma_parse_dec_str(n: u32)
    ensures
        parse_u32(dec_str(n as nat)) == Some(n),
{
    lemma_dec_str(n as nat);
}

/// The decimal digits for `d`, as a string.
fn digit_str(d: u32) -> (r: &'static str)
    requires
        d < 10,
    ensures
        r@ == seq![digit_char(d as int)],
{
    proof {
        reveal_strlit("0");
        reveal_strlit("1");
        reveal_strlit("2");
        reveal_strlit("3");
        reveal_strlit("4");
        reveal_strlit("5");
        reveal_strlit("6");
        reveal_strlit("7");
        reveal_strlit("8");
        reveal_strlit("9");
    }
    match d {
        0 => "0",
        1 => "1",
        2 => "2",
        3 => "3",
        4 => "4",
        5 => "5",
        6 => "6",
        7 => "7",
        8 => "8",
        _ => "9",
    }
}

/// Renders `n` in decimal.
pub fn u32_to_dec(n: u32) -> (r: String)
    ensures
        r@ == dec_str(n as nat),
    decreases n,
{
    if n < 10 {
        digit_str(n).to_owned()
    } else {
        let mut s = u32_to_dec(n / 10);
        s.append(digit_str(n % 10));
        s
    }
}

/// Reads a page limit leniently: any string that is not a plain decimal
/// number fitting in 32 bits reads as nothing.
pub fn parse_u32_str(s: &str) -> (r: Option<u32>)
    ensures
        r == parse_u32(s@),
{
    let n = s.unicode_len();
    if n == 0 {
        return None;
    }
    let mut acc: u64 = 0;
    let mut i: usize = 0;
    while i < n
        invariant
            i <= n,
            n == s@.len(),
            n > 0,
            all_digits(s@.take(i as int)),
            acc == dec_val(s@.take(i as int)),
            acc <= u32::MAX,
        decreases n - i,
    {
        let c = s.get_char(i);
        let d: u64 = match c {
            '0' => 0,
            '1' => 1,
            '2' => 2,
            '3' => 3,
            '4' => 4,
            '5' => 5,
            '6' => 6,
            '7' => 7,
            '8' => 8,
            '9' => 9,
            _ => {
                proof {
                    assert(!is_digit(s@[i as int]));
                }
                return None;
            },
        };
        let v: u64 = acc * 10 + d;
        proof {
            assert(s@.take(i + 1).drop_last() =~= s@.take(i as int));
            assert(s@.take(i + 1).last() == s@[i as int]);
            assert(d as int == digit_val(s@[i as int]));
            assert(all_digits(s@.take(i + 1)));
            assert(v as int == dec_val(s@.take(i + 1)));
        }
        if v > 0xFFFF_FFFF {
            proof {
                if all_digits(s@) {
                    lemma_dec_val_prefix(s@, i + 1);
                }
            }
            return None;
        }
        acc = v;
        i = i + 1;
    }
    proof {
        assert(s@.take(n as int) =~= s@);
    }
    Some(acc as u32)
}

/// Whether two strings hold the same characters.
pub fn str_eq(a: &str, b: &str) -> (r: bool)
    ensures
        r == (a@ == b@),
{
    let sa = a.to_owned();
    let sb = b.to_owned();
    sa == sb
}

} // verus!
