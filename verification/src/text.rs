//! Text helpers: decimal rendering, searching and splitting.
use vstd::prelude::*;

verus! {

/// The character of the decimal digit `d`.
pub open spec fn digit(d: nat) -> char
    recommends
        d < 10,
{
    ('0' as nat + d) as char
}

/// The decimal digits of `n`, most significant first, without leading zeros.
pub open spec fn decimal(n: nat) -> Seq<char>
    decreases n,
{
    if n < 10 {
        seq![digit(n)]
    } else {
        decimal(n / 10).push(digit(n % 10))
    }
}

/// The decimal form of a signed number: the digits of its magnitude, behind a
/// minus sign when it is negative.
pub open spec fn signed_decimal(n: int) -> Seq<char> {
    if n < 0 {
        seq!['-'] + decimal((-n) as nat)
    } else {
        decimal(n as nat)
    }
}

/// The number that decimal digits spell.
pub open spec fn number(digits: Seq<char>) -> int
    decreases digits.len(),
{
    if digits.len() == 0 {
        0
    } else {
        number(digits.drop_last()) * 10 + (digits.last() as int - '0' as int)
    }
}

/// The decimal form of a number spells that number, so no two numbers share one.
pub proof fn lemma_decimal_spells(n: nat)
    ensures
        number(decimal(n)) == n,
        decimal(n).len() > 0,
    decreases n,
{
    if n < 10 {
        assert(decimal(n).drop_last() =~= seq![]);
        assert(number(decimal(n).drop_last()) == 0);
    } else {
        lemma_decimal_spells(n / 10);
        assert(decimal(n).drop_last() =~= decimal(n / 10));
    }
}

/// One decimal digit as text.
fn digit_text(d: u64) -> (r: &'static str)
    requires
        d < 10,
    ensures
        r@ == seq![digit(d as nat)],
{
    proof {
        reveal_strlit("0");
        reveal_strlit("1");
        reveal_strlit("2");
        reveal_strlit("3");
        reveal_strlit("4");
        reveal_strlit("5");
        reveal_strlit("6");
        reveal_strlit("7");
        reveal_strlit("8");
        reveal_strlit("9");
    }
    match d {
        0 => "0",
        1 => "1",
        2 => "2",
        3 => "3",
        4 => "4",
        5 => "5",
        6 => "6",
        7 => "7",
        8 => "8",
        _ => "9",
    }
}

/// Renders an unsigned number in decimal.
pub fn decimal_text(n: u64) -> (r: String)
    ensures
        r@ == decimal(n as nat),
    decreases n,
{
    if n < 10 {
        digit_text(n).to_owned()
    } else {
        let mut r = decimal_text(n / 10);
        r.append(digit_text(n % 10));
        assert(r@ =~= decimal((n / 10) as nat).push(digit((n % 10) as nat)));
        r
    }
}

/// Renders a signed 32-bit number in decimal.
pub fn signed_decimal_text(n: i32) -> (r: String)
    ensures
        r@ == signed_decimal(n as int),
{
    if n < 0 {
        let magnitude: u64 = (-(n as i64)) as u64;
        let mut r = "-".to_owned();
        r.append(decimal_text(magnitude).as_str());
        proof {
            reveal_strlit("-");
        }
        assert(r@ =~= seq!['-'] + decimal(magnitude as nat));
        r
    } else {
        decimal_text(n as u64)
    }
}

/// The number of characters of `s` before the first `c`, or its length when
/// there is none.
pub open spec fn prefix_len(s: Seq<char>, c: char) -> nat
    decreases s.len(),
{
    if s.len() == 0 || s[0] == c {
        0
    } else {
        1 + prefix_len(s.skip(1), c)
    }
}

/// `prefix_len` is the only length whose prefix lacks `c` and which ends the text
/// or stands right before a `c`.
pub proof fn lemma_prefix_len(s: Seq<char>, c: char, n: nat)
    ensures
        (n <= s.len() && (forall|j: int| 0 <= j < n ==> s[j] != c) && (n < s.len() ==> s[n as int]
            == c)) <==> n == prefix_len(s, c),
    decreases s.len(),
{
    if s.len() == 0 {
    } else if s[0] == c {
        if n > 0 && (forall|j: int| 0 <= j < n ==> s[j] != c) {
            assert(s[0] != c);
        }
    } else {
        let t = s.skip(1);
        if n > 0 {
            let m = (n - 1) as nat;
            lemma_prefix_len(t, c, m);
            if m == prefix_len(t, c) {
                assert forall|j: int| 0 <= j < n implies s[j] != c by {
                    if j > 0 {
                        assert(t[j - 1] == s[j]);
                    }
                }
                if n < s.len() {
                    assert(t[m as int] == s[n as int]);
                }
            }
            if n <= s.len() && (forall|j: int| 0 <= j < n ==> s[j] != c) && (n < s.len() ==> s[n as int]
                == c) {
                assert forall|j: int| 0 <= j < m implies t[j] != c by {
                    assert(s[j + 1] == t[j]);
                }
                if m < t.len() {
                    assert(t[m as int] == s[n as int]);
                }
            }
        }
    }
}

/// The position of the first `c` in `s`, in characters, or its length when there
/// is none; with the length beside it.
pub fn find_char(s: &str, c: char) -> (r: (usize, usize))
    ensures
        r.0 == prefix_len(s@, c),
        r.1 == s@.len(),
        r.0 <= r.1,
        r.0 < r.1 <==> s@.contains(c),
{
    let len: usize = s.unicode_len();
    let mut i: usize = 0;
    while i < len && s.get_char(i) != c
        invariant
            i <= len,
            len == s@.len(),
            forall|j: int| 0 <= j < i ==> s@[j] != c,
        decreases len - i,
    {
        i = i + 1;
    }
    proof {
        lemma_prefix_len(s@, c, i as nat);
        if i < len {
            assert(s@[i as int] == c);
        }
    }
    (i, len)
}

/// The pieces of `s` between the separators `sep`: one more than there are
/// separators, empty pieces included.
pub open spec fn split(s: Seq<char>, sep: char) -> Seq<Seq<char>>
    decreases s.len(),
{
    let n = prefix_len(s, sep);
    if n >= s.len() {
        seq![s]
    } else {
        seq![s.take(n as int)] + split(s.skip(n as int + 1), sep)
    }
}

/// `pieces` with `sep` between each two of them.
pub open spec fn join(pieces: Seq<Seq<char>>, sep: char) -> Seq<char>
    decreases pieces.len(),
{
    if pieces.len() == 0 {
        seq![]
    } else if pieces.len() == 1 {
        pieces[0]
    } else {
        pieces[0].push(sep) + join(pieces.skip(1), sep)
    }
}

/// What a vector of strings spells.
pub open spec fn texts(v: Seq<String>) -> Seq<Seq<char>> {
    v.map_values(|s: String| s@)
}

/// Splits `s` at every `sep`.
pub fn split_text(s: &str, sep: char) -> (r: Vec<String>)
    ensures
        texts(r@) == split(s@, sep),
{
    let mut r: Vec<String> = Vec::new();
    let len: usize = s.unicode_len();
    let mut start: usize = 0;
    let mut i: usize = 0;
    assert(texts(r@) + split(s@.skip(0), sep) =~= split(s@, sep)) by {
        assert(s@.skip(0) =~= s@);
    }
    while i < len
        invariant
            start <= i <= len,
            len == s@.len(),
            forall|j: int| start <= j < i ==> s@[j] != sep,
            texts(r@) + split(s@.skip(start as int), sep) == split(s@, sep),
        decreases len - i,
    {
        if s.get_char(i) == sep {
            let ghost rest = s@.skip(start as int);
            let ghost before = texts(r@);
            proof {
                lemma_prefix_len(rest, sep, (i - start) as nat);
                assert(rest[i - start] == s@[i as int]);
                assert(rest.take(i - start) =~= s@.subrange(start as int, i as int));
                assert(rest.skip(i - start + 1) =~= s@.skip(i + 1));
            }
            r.push(s.substring_char(start, i).to_owned());
            assert(texts(r@) =~= before + seq![rest.take(i - start)]);
            start = i + 1;
            assert(texts(r@) + split(s@.skip(start as int), sep) =~= before + split(rest, sep));
        }
        i = i + 1;
    }
    let ghost rest = s@.skip(start as int);
    let ghost before = texts(r@);
    r.push(s.substring_char(start, len).to_owned());
    proof {
        lemma_prefix_len(rest, sep, rest.len());
        assert(rest =~= s@.subrange(start as int, len as int));
        assert(texts(r@) =~= before + split(rest, sep));
    }
    r
}

/// Splitting loses nothing: the pieces, joined again, spell the text.
pub proof fn lemma_join_split(s: Seq<char>, sep: char)
    ensures
        join(split(s, sep), sep) == s,
    decreases s.len(),
{
    let n = prefix_len(s, sep);
    lemma_prefix_len(s, sep, n);
    if n < s.len() {
        let rest = s.skip(n as int + 1);
        lemma_join_split(rest, sep);
        let pieces = split(s, sep);
        assert(pieces.skip(1) =~= split(rest, sep));
        lemma_split_len(rest, sep);
        assert(s =~= s.take(n as int).push(sep) + rest);
    }
}

/// There is one piece more than there are separators, so at least one, and no
/// piece holds a separator.
pub proof fn lemma_split_len(s: Seq<char>, sep: char)
    ensures
        split(s, sep).len() == s.filter(|c: char| c == sep).len() + 1,
        forall|i: int| 0 <= i < split(s, sep).len() ==> !(#[trigger] split(s, sep)[i]).contains(sep),
    decreases s.len(),
{
    let p = |c: char| c == sep;
    let n = prefix_len(s, sep);
    lemma_prefix_len(s, sep, n);
    let head = s.take(n as int);
    assert(head.filter(p).len() == 0) by {
        head.lemma_all_neg_filter_empty(p);
    }
    if n < s.len() {
        let rest = s.skip(n as int + 1);
        lemma_split_len(rest, sep);
        assert(s =~= head.push(sep) + rest);
        Seq::filter_distributes_over_add(head.push(sep), rest, p);
        head.lemma_filter_push(sep, p);
        assert forall|i: int| 0 <= i < split(s, sep).len() implies !(#[trigger] split(s, sep)[i]).contains(sep) by {
            if i > 0 {
                assert(split(s, sep)[i] == split(rest, sep)[i - 1]);
            }
        }
    } else {
        assert(head =~= s);
    }
}

/// Joining and splitting again gives back the pieces, where there are any and
/// none holds a separator.
pub proof fn lemma_split_join(pieces: Seq<Seq<char>>, sep: char)
    requires
        pieces.len() > 0,
        forall|i: int| 0 <= i < pieces.len() ==> !(#[trigger] pieces[i]).contains(sep),
    ensures
        split(join(pieces, sep), sep) == pieces,
    decreases pieces.len(),
{
    let first = pieces[0];
    if pieces.len() == 1 {
        lemma_prefix_len(first, sep, first.len());
        assert(pieces =~= seq![first]);
    } else {
        let rest = pieces.skip(1);
        assert forall|i: int| 0 <= i < rest.len() implies !(#[trigger] rest[i]).contains(sep) by {
            assert(rest[i] == pieces[i + 1]);
        }
        lemma_split_join(rest, sep);
        let s = join(pieces, sep);
        assert(s == first.push(sep) + join(rest, sep));
        assert forall|j: int| 0 <= j < first.len() implies s[j] != sep by {
            assert(s[j] == first[j]);
            assert(first.contains(first[j]));
        }
        lemma_prefix_len(s, sep, first.len());
        assert(s.take(first.len() as int) =~= first);
        assert(s.skip(first.len() as int + 1) =~= join(rest, sep));
        assert(pieces =~= seq![first] + rest);
    }
}

} // verus!
