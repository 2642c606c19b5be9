//! Text building blocks: characters, pieces, decimal numbers, ASCII case.

use vstd::prelude::*;
use vstd::string::StringExecFns;

verus! {

/// `String::push` appends one character to the end of the string.
pub assume_specification[ String::push ](s: &mut String, c: char)
    ensures
        final(s)@ == old(s)@.push(c),
;

/// The texts that a list of strings holds.
pub open spec fn texts(list: Seq<String>) -> Seq<Seq<char>> {
    list.map_values(|s: String| s@)
}

/// The text that an optional string holds.
pub open spec fn opt_text(s: Option<String>) -> Option<Seq<char>> {
    match s {
        Some(t) => Some(t@),
        None => None,
    }
}

/// The characters of `s`, in order.
pub fn chars_of(s: &str) -> (v: Vec<char>)
    ensures
        v@ == s@,
{
    let mut v: Vec<char> = Vec::new();
    for c in it: s.chars()
        invariant
            it.seq() == s@,
            v@ == it.seq().take(it.index()),
    {
        v.push(c);
    }
    v
}

/// The string made of the characters `chars[from..to]`.
pub fn text_between(chars: &Vec<char>, from: usize, to: usize) -> (s: String)
    requires
        from <= to <= chars@.len(),
    ensures
        s@ == chars@.subrange(from as int, to as int),
{
    let mut s: String = String::new();
    let mut i: usize = from;
    while i < to
        invariant
            from <= i <= to <= chars@.len(),
            s@ == chars@.subrange(from as int, i as int),
        decreases to - i,
    {
        s.push(chars[i]);
        i = i + 1;
    }
    s
}

/// The string made of all of `chars`.
pub fn text_of(chars: &Vec<char>) -> (s: String)
    ensures
        s@ == chars@,
{
    text_between(chars, 0, chars.len())
}

/// Whether two texts are equal.
pub fn same_text(a: &str, b: &str) -> (r: bool)
    ensures
        r == (a@ == b@),
{
    let x: String = a.to_owned();
    let y: String = b.to_owned();
    x == y
}

/// `a` followed by `b`.
pub fn concat2(a: &str, b: &str) -> (s: String)
    ensures
        s@ == a@ + b@,
{
    let mut s: String = a.to_owned();
    s.append(b);
    s
}

/// `a`, `b` and `c` in a row.
pub fn concat3(a: &str, b: &str, c: &str) -> (s: String)
    ensures
        s@ == a@ + b@ + c@,
{
    let mut s: String = a.to_owned();
    s.append(b);
    s.append(c);
    s
}

/// A copy of an optional string.
pub fn copy_opt(s: &Option<String>) -> (r: Option<String>)
    ensures
        r == *s,
{
    match s {
        Some(t) => Some(t.clone()),
        None => None,
    }
}

// ---------------------------------------------------------------- pieces

/// The pieces of `s` between the occurrences of `sep`: one more piece than
/// there are separators, so that an empty text has one empty piece.
pub open spec fn split(s: Seq<char>, sep: char) -> Seq<Seq<char>>
    decreases s.len(),
{
    if s.len() == 0 {
        seq![Seq::<char>::empty()]
    } else {
        let rest = split(s.drop_first(), sep);
        if s[0] == sep {
            seq![Seq::<char>::empty()] + rest
        } else {
            rest.update(0, seq![s[0]] + rest[0])
        }
    }
}

/// The pieces in a row, with `sep` between neighbours.
pub open spec fn join(parts: Seq<Seq<char>>, sep: char) -> Seq<char>
    decreases parts.len(),
{
    if parts.len() == 0 {
        Seq::empty()
    } else if parts.len() == 1 {
        parts[0]
    } else {
        parts[0].push(sep) + join(parts.drop_first(), sep)
    }
}

/// The contents of a list of character vectors.
pub open spec fn pieces(list: Seq<Vec<char>>) -> Seq<Seq<char>> {
    list.map_values(|v: Vec<char>| v@)
}

/// There is always at least one piece.
pub proof fn lemma_split_nonempty(s: Seq<char>, sep: char)
    ensures
        split(s, sep).len() >= 1,
    decreases s.len(),
{
    if s.len() > 0 {
        lemma_split_nonempty(s.drop_first(), sep);
    }
}

/// No piece holds the separator.
pub proof fn lemma_split_pieces(s: Seq<char>, sep: char)
    ensures
        forall|i: int, j: int|
            0 <= i < split(s, sep).len() && 0 <= j < split(s, sep)[i].len()
                ==> split(s, sep)[i][j] != sep,
    decreases s.len(),
{
    if s.len() > 0 {
        lemma_split_pieces(s.drop_first(), sep);
        lemma_split_nonempty(s.drop_first(), sep);
        let rest = split(s.drop_first(), sep);
        assert forall|i: int, j: int|
            0 <= i < split(s, sep).len() && 0 <= j < split(s, sep)[i].len()
            implies split(s, sep)[i][j] != sep by {
            if s[0] == sep {
                if i > 0 {
                    assert(split(s, sep)[i] == rest[i - 1]);
                    assert(rest[i - 1][j] != sep);
                }
            } else if i == 0 {
                if j > 0 {
                    assert(rest[0][j - 1] != sep);
                }
            } else {
                assert(split(s, sep)[i] == rest[i]);
                assert(rest[i][j] != sep);
            }
        }
    }
}

/// The pieces of a text, joined, are the text again.
pub proof fn law_pieces_join_back(s: Seq<char>, sep: char)
    ensures
        join(split(s, sep), sep) == s,
    decreases s.len(),
{
    if s.len() == 0 {
        assert(s =~= Seq::empty());
    } else {
        let rest = split(s.drop_first(), sep);
        let parts = split(s, sep);
        law_pieces_join_back(s.drop_first(), sep);
        lemma_split_nonempty(s.drop_first(), sep);
        assert(s =~= seq![s[0]] + s.drop_first());
        if s[0] == sep {
            assert(parts.drop_first() =~= rest);
            assert(parts[0].push(sep) =~= seq![sep]);
        } else if rest.len() > 1 {
            assert(parts.drop_first() =~= rest.drop_first());
            assert(parts[0].push(sep) =~= seq![s[0]] + rest[0].push(sep));
            assert(join(parts, sep) =~= seq![s[0]] + join(rest, sep));
        }
    }
}

/// A text without the separator is its own only piece.
pub proof fn lemma_split_whole(s: Seq<char>, sep: char)
    requires
        !s.contains(sep),
    ensures
        split(s, sep) == seq![s],
    decreases s.len(),
{
    if s.len() > 0 {
        assert forall|i: int| 0 <= i < s.drop_first().len() implies s.drop_first()[i] != sep by {
            assert(s[i + 1] != sep);
        }
        lemma_split_whole(s.drop_first(), sep);
        assert(s[0] != sep);
        assert(seq![s[0]] + s.drop_first() =~= s);
    } else {
        assert(s =~= Seq::empty());
    }
    assert(split(s, sep) =~= seq![s]);
}

/// What stands before the first separator is the first piece.
pub proof fn lemma_split_first(a: Seq<char>, b: Seq<char>, sep: char)
    requires
        !a.contains(sep),
    ensures
        split(a + seq![sep] + b, sep) == seq![a] + split(b, sep),
    decreases a.len(),
{
    let s = a + seq![sep] + b;
    if a.len() == 0 {
        assert(s.drop_first() =~= b);
        assert(a =~= Seq::empty());
    } else {
        let rest = a.drop_first();
        assert forall|i: int| 0 <= i < rest.len() implies rest[i] != sep by {
            assert(a[i + 1] != sep);
        }
        lemma_split_first(rest, b, sep);
        assert(s.drop_first() =~= rest + seq![sep] + b);
        assert(s[0] == a[0] && a[0] != sep);
        assert(seq![a[0]] + rest =~= a);
        assert(split(s, sep) =~= seq![a] + split(b, sep));
    }
}

/// Splits `chars` at every `sep`.
pub fn split_chars(chars: &Vec<char>, sep: char) -> (parts: Vec<Vec<char>>)
    ensures
        pieces(parts@) == split(chars@, sep),
{
    let mut parts: Vec<Vec<char>> = Vec::new();
    let mut cur: Vec<char> = Vec::new();
    let mut i: usize = 0;
    proof {
        lemma_split_nonempty(chars@, sep);
        assert(chars@.skip(0) == chars@);
        let all = split(chars@, sep);
        assert(pieces(parts@) + all.update(0, cur@ + all[0]) =~= all);
    }
    while i < chars.len()
        invariant
            i <= chars@.len(),
            split(chars@.skip(i as int), sep).len() >= 1,
            split(chars@, sep) == pieces(parts@) + split(chars@.skip(i as int), sep).update(
                0,
                cur@ + split(chars@.skip(i as int), sep)[0],
            ),
        decreases chars@.len() - i,
    {
        let c: char = chars[i];
        let ghost here = chars@.skip(i as int);
        let ghost rest = split(chars@.skip(i + 1), sep);
        proof {
            assert(here.drop_first() == chars@.skip(i + 1));
            assert(here[0] == c);
            lemma_split_nonempty(chars@.skip(i + 1), sep);
        }
        if c == sep {
            let ghost before = parts@;
            let ghost piece = cur@;
            parts.push(cur);
            cur = Vec::new();
            proof {
                assert(pieces(parts@) =~= pieces(before).push(piece));
                assert(pieces(parts@) + rest.update(0, cur@ + rest[0]) =~= pieces(before) + split(
                    here,
                    sep,
                ).update(0, piece + split(here, sep)[0]));
            }
        } else {
            let ghost piece = cur@;
            cur.push(c);
            proof {
                assert(cur@ + rest[0] =~= piece + (seq![c] + rest[0]));
                assert(split(here, sep).update(0, piece + split(here, sep)[0]) =~= rest.update(
                    0,
                    cur@ + rest[0],
                ));
            }
        }
        i = i + 1;
    }
    proof {
        assert(chars@.skip(i as int).len() == 0);
        assert(pieces(parts@.push(cur)) =~= split(chars@, sep));
    }
    parts.push(cur);
    parts
}

// --------------------------------------------------------------- characters

/// The digit that stands for `d`, below ten.
pub open spec fn digit(d: nat) -> char {
    (48 + d) as char
}

/// `n` in decimal notation, without leading zeros.
pub open spec fn decimal(n: nat) -> Seq<char>
    decreases n,
{
    if n < 10 {
        seq![digit(n)]
    } else {
        decimal(n / 10).push(digit(n % 10))
    }
}

/// Decimal notation is made of digits.
pub proof fn lemma_decimal_digits(n: nat)
    ensures
        decimal(n).len() > 0,
        forall|i: int| 0 <= i < decimal(n).len() ==> '0' <= #[trigger] decimal(n)[i] <= '9',
    decreases n,
{
    if n >= 10 {
        lemma_decimal_digits(n / 10);
    }
}

/// `n` in decimal notation.
pub fn decimal_text(n: u64) -> (s: String)
    ensures
        s@ == decimal(n as nat),
    decreases n,
{
    let last: u8 = (n % 10) as u8;
    let c: char = (48 + last) as char;
    if n < 10 {
        let mut s: String = String::new();
        s.push(c);
        assert(s@ =~= seq![digit(n as nat)]);
        s
    } else {
        let mut s: String = decimal_text(n / 10);
        s.push(c);
        s
    }
}

/// The text of a truth value.
pub open spec fn truth(b: bool) -> Seq<char> {
    if b {
        "true"@
    } else {
        "false"@
    }
}

/// The text of a truth value.
pub fn truth_text(b: bool) -> (s: &'static str)
    ensures
        s@ == truth(b),
        b ==> s@ == "true"@,
        !b ==> s@ == "false"@,
{
    if b {
        "true"
    } else {
        "false"
    }
}

/// `c` in lower case, where it is an ASCII letter.
pub open spec fn ascii_lower(c: char) -> char {
    if 'A' <= c <= 'Z' {
        (c as u32 + 32) as char
    } else {
        c
    }
}

/// `s` with its ASCII letters in lower case.
pub open spec fn ascii_lower_text(s: Seq<char>) -> Seq<char> {
    s.map_values(|c: char| ascii_lower(c))
}

/// `c` in lower case, where it is an ASCII letter.
pub fn lower_char(c: char) -> (r: char)
    ensures
        r == ascii_lower(c),
        'A' <= c <= 'Z' ==> r as u32 == c as u32 + 32,
        !('A' <= c <= 'Z') ==> r == c,
{
    if 'A' <= c && c <= 'Z' {
        let n: u8 = c as u8;
        (n + 32) as char
    } else {
        c
    }
}

/// `s` with its ASCII letters in lower case.
pub fn lower_text(s: &str) -> (r: String)
    ensures
        r@ == ascii_lower_text(s@),
{
    let chars: Vec<char> = chars_of(s);
    let mut r: String = String::new();
    let mut i: usize = 0;
    while i < chars.len()
        invariant
            i <= chars@.len(),
            r@ == ascii_lower_text(chars@.take(i as int)),
        decreases chars@.len() - i,
    {
        r.push(lower_char(chars[i]));
        proof {
            assert(chars@.take(i + 1) =~= chars@.take(i as int).push(chars@[i as int]));
            assert(ascii_lower_text(chars@.take(i + 1)) =~= ascii_lower_text(
                chars@.take(i as int),
            ).push(ascii_lower(chars@[i as int])));
        }
        i = i + 1;
    }
    assert(chars@.take(i as int) =~= chars@);
    r
}

/// Whether two texts are equal but for the case of ASCII letters.
pub fn same_but_case(a: &str, b: &str) -> (r: bool)
    ensures
        r == (ascii_lower_text(a@) == ascii_lower_text(b@)),
{
    let x: String = lower_text(a);
    let y: String = lower_text(b);
    same_text(x.as_str(), y.as_str())
}

// ----------------------------------------------------------------------- laws

/// The pieces of a text hold no separator, and joined they are the text again: there
/// is only one way to cut a text like that.
pub proof fn law_split_cuts_at_separators(
    chars: &Vec<char>,
    sep: char,
    parts: Vec<Vec<char>>,
    i: int,
    j: int,
)
    requires
        call_ensures(split_chars, (chars, sep), parts),
    ensures
        parts@.len() >= 1,
        join(pieces(parts@), sep) == chars@,
        0 <= i < parts@.len() && 0 <= j < parts@[i]@.len() ==> parts@[i]@[j] != sep,
{
    lemma_split_nonempty(chars@, sep);
    lemma_split_pieces(chars@, sep);
    law_pieces_join_back(chars@, sep);
    assert(pieces(parts@).len() == parts@.len());
    if 0 <= i < parts@.len() && 0 <= j < parts@[i]@.len() {
        assert(pieces(parts@)[i] == parts@[i]@);
        assert(split(chars@, sep)[i][j] != sep);
    }
}

/// The pieces of a text without the separator are the text alone, and a separator
/// behind such a text starts the pieces of what follows it.
pub proof fn law_split_goes_from_left_to_right(a: Seq<char>, b: Seq<char>, sep: char)
    requires
        forall|i: int| 0 <= i < a.len() ==> #[trigger] a[i] != sep,
    ensures
        split(a, sep) == seq![a],
        split(a.push(sep) + b, sep) == seq![a] + split(b, sep),
{
    assert(!a.contains(sep));
    lemma_split_whole(a, sep);
    lemma_split_first(a, b, sep);
    assert(a.push(sep) + b =~= a + seq![sep] + b);
}

/// The number that digits stand for, read from left to right.
pub open spec fn number_of(digits: Seq<char>) -> int
    decreases digits.len(),
{
    if digits.len() == 0 {
        0
    } else {
        10 * number_of(digits.drop_last()) + (digits.last() as u32 - '0' as u32)
    }
}

/// Decimal notation reads back as the number. It is made of digits, and does not
/// start with a zero unless that is all there is.
pub proof fn law_decimal_reads_back(n: nat)
    ensures
        number_of(decimal(n)) == n,
        decimal(n).len() >= 1,
        forall|i: int| 0 <= i < decimal(n).len() ==> '0' <= #[trigger] decimal(n)[i] <= '9',
        decimal(n).len() > 1 ==> decimal(n)[0] != '0',
        n > 0 ==> decimal(n)[0] != '0',
    decreases n,
{
    lemma_decimal_digits(n);
    reveal_with_fuel(number_of, 2);
    if n >= 10 {
        law_decimal_reads_back(n / 10);
        assert(decimal(n).drop_last() =~= decimal(n / 10));
        assert(decimal(n)[0] == decimal(n / 10)[0]);
    } else {
        assert(decimal(n).drop_last() =~= Seq::empty());
    }
}

/// A number that is written out reads back as itself, so that different numbers are
/// written differently.
pub proof fn law_written_numbers_read_back(n: u64, s: String)
    requires
        call_ensures(decimal_text, (n,), s),
    ensures
        number_of(s@) == n,
        s@ == decimal(n as nat),
{
    law_decimal_reads_back(n as nat);
}

/// Lower case changes the capital ASCII letters, each to the letter 32 places on, and
/// no other character.
pub proof fn law_only_ascii_capitals_change(s: &str, r: String, i: int)
    requires
        call_ensures(lower_text, (s,), r),
        0 <= i < s@.len(),
    ensures
        r@ == ascii_lower_text(s@),
        r@.len() == s@.len(),
        'A' <= s@[i] <= 'Z' ==> r@[i] as u32 == s@[i] as u32 + 32,
        !('A' <= s@[i] <= 'Z') ==> r@[i] == s@[i],
{
}

/// Whether two characters are the same, or the same ASCII letter in different case.
pub open spec fn alike(a: char, b: char) -> bool {
    ||| a == b
    ||| 'A' <= a <= 'Z' && b as u32 == a as u32 + 32
    ||| 'A' <= b <= 'Z' && a as u32 == b as u32 + 32
}

/// Texts have the same lower case exactly when they are equally long and alike at
/// every place.
pub proof fn law_same_lower_case(a: Seq<char>, b: Seq<char>)
    ensures
        ascii_lower_text(a) == ascii_lower_text(b) <==> a.len() == b.len() && forall|i: int|
            0 <= i < a.len() ==> alike(#[trigger] a[i], b[i]),
{
    if ascii_lower_text(a) == ascii_lower_text(b) {
        assert(ascii_lower_text(a).len() == ascii_lower_text(b).len());
        assert forall|i: int| 0 <= i < a.len() implies alike(#[trigger] a[i], b[i]) by {
            assert(ascii_lower_text(a)[i] == ascii_lower_text(b)[i]);
            lemma_lower_alike(a[i], b[i]);
        }
    }
    if a.len() == b.len() && forall|i: int| 0 <= i < a.len() ==> alike(#[trigger] a[i], b[i]) {
        assert forall|i: int| 0 <= i < a.len() implies #[trigger] ascii_lower_text(a)[i]
            == ascii_lower_text(b)[i] by {
            assert(alike(a[i], b[i]));
            lemma_lower_alike(a[i], b[i]);
        }
        assert(ascii_lower_text(a) =~= ascii_lower_text(b));
    }
}

proof fn lemma_lower_alike(a: char, b: char)
    ensures
        ascii_lower(a) == ascii_lower(b) <==> alike(a, b),
{
    if 'A' <= a <= 'Z' {
        assert(ascii_lower(a) as u32 == a as u32 + 32);
    }
    if 'A' <= b <= 'Z' {
        assert(ascii_lower(b) as u32 == b as u32 + 32);
    }
}

/// A comparison that ignores case says yes exactly to texts that are equally long and
/// alike at every place.
pub proof fn law_comparison_ignores_case_only(a: &str, b: &str, r: bool)
    requires
        call_ensures(same_but_case, (a, b), r),
    ensures
        r <==> a@.len() == b@.len() && forall|i: int|
            0 <= i < a@.len() ==> alike(#[trigger] a@[i], b@[i]),
{
    law_same_lower_case(a@, b@);
}

/// What is said of lists of strings and of optional strings is said of the very texts
/// that they hold, in order.
pub proof fn law_texts_are_what_strings_hold(
    list: Seq<String>,
    chars: Seq<Vec<char>>,
    s: Option<String>,
    i: int,
)
    ensures
        texts(list).len() == list.len(),
        0 <= i < list.len() ==> texts(list)[i] == list[i]@,
        pieces(chars).len() == chars.len(),
        0 <= i < chars.len() ==> pieces(chars)[i] == chars[i]@,
        opt_text(s) is Some <==> s is Some,
        s matches Some(t) ==> opt_text(s) == Some(t@),
{
}

} // verus!
