//! Text helpers shared by the grammar and the renderers: the characters of a
//! string, splitting on a separator, decimal digits, and building strings
//! piece by piece.

use vstd::prelude::*;

verus! {

/// The characters of `s`, in order.
pub fn chars_of(s: &str) -> (v: Vec<char>)
    ensures
        v@ == s@,
{
    let mut v: Vec<char> = Vec::new();
    for c in it: s.chars()
        invariant
            v@ == it.seq().take(it.index() as int),
            it.seq() == s@,
    {
        v.push(c);
    }
    v
}

/// Appends one character to a string. Trusted: this is std's `String::push`,
/// which adds exactly the given character at the end.
#[verifier::external_body]
pub(crate) fn push_char(s: &mut String, c: char)
    ensures
        final(s)@ == old(s)@.push(c),
{
    s.push(c);
}

/// Appends the characters `chars` to `out`.
pub fn append_chars(out: &mut String, chars: &Vec<char>)
    ensures
        final(out)@ == old(out)@ + chars@,
{
    let mut i: usize = 0;
    while i < chars.len()
        invariant
            i <= chars.len(),
            out@ == old(out)@ + chars@.take(i as int),
        decreases chars.len() - i,
    {
        push_char(out, chars[i]);
        proof {
            assert(chars@.take(i + 1) == chars@.take(i as int).push(chars@[i as int]));
        }
        i += 1;
    }
    proof {
        assert(chars@.take(chars.len() as int) == chars@);
    }
}

/// The string made of the characters `chars`.
pub fn string_of(chars: &Vec<char>) -> (s: String)
    ensures
        s@ == chars@,
{
    let mut s = String::new();
    append_chars(&mut s, chars);
    s
}

/// Whether two character vectors hold the same text.
pub fn same_chars(a: &Vec<char>, b: &Vec<char>) -> (r: bool)
    ensures
        r == (a@ == b@),
{
    if a.len() != b.len() {
        return false;
    }
    let mut i: usize = 0;
    while i < a.len()
        invariant
            i <= a.len(),
            a.len() == b.len(),
            forall|j: int| 0 <= j < i ==> a@[j] == b@[j],
        decreases a.len() - i,
    {
        if a[i] != b[i] {
            return false;
        }
        i += 1;
    }
    proof {
        assert(a@ =~= b@);
    }
    true
}

/// Whether `a` is exactly the text `word`.
pub fn is_word(a: &Vec<char>, word: &str) -> (r: bool)
    ensures
        r == (a@ == word@),
{
    let w = chars_of(word);
    same_chars(a, &w)
}

/// Whether `s` begins with `prefix`.
pub open spec fn has_prefix(s: Seq<char>, prefix: Seq<char>) -> bool {
    prefix.len() <= s.len() && s.take(prefix.len() as int) == prefix
}

/// Tests whether `a` begins with the text `word`.
pub fn starts_with(a: &Vec<char>, word: &str) -> (r: bool)
    ensures
        r == has_prefix(a@, word@),
{
    let w = chars_of(word);
    if w.len() > a.len() {
        return false;
    }
    let mut i: usize = 0;
    while i < w.len()
        invariant
            i <= w.len(),
            w.len() <= a.len(),
            w@ == word@,
            forall|j: int| 0 <= j < i ==> a@[j] == w@[j],
        decreases w.len() - i,
    {
        if a[i] != w[i] {
            proof {
                assert(a@.take(w.len() as int)[i as int] == a@[i as int]);
                assert(a@.take(w.len() as int)[i as int] != w@[i as int]);
            }
            return false;
        }
        i += 1;
    }
    proof {
        assert(a@.take(w.len() as int) =~= w@);
    }
    true
}

/// The characters of `a` from position `from` on.
pub fn tail_from(a: &Vec<char>, from: usize) -> (r: Vec<char>)
    requires
        from <= a.len(),
    ensures
        r@ == a@.skip(from as int),
{
    let mut r: Vec<char> = Vec::new();
    let mut i: usize = from;
    while i < a.len()
        invariant
            from <= i <= a.len(),
            r@ == a@.subrange(from as int, i as int),
        decreases a.len() - i,
    {
        r.push(a[i]);
        proof {
            assert(a@.subrange(from as int, i + 1) == a@.subrange(from as int, i as int).push(
                a@[i as int],
            ));
        }
        i += 1;
    }
    proof {
        assert(a@.subrange(from as int, a.len() as int) == a@.skip(from as int));
    }
    r
}

/// The pieces of `s` between occurrences of `sep`. There is always at least
/// one piece; a separator at either end yields an empty piece there.
pub open spec fn split(s: Seq<char>, sep: char) -> Seq<Seq<char>>
    decreases s.len(),
{
    if s.len() == 0 {
        seq![Seq::<char>::empty()]
    } else {
        let head = split(s.drop_last(), sep);
        if s.last() == sep {
            head.push(Seq::<char>::empty())
        } else {
            head.update(head.len() - 1, head.last().push(s.last()))
        }
    }
}

/// A split never yields zero pieces.
pub proof fn lemma_split_nonempty(s: Seq<char>, sep: char)
    ensures
        split(s, sep).len() >= 1,
    decreases s.len(),
{
    if s.len() > 0 {
        lemma_split_nonempty(s.drop_last(), sep);
    }
}

/// Text without the separator is a single piece.
pub proof fn lemma_split_plain(s: Seq<char>, sep: char)
    requires
        !s.contains(sep),
    ensures
        split(s, sep) == seq![s],
    decreases s.len(),
{
    if s.len() > 0 {
        let front = s.drop_last();
        assert forall|c: char| front.contains(c) implies s.contains(c) by {
            let i = choose|i: int| 0 <= i < front.len() && front[i] == c;
            assert(s[i] == c);
        }
        assert(s[s.len() - 1] == s.last());
        lemma_split_plain(front, sep);
        assert(front.push(s.last()) =~= s);
        assert(seq![front].update(0, front.push(s.last())) =~= seq![s]);
    } else {
        assert(s =~= Seq::<char>::empty());
    }
}

/// Appending a separator and separator-free text adds that text as one
/// more piece.
pub proof fn lemma_split_append(s: Seq<char>, sep: char, piece: Seq<char>)
    requires
        !piece.contains(sep),
    ensures
        split(s + seq![sep] + piece, sep) == split(s, sep).push(piece),
    decreases piece.len(),
{
    let whole = s + seq![sep] + piece;
    if piece.len() == 0 {
        assert(whole.drop_last() =~= s);
        assert(whole.last() == sep);
        assert(piece =~= Seq::<char>::empty());
    } else {
        let front = piece.drop_last();
        assert forall|c: char| front.contains(c) implies piece.contains(c) by {
            let i = choose|i: int| 0 <= i < front.len() && front[i] == c;
            assert(piece[i] == c);
        }
        assert(piece[piece.len() - 1] == piece.last());
        lemma_split_append(s, sep, front);
        assert(whole.drop_last() =~= s + seq![sep] + front);
        assert(whole.last() == piece.last());
        let head = split(s, sep).push(front);
        assert(head.update(head.len() - 1, head.last().push(piece.last())) =~= split(s, sep).push(
            piece,
        )) by {
            assert(front.push(piece.last()) =~= piece);
        }
    }
}

/// The texts held by a vector of character vectors.
pub open spec fn texts(v: Seq<Vec<char>>) -> Seq<Seq<char>> {
    Seq::new(v.len(), |i: int| v[i]@)
}

/// Splits `s` at every occurrence of `sep`.
pub fn split_chars(s: &Vec<char>, sep: char) -> (r: Vec<Vec<char>>)
    ensures
        texts(r@) == split(s@, sep),
{
    let mut done: Vec<Vec<char>> = Vec::new();
    let mut cur: Vec<char> = Vec::new();
    let mut i: usize = 0;
    proof {
        assert(texts(done@).push(cur@) =~= split(s@.take(0), sep));
    }
    while i < s.len()
        invariant
            i <= s.len(),
            texts(done@).push(cur@) == split(s@.take(i as int), sep),
        decreases s.len() - i,
    {
        let c = s[i];
        proof {
            assert(s@.take(i + 1).drop_last() == s@.take(i as int));
            assert(s@.take(i + 1).last() == c);
        }
        let ghost before = texts(done@);
        let ghost partial = cur@;
        if c == sep {
            done.push(cur);
            cur = Vec::new();
            proof {
                assert(texts(done@) =~= before.push(partial));
            }
        } else {
            cur.push(c);
            proof {
                assert(texts(done@) =~= before);
                assert(before.push(partial).update(before.len() as int, partial.push(c))
                    =~= before.push(partial.push(c)));
            }
        }
        i += 1;
    }
    proof {
        assert(s@.take(s.len() as int) == s@);
    }
    let ghost before = texts(done@);
    let ghost partial = cur@;
    done.push(cur);
    proof {
        assert(texts(done@) =~= before.push(partial));
    }
    done
}

/// Whether `c` is one of the ten ASCII digits.
pub open spec fn is_digit(c: char) -> bool {
    '0' <= c && c <= '9'
}

/// The number that the digit `c` stands for.
pub open spec fn digit_of(c: char) -> nat {
    (c as int - '0' as int) as nat
}

/// The digit that stands for `d`, for `d` below ten.
pub open spec fn digit_char(d: nat) -> char {
    (d + '0' as nat) as char
}

/// Whether `s` consists of ASCII digits only (the empty text does).
pub open spec fn all_digits(s: Seq<char>) -> bool {
    forall|i: int| 0 <= i < s.len() ==> is_digit(#[trigger] s[i])
}

/// The number written by the digits `s`, most significant first; 0 for the
/// empty text.
pub open spec fn digits_value(s: Seq<char>) -> nat
    decreases s.len(),
{
    if s.len() == 0 {
        0
    } else {
        digits_value(s.drop_last()) * 10 + digit_of(s.last())
    }
}

/// The decimal digits of `n`, most significant first, without leading zeros.
pub open spec fn decimal_text(n: nat) -> Seq<char>
    decreases n,
{
    if n < 10 {
        seq![digit_char(n)]
    } else {
        decimal_text(n / 10).push(digit_char(n % 10))
    }
}

/// Decimal text consists of digits, is not empty, and reads back as the
/// number it was written from.
pub proof fn lemma_decimal_text(n: nat)
    ensures
        all_digits(decimal_text(n)),
        decimal_text(n).len() >= 1,
        digits_value(decimal_text(n)) == n,
    decreases n,
{
    if n < 10 {
        let t = decimal_text(n);
        assert(t.drop_last() =~= Seq::<char>::empty());
        assert(digits_value(t.drop_last()) == 0);
    } else {
        lemma_decimal_text(n / 10);
        let t = decimal_text(n);
        assert(t.drop_last() =~= decimal_text(n / 10));
        assert(t.last() == digit_char(n % 10));
    }
}

/// Whether `c` is an ASCII digit.
pub fn check_digit(c: char) -> (r: bool)
    ensures
        r == is_digit(c),
{
    c >= '0' && c <= '9'
}

/// The character for a single decimal digit.
pub fn char_of_digit(d: u8) -> (c: char)
    requires
        d < 10,
    ensures
        c == digit_char(d as nat),
        is_digit(c),
{
    let b: u8 = d + 48;
    b as char
}

/// Appends the decimal digits of `n` to `out`.
pub fn append_decimal(out: &mut String, n: u64)
    ensures
        final(out)@ == old(out)@ + decimal_text(n as nat),
{
    let mut rev: Vec<char> = Vec::new();
    let mut rest: u64 = n;
    // `rev` holds the low digits, least significant first.
    while rest >= 10
        invariant
            forall|tail: Seq<char>| #[trigger]
                (decimal_text(rest as nat) + tail) == decimal_text(rest as nat) + tail,
            decimal_text(n as nat) == decimal_text(rest as nat) + rev@.reverse(),
        decreases rest,
    {
        let d: u8 = (rest % 10) as u8;
        let c = char_of_digit(d);
        proof {
            let old_rev = rev@;
            assert(decimal_text(rest as nat) == decimal_text((rest / 10) as nat).push(c));
            assert(old_rev.push(c).reverse() =~= seq![c] + old_rev.reverse());
            assert(decimal_text((rest / 10) as nat).push(c) + old_rev.reverse()
                =~= decimal_text((rest / 10) as nat) + (seq![c] + old_rev.reverse()));
        }
        rev.push(c);
        rest = rest / 10;
    }
    let first = char_of_digit(rest as u8);
    push_char(out, first);
    let ghost low = rev@;
    let mut i: usize = rev.len();
    while i > 0
        invariant
            i <= rev.len(),
            rev@ == low,
            out@ == old(out)@ + seq![first] + low.reverse().take(low.len() - i),
        decreases i,
    {
        i -= 1;
        push_char(out, rev[i]);
        proof {
            let r = low.reverse();
            assert(r[low.len() - 1 - i] == low[i as int]);
            assert(r.take(low.len() - i) =~= r.take(low.len() - 1 - i).push(low[i as int]));
        }
    }
    proof {
        assert(low.reverse().take(low.len() as int) =~= low.reverse());
        assert(decimal_text(rest as nat) =~= seq![first]);
        assert(old(out)@ + seq![first] + low.reverse() =~= old(out)@ + (seq![first]
            + low.reverse()));
    }
}

/// The decimal text of `n` as a string.
pub fn decimal_string(n: u64) -> (s: String)
    ensures
        s@ == decimal_text(n as nat),
{
    let mut s = String::new();
    append_decimal(&mut s, n);
    s
}

/// `s` without a leading `c`, and whether there was one.
pub open spec fn strip_mark(s: Seq<char>, c: char) -> (bool, Seq<char>) {
    if s.len() > 0 && s[0] == c {
        (true, s.skip(1))
    } else {
        (false, s)
    }
}

/// Takes a leading `c` off `s`, if there is one.
pub fn take_mark(s: Vec<char>, c: char) -> (r: (bool, Vec<char>))
    ensures
        r.0 == strip_mark(s@, c).0,
        r.1@ == strip_mark(s@, c).1,
{
    if s.len() > 0 && s[0] == c {
        (true, tail_from(&s, 1))
    } else {
        (false, s)
    }
}

/// The lower-case form of an ASCII capital; any other character itself.
pub open spec fn lower_char(c: char) -> char {
    if 'A' <= c && c <= 'Z' {
        ((c as u8) + 32) as char
    } else {
        c
    }
}

/// `s` with its ASCII capitals in lower case.
pub open spec fn lower_text(s: Seq<char>) -> Seq<char> {
    Seq::new(s.len(), |i: int| lower_char(s[i]))
}

/// Puts the ASCII capitals of `s` in lower case.
pub fn to_lower(s: &Vec<char>) -> (r: Vec<char>)
    ensures
        r@ == lower_text(s@),
{
    let mut r: Vec<char> = Vec::new();
    let mut i: usize = 0;
    while i < s.len()
        invariant
            i <= s.len(),
            r@.len() == i,
            forall|j: int| 0 <= j < i ==> r@[j] == lower_char(s@[j]),
        decreases s.len() - i,
    {
        let c = s[i];
        if c >= 'A' && c <= 'Z' {
            let b: u8 = c as u8 + 32;
            r.push(b as char);
        } else {
            r.push(c);
        }
        i += 1;
    }
    proof {
        assert(r@ =~= lower_text(s@));
    }
    r
}

/// Digits hold no character that is no digit.
pub proof fn lemma_digits_lack(s: Seq<char>, c: char)
    requires
        all_digits(s),
        !is_digit(c),
    ensures
        !s.contains(c),
{
    if s.contains(c) {
        let i = choose|i: int| 0 <= i < s.len() && s[i] == c;
        assert(is_digit(s[i]));
    }
}

/// A character that neither of two texts holds is not held by the two in a
/// row.
pub proof fn lemma_concat_lacks(a: Seq<char>, b: Seq<char>, c: char)
    requires
        !a.contains(c),
        !b.contains(c),
    ensures
        !(a + b).contains(c),
{
    if (a + b).contains(c) {
        let i = choose|i: int| 0 <= i < (a + b).len() && (a + b)[i] == c;
        if i < a.len() {
            assert(a[i] == c);
        } else {
            assert(b[i - a.len()] == c);
        }
    }
}

/// Two texts without the separator, with one separator between them, split
/// into the two.
pub proof fn lemma_split_pair(a: Seq<char>, b: Seq<char>, sep: char)
    requires
        !a.contains(sep),
        !b.contains(sep),
    ensures
        split(a + seq![sep] + b, sep) == seq![a, b],
{
    lemma_split_plain(a, sep);
    lemma_split_append(a, sep, b);
    assert(seq![a].push(b) =~= seq![a, b]);
}

} // verus!
