//! Text operations over the `Seq<char>` view of strings.

use vstd::prelude::*;
use vstd::string::*;

verus! {

/// Appending one character to a `String`: `String::push` leaves the text that was there,
/// followed by the character.
pub assume_specification[ String::push ](s: &mut String, c: char)
    ensures
        final(s)@ == old(s)@.push(c),
;

/// The texts of a sequence of strings.
pub open spec fn texts(strings: Seq<String>) -> Seq<Seq<char>> {
    strings.map_values(|s: String| s@)
}

/// The text of an optional string.
pub open spec fn opt_text(s: Option<String>) -> Option<Seq<char>> {
    match s {
        Some(t) => Some(t@),
        None => None,
    }
}

/// Characters with the Unicode property `White_Space`.
pub open spec fn is_white_space(c: char) -> bool {
    let n = c as u32;
    ||| 0x09 <= n <= 0x0d
    ||| n == 0x20
    ||| n == 0x85
    ||| n == 0xa0
    ||| n == 0x1680
    ||| 0x2000 <= n <= 0x200a
    ||| n == 0x2028
    ||| n == 0x2029
    ||| n == 0x202f
    ||| n == 0x205f
    ||| n == 0x3000
}

/// `s` without its leading white space.
pub open spec fn trim_start(s: Seq<char>) -> Seq<char>
    decreases s.len(),
{
    if s.len() > 0 && is_white_space(s[0]) {
        trim_start(s.drop_first())
    } else {
        s
    }
}

/// `s` without its trailing white space.
pub open spec fn trim_end(s: Seq<char>) -> Seq<char>
    decreases s.len(),
{
    if s.len() > 0 && is_white_space(s.last()) {
        trim_end(s.drop_last())
    } else {
        s
    }
}

/// `s` without the white space around it.
pub open spec fn trimmed(s: Seq<char>) -> Seq<char> {
    trim_end(trim_start(s))
}

/// `s` without the leading run of the character `c`.
pub open spec fn strip_leading(s: Seq<char>, c: char) -> Seq<char>
    decreases s.len(),
{
    if s.len() > 0 && s[0] == c {
        strip_leading(s.drop_first(), c)
    } else {
        s
    }
}

/// The pieces of `s` between the occurrences of `sep`: one more than there are occurrences.
pub open spec fn split(s: Seq<char>, sep: char) -> Seq<Seq<char>>
    decreases s.len(),
{
    if s.len() == 0 {
        seq![Seq::<char>::empty()]
    } else {
        let rest = split(s.drop_last(), sep);
        if s.last() == sep {
            rest.push(Seq::<char>::empty())
        } else {
            rest.drop_last().push(rest.last().push(s.last()))
        }
    }
}

/// The maximal runs of characters of `s` that are not white space, in order.
pub open spec fn words(s: Seq<char>) -> Seq<Seq<char>>
    decreases s.len(),
{
    if s.len() == 0 {
        Seq::<Seq<char>>::empty()
    } else {
        let rest = words(s.drop_last());
        if is_white_space(s.last()) {
            rest
        } else if s.len() > 1 && !is_white_space(s[s.len() - 2]) {
            rest.drop_last().push(rest.last().push(s.last()))
        } else {
            rest.push(seq![s.last()])
        }
    }
}

/// `needle` stands in `s` at position `i`.
pub open spec fn occurs_at(s: Seq<char>, needle: Seq<char>, i: int) -> bool {
    0 <= i && i + needle.len() <= s.len() && s.subrange(i, i + needle.len()) == needle
}

/// `needle` stands somewhere in `s`.
pub open spec fn contains_text(s: Seq<char>, needle: Seq<char>) -> bool {
    exists|i: int| occurs_at(s, needle, i)
}

/// `s` from position `from` on, with every occurrence of `needle`, taken from the left and
/// without overlap, replaced by `with`.
pub open spec fn replaced_from(
    s: Seq<char>,
    needle: Seq<char>,
    with: Seq<char>,
    from: int,
) -> Seq<char>
    decreases s.len() - from,
{
    if from < 0 || from >= s.len() || needle.len() == 0 {
        Seq::<char>::empty()
    } else if occurs_at(s, needle, from) {
        with + replaced_from(s, needle, with, from + needle.len())
    } else {
        seq![s[from]] + replaced_from(s, needle, with, from + 1)
    }
}

/// `s` with every occurrence of the non-empty `needle` replaced by `with`.
pub open spec fn replaced(s: Seq<char>, needle: Seq<char>, with: Seq<char>) -> Seq<char> {
    replaced_from(s, needle, with, 0)
}

/// `s` without the character `c`.
pub open spec fn without_char(s: Seq<char>, c: char) -> Seq<char> {
    s.filter(|x: char| x != c)
}

/// The decimal digit with the given value.
pub open spec fn digit(n: nat) -> char {
    (('0' as u32) + n) as char
}

/// The decimal notation of `n`.
pub open spec fn decimal(n: nat) -> Seq<char>
    decreases n,
{
    if n < 10 {
        seq![digit(n)]
    } else {
        decimal(n / 10).push(digit(n % 10))
    }
}

/// The decimal notation of a number that may be negative.
pub open spec fn signed_decimal(n: int) -> Seq<char> {
    if n < 0 {
        "-"@ + decimal((-n) as nat)
    } else {
        decimal(n as nat)
    }
}

/// How an optional number is shown to a programmer.
pub open spec fn debug_option(n: Option<i32>) -> Seq<char> {
    match n {
        Some(n) => "Some("@ + signed_decimal(n as int) + ")"@,
        None => "None"@,
    }
}

/// Text that ends with `suffix`.
pub open spec fn ends_with_text(s: Seq<char>, suffix: Seq<char>) -> bool {
    suffix.len() <= s.len() && s.subrange(s.len() - suffix.len(), s.len() as int) == suffix
}

/// Text that begins with `prefix`.
pub open spec fn starts_with_text(s: Seq<char>, prefix: Seq<char>) -> bool {
    prefix.len() <= s.len() && s.subrange(0, prefix.len() as int) == prefix
}

/// There is always a piece.
pub proof fn split_is_not_empty(s: Seq<char>, sep: char)
    ensures
        split(s, sep).len() > 0,
    decreases s.len(),
{
    if s.len() > 0 {
        split_is_not_empty(s.drop_last(), sep);
    }
}

/// A text without the separator is its own only piece.
pub proof fn split_without_separator(s: Seq<char>, sep: char)
    requires
        !s.contains(sep),
    ensures
        split(s, sep) == seq![s],
    decreases s.len(),
{
    if s.len() > 0 {
        let shorter = s.drop_last();
        assert(!shorter.contains(sep)) by {
            if shorter.contains(sep) {
                let i = choose|i: int| 0 <= i < shorter.len() && shorter[i] == sep;
                assert(s[i] == sep);
            }
        }
        assert(s[s.len() - 1] != sep);
        split_without_separator(shorter, sep);
        assert(seq![shorter].drop_last().push(shorter.push(s.last())) =~= seq![s]) by {
            assert(shorter.push(s.last()) =~= s);
        }
    } else {
        assert(s =~= Seq::<char>::empty());
    }
}

/// A separator and a text without it behind `s` add that text as one more piece.
pub proof fn split_append(s: Seq<char>, t: Seq<char>, sep: char)
    requires
        !t.contains(sep),
    ensures
        split(s + seq![sep] + t, sep) == split(s, sep).push(t),
    decreases t.len(),
{
    let whole = s + seq![sep] + t;
    if t.len() == 0 {
        assert(whole.drop_last() =~= s);
        assert(t =~= Seq::<char>::empty());
    } else {
        let shorter = t.drop_last();
        assert(!shorter.contains(sep)) by {
            if shorter.contains(sep) {
                let i = choose|i: int| 0 <= i < shorter.len() && shorter[i] == sep;
                assert(t[i] == sep);
            }
        }
        assert(t[t.len() - 1] != sep);
        split_append(s, shorter, sep);
        assert(whole.drop_last() =~= s + seq![sep] + shorter);
        assert(shorter.push(t.last()) =~= t);
        assert(split(s, sep).push(shorter).drop_last() =~= split(s, sep));
    }
}

/// Four texts without the separator, joined by it, split into those four texts.
pub proof fn split_of_four(a: Seq<char>, b: Seq<char>, c: Seq<char>, d: Seq<char>, sep: char)
    requires
        !a.contains(sep),
        !b.contains(sep),
        !c.contains(sep),
        !d.contains(sep),
    ensures
        split(a + seq![sep] + b + seq![sep] + c + seq![sep] + d, sep) == seq![a, b, c, d],
{
    split_without_separator(a, sep);
    split_append(a, b, sep);
    split_append(a + seq![sep] + b, c, sep);
    split_append(a + seq![sep] + b + seq![sep] + c, d, sep);
    assert(seq![a].push(b).push(c).push(d) =~= seq![a, b, c, d]);
}

pub fn is_white_space_char(c: char) -> (r: bool)
    ensures
        r == is_white_space(c),
{
    let n: u32 = c as u32;
    (0x09 <= n && n <= 0x0d) || n == 0x20 || n == 0x85 || n == 0xa0 || n == 0x1680 || (0x2000 <= n
        && n <= 0x200a) || n == 0x2028 || n == 0x2029 || n == 0x202f || n == 0x205f || n == 0x3000
}

/// The characters of a text.
pub fn chars_of(s: &str) -> (v: Vec<char>)
    ensures
        v@ == s@,
{
    let mut v: Vec<char> = Vec::new();
    for c in it: s.chars()
        invariant
            it.seq() == s@,
            v@ == s@.take(it.index() as int),
    {
        v.push(c);
        assert(s@.take(it.index() + 1) =~= s@.take(it.index() as int).push(c));
    }
    assert(s@.take(s@.len() as int) =~= s@);
    v
}

/// The text of the characters `from` up to `to`.
pub fn string_of(chars: &Vec<char>, from: usize, to: usize) -> (s: String)
    requires
        from <= to <= chars.len(),
    ensures
        s@ == chars@.subrange(from as int, to as int),
{
    let mut s = String::new();
    let mut i: usize = from;
    while i < to
        invariant
            from <= i <= to <= chars.len(),
            s@ == chars@.subrange(from as int, i as int),
        decreases to - i,
    {
        s.push(chars[i]);
        assert(chars@.subrange(from as int, i + 1) =~= chars@.subrange(from as int, i as int).push(
            chars@[i as int],
        ));
        i += 1;
    }
    s
}

/// Whether two texts are the same.
pub fn str_eq(a: &str, b: &str) -> (r: bool)
    ensures
        r == (a@ == b@),
{
    let x: String = a.to_owned();
    let y: String = b.to_owned();
    x == y
}

/// The text without the white space around it.
pub fn trim(s: &str) -> (r: String)
    ensures
        r@ == trimmed(s@),
{
    let v = chars_of(s);
    let mut from: usize = 0;
    assert(s@.skip(0) =~= s@);
    while from < v.len() && is_white_space_char(v[from])
        invariant
            v@ == s@,
            from <= v.len(),
            trim_start(s@) == trim_start(s@.skip(from as int)),
        decreases v.len() - from,
    {
        assert(s@.skip(from as int).drop_first() =~= s@.skip(from + 1));
        from += 1;
    }
    let mut to: usize = v.len();
    assert(s@.subrange(from as int, to as int) =~= s@.skip(from as int));
    while to > from && is_white_space_char(v[to - 1])
        invariant
            v@ == s@,
            from <= to <= v.len(),
            trimmed(s@) == trim_end(s@.subrange(from as int, to as int)),
        decreases to,
    {
        assert(s@.subrange(from as int, to as int).drop_last() =~= s@.subrange(
            from as int,
            to - 1,
        ));
        to -= 1;
    }
    string_of(&v, from, to)
}

/// The text without its leading run of `c`.
pub fn trim_leading(s: &str, c: char) -> (r: String)
    ensures
        r@ == strip_leading(s@, c),
{
    let v = chars_of(s);
    let mut from: usize = 0;
    assert(s@.skip(0) =~= s@);
    while from < v.len() && v[from] == c
        invariant
            v@ == s@,
            from <= v.len(),
            strip_leading(s@, c) == strip_leading(s@.skip(from as int), c),
        decreases v.len() - from,
    {
        assert(s@.skip(from as int).drop_first() =~= s@.skip(from + 1));
        from += 1;
    }
    assert(s@.subrange(from as int, v@.len() as int) =~= s@.skip(from as int));
    string_of(&v, from, v.len())
}

/// The pieces of the text between the occurrences of `sep`.
pub fn split_char(s: &str, sep: char) -> (r: Vec<String>)
    ensures
        texts(r@) == split(s@, sep),
{
    let v = chars_of(s);
    let mut done: Vec<String> = Vec::new();
    let mut last = String::new();
    let mut i: usize = 0;
    assert(s@.take(0) =~= Seq::<char>::empty());
    assert(texts(done@).push(last@) =~= split(s@.take(0), sep));
    while i < v.len()
        invariant
            v@ == s@,
            i <= v.len(),
            texts(done@).push(last@) == split(s@.take(i as int), sep),
        decreases v.len() - i,
    {
        assert(s@.take(i + 1).drop_last() =~= s@.take(i as int));
        let ghost before = texts(done@);
        let ghost tail = last@;
        if v[i] == sep {
            done.push(last);
            last = String::new();
            assert(texts(done@) =~= before.push(tail));
        } else {
            last.push(v[i]);
            assert(before.push(tail).drop_last() =~= before);
        }
        i += 1;
    }
    assert(s@.take(s@.len() as int) =~= s@);
    let ghost before = texts(done@);
    let ghost tail = last@;
    done.push(last);
    assert(texts(done@) =~= before.push(tail));
    done
}

/// The words of the text: its maximal runs of characters that are not white space.
pub fn split_words(s: &str) -> (r: Vec<String>)
    ensures
        texts(r@) == words(s@),
{
    let v = chars_of(s);
    let mut done: Vec<String> = Vec::new();
    let mut word = String::new();
    let mut in_word: bool = false;
    let mut i: usize = 0;
    assert(s@.take(0) =~= Seq::<char>::empty());
    assert(texts(done@) =~= words(s@.take(0)));
    while i < v.len()
        invariant
            v@ == s@,
            i <= v.len(),
            in_word == (i > 0 && !is_white_space(s@[i - 1])),
            in_word ==> words(s@.take(i as int)) == texts(done@).push(word@),
            !in_word ==> words(s@.take(i as int)) == texts(done@) && word@.len() == 0,
        decreases v.len() - i,
    {
        assert(s@.take(i + 1).drop_last() =~= s@.take(i as int));
        let ghost before = texts(done@);
        let ghost tail = word@;
        if is_white_space_char(v[i]) {
            if in_word {
                done.push(word);
                word = String::new();
                in_word = false;
                assert(texts(done@) =~= before.push(tail));
            }
        } else {
            word.push(v[i]);
            assert(before.push(tail).drop_last() =~= before);
            assert(tail.len() == 0 ==> word@ =~= seq![v@[i as int]]);
            in_word = true;
        }
        i += 1;
    }
    assert(s@.take(s@.len() as int) =~= s@);
    if in_word {
        let ghost before = texts(done@);
        let ghost tail = word@;
        done.push(word);
        assert(texts(done@) =~= before.push(tail));
    }
    done
}

/// Whether `needle` stands in the characters at position `i`.
pub fn matches_at(v: &Vec<char>, needle: &Vec<char>, i: usize) -> (r: bool)
    ensures
        r == occurs_at(v@, needle@, i as int),
{
    if i > v.len() || needle.len() > v.len() - i {
        return false;
    }
    let mut k: usize = 0;
    while k < needle.len()
        invariant
            i + needle.len() <= v.len(),
            k <= needle.len(),
            forall|j: int| 0 <= j < k ==> v@[i + j] == needle@[j],
        decreases needle.len() - k,
    {
        if v[i + k] != needle[k] {
            assert(v@.subrange(i as int, i + needle@.len())[k as int] != needle@[k as int]);
            return false;
        }
        k += 1;
    }
    assert(v@.subrange(i as int, i + needle@.len()) =~= needle@);
    true
}

/// Whether `needle` stands somewhere in the text.
pub fn has_text(s: &str, needle: &str) -> (r: bool)
    ensures
        r == contains_text(s@, needle@),
{
    let v = chars_of(s);
    let n = chars_of(needle);
    if n.len() > v.len() {
        return false;
    }
    let mut i: usize = 0;
    while i <= v.len() - n.len()
        invariant
            v@ == s@,
            n@ == needle@,
            n.len() <= v.len(),
            i <= v.len() - n.len() + 1,
            forall|j: int| 0 <= j < i ==> !occurs_at(s@, needle@, j),
        decreases v.len() - i,
    {
        if matches_at(&v, &n, i) {
            return true;
        }
        if i == v.len() - n.len() {
            return false;
        }
        i += 1;
    }
    false
}

/// Whether the text begins with `prefix`.
pub fn has_prefix(s: &str, prefix: &str) -> (r: bool)
    ensures
        r == starts_with_text(s@, prefix@),
{
    let v = chars_of(s);
    let n = chars_of(prefix);
    matches_at(&v, &n, 0)
}

/// The text with every occurrence of the non-empty `needle` replaced by `with`.
pub fn replace_text(s: &str, needle: &str, with: &str) -> (r: String)
    requires
        needle@.len() > 0,
    ensures
        r@ == replaced(s@, needle@, with@),
{
    let v = chars_of(s);
    let n = chars_of(needle);
    let mut r = String::new();
    let mut i: usize = 0;
    while i < v.len()
        invariant
            v@ == s@,
            n@ == needle@,
            n.len() > 0,
            i <= v.len(),
            r@ + replaced_from(s@, needle@, with@, i as int) == replaced(s@, needle@, with@),
        decreases v.len() - i,
    {
        let ghost before = r@;
        if matches_at(&v, &n, i) {
            r.append(with);
            assert(r@ + replaced_from(s@, needle@, with@, i + n@.len()) =~= before
                + replaced_from(s@, needle@, with@, i as int));
            i += n.len();
        } else {
            r.push(v[i]);
            assert(r@ + replaced_from(s@, needle@, with@, i + 1) =~= before + replaced_from(
                s@,
                needle@,
                with@,
                i as int,
            ));
            i += 1;
        }
    }
    assert(r@ =~= r@ + Seq::<char>::empty());
    r
}

/// The text without the character `c`.
pub fn remove_char(s: &str, c: char) -> (r: String)
    ensures
        r@ == without_char(s@, c),
{
    let v = chars_of(s);
    let mut r = String::new();
    let mut i: usize = 0;
    assert(without_char(s@.take(0), c) =~= Seq::<char>::empty()) by {
        reveal(Seq::filter);
    }
    while i < v.len()
        invariant
            v@ == s@,
            i <= v.len(),
            r@ == without_char(s@.take(i as int), c),
        decreases v.len() - i,
    {
        proof {
            reveal(Seq::filter);
            assert(s@.take(i + 1).drop_last() =~= s@.take(i as int));
        }
        if v[i] != c {
            r.push(v[i]);
        }
        i += 1;
    }
    assert(s@.take(s@.len() as int) =~= s@);
    r
}

/// The decimal notation of a number.
pub fn decimal_text(n: u64) -> (r: String)
    ensures
        r@ == decimal(n as nat),
    decreases n,
{
    let d: char = digit_char((n % 10) as u8);
    let mut r = if n < 10 {
        String::new()
    } else {
        decimal_text(n / 10)
    };
    r.push(d);
    assert(n < 10 ==> r@ =~= seq![digit(n as nat)]);
    r
}

/// The decimal digit with the given value.
fn digit_char(n: u8) -> (c: char)
    requires
        n < 10,
    ensures
        c == digit(n as nat),
{
    (48u8 + n) as char
}

/// The decimal notation of a number that may be negative.
pub fn signed_text(n: i32) -> (r: String)
    ensures
        r@ == signed_decimal(n as int),
{
    if n < 0 {
        let magnitude: u64 = (-(n as i64)) as u64;
        let mut text: String = "-".to_owned();
        text.append(decimal_text(magnitude).as_str());
        text
    } else {
        decimal_text(n as u64)
    }
}

/// How an optional number is shown to a programmer.
pub fn debug_text(n: Option<i32>) -> (r: String)
    ensures
        r@ == debug_option(n),
{
    match n {
        Some(n) => {
            let mut text: String = "Some(".to_owned();
            text.append(signed_text(n).as_str());
            text.append(")");
            text
        },
        None => "None".to_owned(),
    }
}

/// Whether the text ends with `suffix`.
pub fn has_suffix(s: &str, suffix: &str) -> (r: bool)
    ensures
        r == ends_with_text(s@, suffix@),
{
    let text = chars_of(s);
    let end = chars_of(suffix);
    if end.len() > text.len() {
        return false;
    }
    let at: usize = text.len() - end.len();
    matches_at(&text, &end, at)
}

/// A text begins with what is a prefix of it, and with nothing else.
pub proof fn starts_with_a_prefix(s: Seq<char>, prefix: Seq<char>)
    ensures
        starts_with_text(s, prefix) <==> prefix.is_prefix_of(s),
        starts_with_text(prefix + s, prefix),
{
    assert((prefix + s).subrange(0, prefix.len() as int) =~= prefix);
}

/// A text ends with what is a suffix of it, and with nothing else.
pub proof fn ends_with_a_suffix(s: Seq<char>, suffix: Seq<char>)
    ensures
        ends_with_text(s, suffix) <==> suffix.is_suffix_of(s),
        ends_with_text(s + suffix, suffix),
{
    assert((s + suffix).subrange(s.len() as int, (s + suffix).len() as int) =~= suffix);
}

/// A text contains another one where it is made of a text before that, the other one, and a text behind
/// that.
pub proof fn contains_what_stands_within(before: Seq<char>, needle: Seq<char>, behind: Seq<char>)
    ensures
        contains_text(before + needle + behind, needle),
{
    let s = before + needle + behind;
    let i = before.len() as int;
    assert(s.subrange(i, i + needle.len()) =~= needle);
    assert(occurs_at(s, needle, i));
}

/// A text that is shorter than another one, or differs from it at every place, does not contain it.
pub proof fn contains_nothing_else(s: Seq<char>, needle: Seq<char>)
    requires
        forall|i: int|
            0 <= i <= s.len() - needle.len() ==> #[trigger] s.subrange(i, i + needle.len())
                != needle,
    ensures
        !contains_text(s, needle),
{
}

/// The characters that are white space.
pub proof fn white_space_is_known(c: char)
    ensures
        is_white_space(c) <==> seq![
            0x09u32, 0x0a, 0x0b, 0x0c, 0x0d, 0x20, 0x85, 0xa0, 0x1680, 0x2000, 0x2001, 0x2002,
            0x2003, 0x2004, 0x2005, 0x2006, 0x2007, 0x2008, 0x2009, 0x200a, 0x2028, 0x2029,
            0x202f, 0x205f, 0x3000,
        ].contains(c as u32),
{
    let all = seq![
        0x09u32, 0x0a, 0x0b, 0x0c, 0x0d, 0x20, 0x85, 0xa0, 0x1680, 0x2000, 0x2001, 0x2002, 0x2003,
        0x2004, 0x2005, 0x2006, 0x2007, 0x2008, 0x2009, 0x200a, 0x2028, 0x2029, 0x202f, 0x205f,
        0x3000,
    ];
    if is_white_space(c) {
        let n = c as u32;
        let i: int = if n <= 0x0d {
            n - 0x09
        } else if n == 0x20 {
            5
        } else if n == 0x85 {
            6
        } else if n == 0xa0 {
            7
        } else if n == 0x1680 {
            8
        } else if n <= 0x200a {
            9 + (n - 0x2000)
        } else if n == 0x2028 {
            20
        } else if n == 0x2029 {
            21
        } else if n == 0x202f {
            22
        } else if n == 0x205f {
            23
        } else {
            24
        };
        assert(all[i] == n);
    }
}

/// Trimming takes white space away at both ends, all of it, and nothing else.
pub proof fn only_white_space_is_trimmed(s: Seq<char>) -> (kept: (int, int))
    ensures
        0 <= kept.0 <= kept.1 <= s.len(),
        trimmed(s) == s.subrange(kept.0, kept.1),
        forall|i: int| 0 <= i < kept.0 ==> is_white_space(#[trigger] s[i]),
        forall|i: int| kept.1 <= i < s.len() ==> is_white_space(#[trigger] s[i]),
        kept.0 < kept.1 ==> !is_white_space(s[kept.0]) && !is_white_space(s[kept.1 - 1]),
{
    let from = only_leading_white_space_is_trimmed(s);
    let rest = s.skip(from);
    let to = only_trailing_white_space_is_trimmed(rest);
    assert(rest.take(to) =~= s.subrange(from, from + to));
    assert forall|i: int| from + to <= i < s.len() implies is_white_space(#[trigger] s[i]) by {
        assert(rest[i - from] == s[i]);
    }
    if 0 < to {
        assert(rest[0] == s[from]);
        assert(rest[to - 1] == s[from + to - 1]);
    }
    (from, from + to)
}

proof fn only_leading_white_space_is_trimmed(s: Seq<char>) -> (from: int)
    ensures
        0 <= from <= s.len(),
        trim_start(s) == s.skip(from),
        forall|i: int| 0 <= i < from ==> is_white_space(#[trigger] s[i]),
        from < s.len() ==> !is_white_space(s[from]),
    decreases s.len(),
{
    if s.len() > 0 && is_white_space(s[0]) {
        let rest = s.drop_first();
        let from = only_leading_white_space_is_trimmed(rest);
        assert(rest.skip(from) =~= s.skip(from + 1));
        assert forall|i: int| 0 <= i < from + 1 implies is_white_space(#[trigger] s[i]) by {
            if i > 0 {
                assert(rest[i - 1] == s[i]);
            }
        }
        if from < rest.len() {
            assert(rest[from] == s[from + 1]);
        }
        from + 1
    } else {
        assert(s.skip(0) =~= s);
        0
    }
}

proof fn only_trailing_white_space_is_trimmed(s: Seq<char>) -> (to: int)
    ensures
        0 <= to <= s.len(),
        trim_end(s) == s.take(to),
        forall|i: int| to <= i < s.len() ==> is_white_space(#[trigger] s[i]),
        0 < to ==> !is_white_space(s[to - 1]),
    decreases s.len(),
{
    if s.len() > 0 && is_white_space(s.last()) {
        let rest = s.drop_last();
        let to = only_trailing_white_space_is_trimmed(rest);
        assert(rest.take(to) =~= s.take(to));
        assert forall|i: int| to <= i < s.len() implies is_white_space(#[trigger] s[i]) by {
            if i < rest.len() {
                assert(rest[i] == s[i]);
            }
        }
        to
    } else {
        assert(s.take(s.len() as int) =~= s);
        s.len() as int
    }
}

/// Stripping takes the leading run of a character away, all of it, and nothing else.
pub proof fn only_the_leading_run_is_stripped(s: Seq<char>, c: char) -> (from: int)
    ensures
        0 <= from <= s.len(),
        strip_leading(s, c) == s.skip(from),
        forall|i: int| 0 <= i < from ==> #[trigger] s[i] == c,
        from < s.len() ==> s[from] != c,
    decreases s.len(),
{
    if s.len() > 0 && s[0] == c {
        let rest = s.drop_first();
        let from = only_the_leading_run_is_stripped(rest, c);
        assert(rest.skip(from) =~= s.skip(from + 1));
        assert forall|i: int| 0 <= i < from + 1 implies #[trigger] s[i] == c by {
            if i > 0 {
                assert(rest[i - 1] == s[i]);
            }
        }
        if from < rest.len() {
            assert(rest[from] == s[from + 1]);
        }
        from + 1
    } else {
        assert(s.skip(0) =~= s);
        0
    }
}

/// A text without white space is its own only word, and an empty text has none.
pub proof fn word_without_white_space(s: Seq<char>)
    requires
        forall|i: int| 0 <= i < s.len() ==> !is_white_space(#[trigger] s[i]),
    ensures
        s.len() > 0 ==> words(s) == seq![s],
        s.len() == 0 ==> words(s).len() == 0,
    decreases s.len(),
{
    if s.len() > 0 {
        let shorter = s.drop_last();
        assert forall|i: int| 0 <= i < shorter.len() implies !is_white_space(
            #[trigger] shorter[i],
        ) by {
            assert(shorter[i] == s[i]);
        }
        assert(!is_white_space(s[s.len() - 1]));
        word_without_white_space(shorter);
        if shorter.len() > 0 {
            assert(!is_white_space(s[s.len() - 2]));
            assert(shorter.push(s.last()) =~= s);
            assert(seq![shorter].drop_last().push(s) =~= seq![s]);
        } else {
            assert(seq![s.last()] =~= s);
            assert(words(shorter) =~= Seq::<Seq<char>>::empty());
            assert(words(s) =~= seq![s]);
        }
    }
}

/// White space ends a word: behind it, a text without white space is one more word, unless it is
/// empty.
pub proof fn word_behind_white_space(s: Seq<char>, space: char, t: Seq<char>)
    requires
        is_white_space(space),
        forall|i: int| 0 <= i < t.len() ==> !is_white_space(#[trigger] t[i]),
    ensures
        t.len() > 0 ==> words(s + seq![space] + t) == words(s).push(t),
        t.len() == 0 ==> words(s + seq![space] + t) == words(s),
    decreases t.len(),
{
    let whole = s + seq![space] + t;
    if t.len() == 0 {
        assert(whole.drop_last() =~= s);
    } else {
        let shorter = t.drop_last();
        assert forall|i: int| 0 <= i < shorter.len() implies !is_white_space(
            #[trigger] shorter[i],
        ) by {
            assert(shorter[i] == t[i]);
        }
        assert(!is_white_space(t[t.len() - 1]));
        word_behind_white_space(s, space, shorter);
        assert(whole.drop_last() =~= s + seq![space] + shorter);
        assert(whole.last() == t.last());
        if shorter.len() > 0 {
            assert(whole[whole.len() - 2] == t[t.len() - 2]);
            assert(shorter.push(t.last()) =~= t);
            assert(words(s).push(shorter).drop_last() =~= words(s));
        } else {
            assert(whole[whole.len() - 2] == space);
            assert(seq![t.last()] =~= t);
        }
    }
}

proof fn nothing_is_replaced_from(s: Seq<char>, needle: Seq<char>, with: Seq<char>, from: int)
    requires
        0 <= from <= s.len(),
        needle.len() > 0,
        forall|i: int|
            from <= i <= s.len() - needle.len() ==> #[trigger] s.subrange(i, i + needle.len())
                != needle,
    ensures
        replaced_from(s, needle, with, from) == s.skip(from),
    decreases s.len() - from,
{
    if from < s.len() {
        nothing_is_replaced_from(s, needle, with, from + 1);
        assert(seq![s[from]] + s.skip(from + 1) =~= s.skip(from));
    } else {
        assert(s.skip(from) =~= Seq::<char>::empty());
    }
}

/// A text in which the needle does not stand stays as it is.
pub proof fn nothing_is_replaced(s: Seq<char>, needle: Seq<char>, with: Seq<char>)
    requires
        needle.len() > 0,
        !contains_text(s, needle),
    ensures
        replaced(s, needle, with) == s,
{
    assert forall|i: int| 0 <= i <= s.len() - needle.len() implies #[trigger] s.subrange(
        i,
        i + needle.len(),
    ) != needle by {
        assert(!occurs_at(s, needle, i));
    }
    nothing_is_replaced_from(s, needle, with, 0);
    assert(s.skip(0) =~= s);
}

proof fn replacement_looks_ahead_only(
    s: Seq<char>,
    needle: Seq<char>,
    with: Seq<char>,
    from: int,
    shift: int,
)
    requires
        0 <= shift <= from,
        shift <= s.len(),
        needle.len() > 0,
    ensures
        replaced_from(s, needle, with, from) == replaced_from(
            s.skip(shift),
            needle,
            with,
            from - shift,
        ),
    decreases s.len() - from,
{
    if from < s.len() {
        let rest = s.skip(shift);
        if from + needle.len() <= s.len() {
            assert(rest.subrange(from - shift, from - shift + needle.len()) =~= s.subrange(
                from,
                from + needle.len(),
            ));
        }
        assert(occurs_at(s, needle, from) == occurs_at(rest, needle, from - shift));
        if occurs_at(s, needle, from) {
            replacement_looks_ahead_only(s, needle, with, from + needle.len(), shift);
        } else {
            replacement_looks_ahead_only(s, needle, with, from + 1, shift);
        }
    }
}

proof fn first_place_is_replaced_from(
    s: Seq<char>,
    needle: Seq<char>,
    with: Seq<char>,
    from: int,
    at: int,
)
    requires
        needle.len() > 0,
        0 <= from <= at,
        occurs_at(s, needle, at),
        forall|i: int| from <= i < at ==> !(#[trigger] occurs_at(s, needle, i)),
    ensures
        replaced_from(s, needle, with, from) == s.subrange(from, at) + with + replaced_from(
            s,
            needle,
            with,
            at + needle.len(),
        ),
    decreases at - from,
{
    if from < at {
        assert(!occurs_at(s, needle, from));
        first_place_is_replaced_from(s, needle, with, from + 1, at);
        assert(seq![s[from]] + (s.subrange(from + 1, at) + with + replaced_from(
            s,
            needle,
            with,
            at + needle.len(),
        )) =~= s.subrange(from, at) + with + replaced_from(s, needle, with, at + needle.len()));
    } else {
        assert(s.subrange(from, at) + with + replaced_from(s, needle, with, at + needle.len())
            =~= with + replaced_from(s, needle, with, at + needle.len()));
    }
}

/// Where the needle stands first, it is replaced; what is before it stays, and of what is behind it the
/// same holds again.
pub proof fn first_place_is_replaced(
    s: Seq<char>,
    needle: Seq<char>,
    with: Seq<char>,
    at: int,
)
    requires
        needle.len() > 0,
        occurs_at(s, needle, at),
        forall|i: int| 0 <= i < at ==> !(#[trigger] occurs_at(s, needle, i)),
    ensures
        replaced(s, needle, with) == s.take(at) + with + replaced(
            s.skip(at + needle.len()),
            needle,
            with,
        ),
{
    first_place_is_replaced_from(s, needle, with, 0, at);
    replacement_looks_ahead_only(s, needle, with, at + needle.len(), at + needle.len());
    assert(s.subrange(0, at) =~= s.take(at));
}

/// The number that decimal digits stand for.
pub open spec fn number_of(digits: Seq<char>) -> int
    decreases digits.len(),
{
    if digits.len() == 0 {
        0
    } else {
        10 * number_of(digits.drop_last()) + (digits.last() as u32 - '0' as u32)
    }
}

/// The decimal notation of a number is made of the digits `0` to `9`, has no zero before other digits,
/// and stands for the number.
pub proof fn decimal_notation_is_read_back(n: nat)
    ensures
        number_of(decimal(n)) == n,
        decimal(n).len() > 0,
        forall|i: int| 0 <= i < decimal(n).len() ==> '0' <= #[trigger] decimal(n)[i] <= '9',
        decimal(n).len() > 1 ==> decimal(n)[0] != '0',
    decreases n,
{
    reveal_with_fuel(number_of, 2);
    if n < 10 {
        assert(decimal(n).drop_last() =~= Seq::<char>::empty());
    } else {
        decimal_notation_is_read_back(n / 10);
        assert(decimal(n).drop_last() =~= decimal(n / 10));
        if decimal(n / 10).len() == 1 {
            assert(number_of(decimal(n / 10)) == decimal(n / 10)[0] as u32 - '0' as u32) by {
                assert(decimal(n / 10).drop_last() =~= Seq::<char>::empty());
            }
        }
    }
}

/// A negative number has a minus sign before the digits of its amount, and every other number has none.
pub proof fn only_negative_numbers_have_a_sign(n: nat)
    ensures
        signed_decimal(n as int) == decimal(n),
        n > 0 ==> signed_decimal(-n) == "-"@ + decimal(n),
{
}

/// Of the characters of a text, only the one that is to be left out is left out; the others stay, and in
/// order.
pub proof fn only_the_character_is_left_out(s: Seq<char>, last: char, c: char)
    ensures
        without_char(s.push(last), c) == if last == c {
            without_char(s, c)
        } else {
            without_char(s, c).push(last)
        },
        s.len() == 0 ==> without_char(s, c).len() == 0,
{
    reveal(Seq::filter);
    assert(s.push(last).drop_last() =~= s);
}

/// An optional number is shown within `Some`, with its sign, or as `None`.
pub proof fn optional_numbers_are_shown(n: Option<i32>, r: String)
    requires
        call_ensures(debug_text, (n,), r),
    ensures
        n is None ==> r@ == "None"@,
        n matches Some(number) ==> r@ == "Some("@ + (if number < 0 {
            "-"@ + decimal((-number) as nat)
        } else {
            decimal(number as nat)
        }) + ")"@,
{
}

} // verus!
