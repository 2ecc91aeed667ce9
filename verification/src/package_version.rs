//! The version in the reference to a package, and the number of it that its range counts up.

use vstd::prelude::*;
use vstd::string::*;

use crate::text::{chars_of, has_prefix, split_char, string_of};

verus! {

/// The version requirement in a reference such as `npm:@scope/name@1.2/path`, if it has one: what
/// stands behind the last `@` of the package's name.
pub open spec fn reference_version(specifier: Seq<char>) -> Option<Seq<char>> {
    if crate::text::starts_with_text(specifier, "jsr:"@) || crate::text::starts_with_text(
        specifier,
        "npm:"@,
    ) {
        let path = specifier.skip(4);
        let pieces = crate::text::split(
            if path.len() > 0 && path[0] == '/' {
                path.drop_first()
            } else {
                path
            },
            '/',
        );
        let name = if pieces[0].len() > 0 && pieces[0][0] == '@' {
            if pieces.len() > 1 {
                pieces[1]
            } else {
                ""@
            }
        } else {
            pieces[0]
        };
        let parts = crate::text::split(name, '@');
        if parts.len() > 1 {
            Some(parts.last())
        } else {
            None
        }
    } else {
        None
    }
}

/// A decimal digit.
pub open spec fn is_digit(c: char) -> bool {
    '0' <= c <= '9'
}

/// The value of decimal digits.
pub open spec fn number(digits: Seq<char>) -> nat
    decreases digits.len(),
{
    if digits.len() == 0 {
        0
    } else {
        (number(digits.drop_last()) * 10 + (digits.last() as u32 - '0' as u32)) as nat
    }
}

/// Where the digits end that begin at a position.
pub open spec fn digits_end(s: Seq<char>, from: int) -> int
    decreases s.len() - from,
{
    if 0 <= from < s.len() && is_digit(s[from]) {
        digits_end(s, from + 1)
    } else {
        from
    }
}

/// The part of a version at a position, and where it ends: a wildcard, for which there is no number,
/// or a number. A number that begins with a zero is that zero.
pub open spec fn part_at(s: Seq<char>, at: int) -> Option<(Option<nat>, int)> {
    if !(0 <= at < s.len()) {
        None
    } else if s[at] == 'x' || s[at] == 'X' || s[at] == '*' {
        Some((None, at + 1))
    } else if s[at] == '0' {
        Some((Some(0), at + 1))
    } else if is_digit(s[at]) {
        Some((Some(number(s.subrange(at, digits_end(s, at)))), digits_end(s, at)))
    } else {
        None
    }
}

/// The part of a version behind the dot at a position.
pub open spec fn part_behind_dot(s: Seq<char>, at: int) -> Option<(Option<nat>, int)> {
    if 0 <= at < s.len() && s[at] == '.' {
        part_at(s, at + 1)
    } else {
        None
    }
}

/// The major, the minor and the patch version that a text begins with; `None` in the place of one
/// that is a wildcard or missing.
pub open spec fn version_parts(s: Seq<char>) -> Option<(Option<nat>, Option<nat>, Option<nat>)> {
    match part_at(s, 0) {
        None => None,
        Some((major, after_major)) => match part_behind_dot(s, after_major) {
            None => Some((major, None, None)),
            Some((minor, after_minor)) => match part_behind_dot(s, after_minor) {
                None => Some((major, minor, None)),
                Some((patch, _)) => Some((major, minor, patch)),
            },
        },
    }
}

/// A wildcard, or a number of 64 bits.
pub open spec fn fits(part: Option<nat>) -> bool {
    part matches Some(n) ==> n <= u64::MAX
}

/// The number of a version requirement that its range ends behind: for `~` the last of the major and
/// the minor version that is given, for `^` the first one that is not zero, or the last one, and
/// without a sign the last one before a wildcard. `None` where the range does not end behind a number,
/// or the text begins with no version of 64-bit numbers.
pub open spec fn counted_up(version: Seq<char>) -> Option<nat> {
    let tilde = version.len() > 0 && version[0] == '~';
    let caret = version.len() > 0 && version[0] == '^';
    match version_parts(
        if tilde || caret {
            version.drop_first()
        } else {
            version
        },
    ) {
        Some((Some(major), minor, patch)) => if !fits(Some(major)) || !fits(minor) || !fits(patch) {
            None
        } else {
            match (minor, patch) {
                (None, _) => Some(major),
                (Some(minor), _) if tilde => Some(minor),
                (Some(minor), _) if caret => if major > 0 {
                    Some(major)
                } else if minor > 0 || patch is None {
                    Some(minor)
                } else {
                    patch
                },
                (Some(minor), None) => Some(minor),
                (Some(_), Some(_)) => None,
            }
        },
        _ => None,
    }
}

/// The range of the version requirement ends behind the greatest number of 64 bits: there is no next
/// one.
pub open spec fn ends_behind_all(version: Seq<char>) -> bool {
    counted_up(version) == Some(u64::MAX as nat)
}

/// The reference has a version requirement whose range ends behind the greatest number of 64 bits.
pub open spec fn has_endless_version(specifier: Seq<char>) -> bool {
    reference_version(specifier) matches Some(version) && ends_behind_all(version)
}

/// A part of a version.
#[derive(Clone, Copy)]
enum Part {
    Wildcard,
    Number(u64),
    /// A number of more than 64 bits.
    TooLarge,
}

/// The part is the one that a number or its absence stands for.
spec fn is_part(part: Part, n: Option<nat>) -> bool {
    match part {
        Part::Wildcard => n is None,
        Part::Number(v) => n == Some(v as nat),
        Part::TooLarge => n matches Some(v) && v > u64::MAX,
    }
}

/// More digits do not make a number smaller.
proof fn number_grows(s: Seq<char>, from: int, i: int, to: int)
    requires
        0 <= from <= i <= to <= s.len(),
        forall|k: int| from <= k < to ==> is_digit(#[trigger] s[k]),
    ensures
        number(s.subrange(from, i)) <= number(s.subrange(from, to)),
    decreases to - i,
{
    if i < to {
        number_grows(s, from, i, to - 1);
        assert(s.subrange(from, to).drop_last() =~= s.subrange(from, to - 1));
        assert(is_digit(s[to - 1]));
    }
}

fn read_number(chars: &Vec<char>, from: usize, to: usize) -> (r: Option<u64>)
    requires
        from <= to <= chars.len(),
        forall|k: int| from <= k < to ==> is_digit(#[trigger] chars@[k]),
    ensures
        match r {
            Some(v) => number(chars@.subrange(from as int, to as int)) == v,
            None => number(chars@.subrange(from as int, to as int)) > u64::MAX,
        },
{
    let mut value: u64 = 0;
    let mut i: usize = from;
    while i < to
        invariant
            from <= i <= to <= chars.len(),
            forall|k: int| from <= k < to ==> is_digit(#[trigger] chars@[k]),
            number(chars@.subrange(from as int, i as int)) == value,
        decreases to - i,
    {
        let c = chars[i];
        let digit: u64 = (c as u32 - '0' as u32) as u64;
        proof {
            assert(chars@.subrange(from as int, i + 1).drop_last() =~= chars@.subrange(
                from as int,
                i as int,
            ));
            number_grows(chars@, from as int, i + 1, to as int);
        }
        if value > (0xffff_ffff_ffff_ffff - digit) / 10 {
            return None;
        }
        value = value * 10 + digit;
        i += 1;
    }
    Some(value)
}

fn read_part(chars: &Vec<char>, at: usize) -> (r: Option<(Part, usize)>)
    ensures
        match r {
            Some((part, end)) => {
                &&& part_at(chars@, at as int) matches Some((n, e)) && is_part(part, n) && e == end
                &&& end <= chars.len()
            },
            None => part_at(chars@, at as int) is None,
        },
{
    if at >= chars.len() {
        return None;
    }
    let c = chars[at];
    if c == 'x' || c == 'X' || c == '*' {
        return Some((Part::Wildcard, at + 1));
    }
    if c == '0' {
        return Some((Part::Number(0), at + 1));
    }
    if c < '0' || c > '9' {
        return None;
    }
    let mut end: usize = at;
    while end < chars.len() && '0' <= chars[end] && chars[end] <= '9'
        invariant
            at <= end <= chars.len(),
            digits_end(chars@, at as int) == digits_end(chars@, end as int),
            forall|k: int| at <= k < end ==> is_digit(#[trigger] chars@[k]),
        decreases chars.len() - end,
    {
        end += 1;
    }
    match read_number(chars, at, end) {
        Some(v) => Some((Part::Number(v), end)),
        None => Some((Part::TooLarge, end)),
    }
}

fn read_part_behind_dot(chars: &Vec<char>, at: usize) -> (r: Option<(Part, usize)>)
    ensures
        match r {
            Some((part, end)) => {
                &&& part_behind_dot(chars@, at as int) matches Some((n, e)) && is_part(part, n) && e
                    == end
                &&& end <= chars.len()
            },
            None => part_behind_dot(chars@, at as int) is None,
        },
{
    if at < chars.len() && chars[at] == '.' {
        read_part(chars, at + 1)
    } else {
        None
    }
}

/// The major, the minor and the patch version that a text begins with.
fn read_parts(chars: &Vec<char>) -> (r: Option<(Part, Part, Part)>)
    ensures
        match r {
            Some((a, b, c)) => version_parts(chars@) matches Some((major, minor, patch)) && is_part(
                a,
                major,
            ) && is_part(b, minor) && is_part(c, patch),
            None => version_parts(chars@) is None,
        },
{
    let (major, after_major): (Part, usize) = match read_part(chars, 0) {
        Some(read) => read,
        None => {
            return None;
        },
    };
    let (minor, after_minor): (Part, usize) = match read_part_behind_dot(chars, after_major) {
        Some(read) => read,
        None => {
            return Some((major, Part::Wildcard, Part::Wildcard));
        },
    };
    match read_part_behind_dot(chars, after_minor) {
        Some((patch, _)) => Some((major, minor, patch)),
        None => Some((major, minor, Part::Wildcard)),
    }
}

/// Whether the range of a version requirement ends behind the greatest number of 64 bits.
pub fn is_endless(version: &str) -> (r: bool)
    ensures
        r == ends_behind_all(version@),
{
    let chars = chars_of(version);
    let tilde = chars.len() > 0 && chars[0] == '~';
    let caret = chars.len() > 0 && chars[0] == '^';
    let rest = if tilde || caret {
        let text = string_of(&chars, 1, chars.len());
        assert(text@ =~= version@.drop_first());
        chars_of(text.as_str())
    } else {
        chars
    };
    let greatest: u64 = 0xffff_ffff_ffff_ffff;
    match read_parts(&rest) {
        Some((Part::Number(major), minor, patch)) => match (minor, patch) {
            (Part::TooLarge, _) => false,
            (_, Part::TooLarge) => false,
            (Part::Wildcard, _) => major == greatest,
            (Part::Number(minor), patch) => if tilde {
                minor == greatest
            } else if caret {
                if major > 0 {
                    major == greatest
                } else {
                    match patch {
                        Part::Number(patch) if minor == 0 => patch == greatest,
                        _ => minor == greatest,
                    }
                }
            } else {
                match patch {
                    Part::Wildcard => minor == greatest,
                    _ => false,
                }
            },
        },
        _ => false,
    }
}

/// The version requirement in a reference to a package, if it has one.
pub fn version_of_reference(specifier: &str) -> (r: Option<String>)
    ensures
        crate::text::opt_text(r) == reference_version(specifier@),
{
    if !has_prefix(specifier, "jsr:") && !has_prefix(specifier, "npm:") {
        return None;
    }
    proof {
        reveal_strlit("jsr:");
        reveal_strlit("npm:");
        reveal_strlit("");
    }
    let chars = chars_of(specifier);
    let from: usize = if chars.len() > 4 && chars[4] == '/' {
        5
    } else {
        4
    };
    let path = string_of(&chars, from, chars.len());
    let pieces = split_char(path.as_str(), '/');
    let ghost texts = crate::text::texts(pieces@);
    proof {
        let rest = specifier@.skip(4);
        assert(path@ =~= if rest.len() > 0 && rest[0] == '/' {
            rest.drop_first()
        } else {
            rest
        });
        crate::text::split_is_not_empty(path@, '/');
    }
    let first = chars_of(pieces[0].as_str());
    assert(texts[0] == first@);
    let scoped = first.len() > 0 && first[0] == '@';
    let name = if !scoped {
        pieces[0].as_str()
    } else if pieces.len() > 1 {
        assert(texts[1] == pieces@[1]@);
        pieces[1].as_str()
    } else {
        ""
    };
    let mut parts = split_char(name, '@');
    if parts.len() > 1 {
        let ghost all = crate::text::texts(parts@);
        assert(all.last() == parts@.last()@);
        parts.pop()
    } else {
        None
    }
}

/// Whether a reference has a version requirement whose range ends behind the greatest number of 64
/// bits.
pub fn reference_is_endless(specifier: &str) -> (r: bool)
    ensures
        r == has_endless_version(specifier@),
{
    match version_of_reference(specifier) {
        Some(version) => is_endless(version.as_str()),
        None => false,
    }
}

proof fn digits_bound_the_number(digits: Seq<char>, limit: nat)
    requires
        forall|i: int| 0 <= i < digits.len() ==> is_digit(#[trigger] digits[i]),
        limit == vstd::arithmetic::power::pow(10, digits.len()),
    ensures
        number(digits) < limit,
    decreases digits.len(),
{
    if digits.len() == 0 {
        vstd::arithmetic::power::lemma_pow0(10);
    } else {
        let shorter = digits.drop_last();
        let n = shorter.len();
        assert forall|i: int| 0 <= i < n implies is_digit(#[trigger] shorter[i]) by {
            assert(shorter[i] == digits[i]);
        }
        assert(is_digit(digits[n as int]));
        vstd::arithmetic::power::lemma_pow_positive(10, n);
        digits_bound_the_number(shorter, vstd::arithmetic::power::pow(10, n) as nat);
        reveal(vstd::arithmetic::power::pow);
        assert(limit == 10 * vstd::arithmetic::power::pow(10, n));
    }
}

proof fn power_of_ten_is_small(n: nat)
    requires
        n < 20,
    ensures
        vstd::arithmetic::power::pow(10, n) <= 10_000_000_000_000_000_000,
{
    reveal(vstd::arithmetic::power::pow);
    vstd::arithmetic::power::lemma_pow_increases(10, n, 19);
    assert(vstd::arithmetic::power::pow(10, 19) == 10_000_000_000_000_000_000) by {
        reveal_with_fuel(vstd::arithmetic::power::pow, 20);
    }
}

proof fn part_is_small(s: Seq<char>, at: int)
    requires
        s.len() < 20,
    ensures
        part_at(s, at) matches Some((Some(n), _)) ==> n < u64::MAX,
{
    if 0 <= at < s.len() && is_digit(s[at]) && s[at] != '0' {
        let end = digits_end(s, at);
        digits_are_digits(s, at);
        let digits = s.subrange(at, end);
        assert forall|i: int| 0 <= i < digits.len() implies is_digit(#[trigger] digits[i]) by {
            assert(digits[i] == s[at + i]);
        }
        vstd::arithmetic::power::lemma_pow_positive(10, digits.len());
        digits_bound_the_number(digits, vstd::arithmetic::power::pow(10, digits.len()) as nat);
        power_of_ten_is_small(digits.len());
    }
}

proof fn digits_are_digits(s: Seq<char>, from: int)
    requires
        0 <= from <= s.len(),
    ensures
        from <= digits_end(s, from) <= s.len(),
        forall|k: int| from <= k < digits_end(s, from) ==> is_digit(#[trigger] s[k]),
    decreases s.len() - from,
{
    if from < s.len() && is_digit(s[from]) {
        digits_are_digits(s, from + 1);
    }
}

/// Only a version with a number of twenty digits can end behind all: every version of fewer than twenty
/// characters, with or without a sign before it, is one that a package can have.
pub proof fn short_versions_have_an_end(version: Seq<char>)
    requires
        version.len() < 20,
    ensures
        !ends_behind_all(version),
{
    let rest = if version.len() > 0 && (version[0] == '~' || version[0] == '^') {
        version.drop_first()
    } else {
        version
    };
    part_is_small(rest, 0);
    if let Some((major, after_major)) = part_at(rest, 0) {
        part_is_small(rest, after_major + 1);
        if let Some((minor, after_minor)) = part_behind_dot(rest, after_major) {
            part_is_small(rest, after_minor + 1);
        }
    }
}

/// A reference without a version requirement, and every text that is no reference to a package, has an end.
pub proof fn references_without_a_version_have_an_end(specifier: Seq<char>)
    ensures
        reference_version(specifier) is None ==> !has_endless_version(specifier),
        !"jsr:"@.is_prefix_of(specifier) && !"npm:"@.is_prefix_of(specifier)
            ==> !has_endless_version(specifier),
        reference_version(specifier) matches Some(version) && version.len() < 20
            ==> !has_endless_version(specifier),
{
    crate::text::starts_with_a_prefix(specifier, "jsr:"@);
    crate::text::starts_with_a_prefix(specifier, "npm:"@);
    if let Some(version) = reference_version(specifier) {
        if version.len() < 20 {
            short_versions_have_an_end(version);
        }
    }
}

/// The version of a reference stands behind the `@` of the name of its package, which is the only piece of the
/// path where the package has no scope.
pub proof fn version_stands_behind_the_name(name: Seq<char>, version: Seq<char>)
    requires
        name.len() > 0,
        !name.contains('@'),
        !name.contains('/'),
        !version.contains('@'),
        !version.contains('/'),
    ensures
        reference_version("npm:"@ + name + seq!['@'] + version) == Some(version),
        reference_version("jsr:"@ + name + seq!['@'] + version) == Some(version),
        reference_version("npm:"@ + name) is None,
        reference_version("jsr:"@ + name) is None,
{
    reveal_strlit("npm:");
    reveal_strlit("jsr:");
    let versioned = name + seq!['@'] + version;
    crate::text::starts_with_a_prefix(versioned, "npm:"@);
    crate::text::starts_with_a_prefix(versioned, "jsr:"@);
    crate::text::starts_with_a_prefix(name, "npm:"@);
    crate::text::starts_with_a_prefix(name, "jsr:"@);
    assert("npm:"@ + name + seq!['@'] + version =~= "npm:"@ + versioned);
    assert("jsr:"@ + name + seq!['@'] + version =~= "jsr:"@ + versioned);
    assert(("npm:"@ + versioned).skip(4) =~= versioned);
    assert(("jsr:"@ + versioned).skip(4) =~= versioned);
    assert(("npm:"@ + name).skip(4) =~= name);
    assert(("jsr:"@ + name).skip(4) =~= name);
    assert(name.contains(name[0]));
    assert(!versioned.contains('/')) by {
        if versioned.contains('/') {
            let i = choose|i: int| 0 <= i < versioned.len() && versioned[i] == '/';
            if i < name.len() {
                assert(name.contains(name[i]));
            } else if i > name.len() {
                assert(version.contains(version[i - name.len() - 1]));
            }
        }
    }
    crate::text::split_without_separator(versioned, '/');
    crate::text::split_without_separator(name, '/');
    crate::text::split_without_separator(name, '@');
    crate::text::split_append(name, version, '@');
}

} // verus!
