//! Text helpers shared by the modules of this crate.
//!
//! The first functions hand a question to a `str` method of the standard
//! library and state what its documentation says of the answer. The rest is
//! verified.
use vstd::prelude::*;
use vstd::utf8::encode_utf8;

verus! {

/// What `str::trim` leaves of a text: the text without its leading and
/// trailing white space, as Unicode defines white space.
pub uninterp spec fn trimmed(s: Seq<char>) -> Seq<char>;

/// A text without the run of `c` at its end.
pub open spec fn without_trailing(s: Seq<char>, c: char) -> Seq<char>
    decreases s.len(),
{
    if s.len() > 0 && s.last() == c {
        without_trailing(s.drop_last(), c)
    } else {
        s
    }
}

/// Whether `pattern` occurs somewhere in `s`.
pub open spec fn occurs_in(pattern: Seq<char>, s: Seq<char>) -> bool {
    exists|i: int|
        0 <= i && i + pattern.len() <= s.len() && #[trigger] s.subrange(i, i + pattern.len())
            == pattern
}

/// `==` on `str`: the two texts hold the same characters.
#[verifier::external_body]
pub(crate) fn str_eq(a: &str, b: &str) -> (r: bool)
    ensures
        r == (a@ == b@),
{
    a == b
}

/// `str::strip_prefix`: what follows the prefix, `None` where the text does
/// not start with it.
#[verifier::external_body]
pub(crate) fn strip_prefix<'a>(s: &'a str, prefix: &str) -> (r: Option<&'a str>)
    ensures
        match r {
            Some(rest) => s@ == prefix@ + rest@,
            None => !prefix@.is_prefix_of(s@),
        },
{
    s.strip_prefix(prefix)
}

/// `str::trim`.
#[verifier::external_body]
pub(crate) fn trim(s: &str) -> (r: &str)
    ensures
        r@ == trimmed(s@),
{
    s.trim()
}

/// `str::trim_end_matches` with a character: every `c` at the end is removed.
#[verifier::external_body]
pub(crate) fn trim_end_matches(s: &str, c: char) -> (r: &str)
    ensures
        r@ == without_trailing(s@, c),
{
    s.trim_end_matches(c)
}

/// `str::contains` with a text as the pattern.
#[verifier::external_body]
pub(crate) fn contains(s: &str, pattern: &str) -> (r: bool)
    ensures
        r == occurs_in(pattern@, s@),
{
    s.contains(pattern)
}

/// What `str::to_lowercase` makes of a text: each character replaced by its
/// lower-case form, as Unicode defines it.
pub uninterp spec fn lowercased(s: Seq<char>) -> Seq<char>;

/// `str::to_lowercase`.
#[verifier::external_body]
pub(crate) fn to_lowercase(s: &str) -> (r: String)
    ensures
        r@ == lowercased(s@),
{
    s.to_lowercase()
}

/// Whether a character is white space, as Unicode defines it: what
/// `char::is_whitespace` tells.
pub uninterp spec fn white_space(c: char) -> bool;

/// The first position at or after `from` at which `pattern` begins in
/// `bytes`.
pub open spec fn first_match_from(bytes: Seq<u8>, pattern: Seq<u8>, from: int) -> Option<int>
    decreases bytes.len() - from,
{
    if from < 0 || from + pattern.len() > bytes.len() {
        None
    } else if bytes.subrange(from, from + pattern.len()) == pattern {
        Some(from)
    } else if from >= bytes.len() {
        None
    } else {
        first_match_from(bytes, pattern, from + 1)
    }
}

/// `str::find` with a text as the pattern: the byte index at which the
/// pattern first begins.
#[verifier::external_body]
pub(crate) fn find(s: &str, pattern: &str) -> (r: Option<usize>)
    ensures
        match r {
            Some(i) => first_match_from(encode_utf8(s@), encode_utf8(pattern@), 0) == Some(
                i as int,
            ),
            None => first_match_from(encode_utf8(s@), encode_utf8(pattern@), 0) is None,
        },
{
    s.find(pattern)
}

/// The part of a text between two byte indices, as `str::get` yields it:
/// `None` where the range does not lie within the text or an index falls
/// inside a character.
pub uninterp spec fn range_of(s: Seq<char>, start: int, end: int) -> Option<Seq<char>>;

/// `str::get` with a range of byte indices.
#[verifier::external_body]
pub(crate) fn get_range(s: &str, start: usize, end: usize) -> (r: Option<&str>)
    ensures
        match r {
            Some(part) => range_of(s@, start as int, end as int) == Some(part@) && start <= end
                <= encode_utf8(s@).len() && encode_utf8(part@) == encode_utf8(s@).subrange(
                start as int,
                end as int,
            ),
            None => range_of(s@, start as int, end as int) is None,
        },
{
    s.get(start..end)
}

/// Texts joined by a separator.
pub open spec fn joined(texts: Seq<Seq<char>>, separator: Seq<char>) -> Seq<char>
    decreases texts.len(),
{
    if texts.len() == 0 {
        Seq::empty()
    } else if texts.len() == 1 {
        texts[0]
    } else {
        joined(texts.drop_last(), separator) + separator + texts.last()
    }
}

/// Joins texts by a separator.
pub fn join_all(texts: &Vec<String>, separator: &str) -> (r: String)
    ensures
        r@ == joined(Seq::new(texts@.len(), |i: int| texts@[i]@), separator@),
{
    let ghost views = Seq::new(texts@.len(), |i: int| texts@[i]@);
    let mut out = String::new();
    let mut i: usize = 0;
    assert(views.subrange(0, 0) =~= Seq::<Seq<char>>::empty());
    while i < texts.len()
        invariant
            i <= texts.len(),
            views == Seq::new(texts@.len(), |i: int| texts@[i]@),
            out@ == joined(views.subrange(0, i as int), separator@),
        decreases texts.len() - i,
    {
        proof {
            assert(views.subrange(0, i + 1).drop_last() =~= views.subrange(0, i as int));
            assert(views.subrange(0, i + 1).last() == texts@[i as int]@);
        }
        if i > 0 {
            out.append(separator);
        }
        out.append(texts[i].as_str());
        assert(out@ =~= joined(views.subrange(0, i + 1), separator@));
        i += 1;
    }
    assert(views.subrange(0, texts@.len() as int) =~= views);
    out
}

/// `char::is_whitespace`.
#[verifier::external_body]
pub(crate) fn is_whitespace(c: char) -> (r: bool)
    ensures
        r == white_space(c),
{
    c.is_whitespace()
}

/// `String::push`: the character is appended.
#[verifier::external_body]
pub(crate) fn push_char(s: &mut String, c: char)
    ensures
        final(s)@ == old(s)@.push(c),
{
    s.push(c)
}

/// A text without its white space.
pub open spec fn without_white_space(s: Seq<char>) -> Seq<char>
    decreases s.len(),
{
    if s.len() == 0 {
        Seq::empty()
    } else if white_space(s.last()) {
        without_white_space(s.drop_last())
    } else {
        without_white_space(s.drop_last()).push(s.last())
    }
}

/// Removes the white space from a text.
pub fn remove_white_space(s: &str) -> (r: String)
    ensures
        r@ == without_white_space(s@),
{
    let mut out = String::new();
    let n = s.unicode_len();
    let mut i: usize = 0;
    assert(s@.subrange(0, 0) =~= Seq::<char>::empty());
    while i < n
        invariant
            i <= n,
            n == s@.len(),
            out@ == without_white_space(s@.subrange(0, i as int)),
        decreases n - i,
    {
        let c = s.get_char(i);
        proof {
            let before = s@.subrange(0, i as int);
            assert(s@.subrange(0, i + 1).drop_last() =~= before);
            assert(s@.subrange(0, i + 1).last() == c);
        }
        if !is_whitespace(c) {
            push_char(&mut out, c);
        }
        i += 1;
    }
    assert(s@.subrange(0, n as int) =~= s@);
    out
}

/// The character that stands for a decimal digit.
pub open spec fn digit_char(d: int) -> char {
    if d == 0 {
        '0'
    } else if d == 1 {
        '1'
    } else if d == 2 {
        '2'
    } else if d == 3 {
        '3'
    } else if d == 4 {
        '4'
    } else if d == 5 {
        '5'
    } else if d == 6 {
        '6'
    } else if d == 7 {
        '7'
    } else if d == 8 {
        '8'
    } else {
        '9'
    }
}

/// The decimal numeral of a natural number, without leading zeros.
pub open spec fn decimal(n: nat) -> Seq<char>
    decreases n,
{
    if n < 10 {
        seq![digit_char(n as int)]
    } else {
        decimal(n / 10).push(digit_char((n % 10) as int))
    }
}

fn digit_text(d: u64) -> (r: &'static str)
    requires
        d < 10,
    ensures
        r@ == seq![digit_char(d as int)],
{
    proof {
        reveal_strlit("0");
        reveal_strlit("1");
        reveal_strlit("2");
        reveal_strlit("3");
        reveal_strlit("4");
        reveal_strlit("5");
        reveal_strlit("6");
        reveal_strlit("7");
        reveal_strlit("8");
        reveal_strlit("9");
    }
    let r = if d == 0 {
        "0"
    } else if d == 1 {
        "1"
    } else if d == 2 {
        "2"
    } else if d == 3 {
        "3"
    } else if d == 4 {
        "4"
    } else if d == 5 {
        "5"
    } else if d == 6 {
        "6"
    } else if d == 7 {
        "7"
    } else if d == 8 {
        "8"
    } else {
        "9"
    };
    assert(r@ =~= seq![digit_char(d as int)]);
    r
}

/// Writes a number in decimal.
pub fn u64_to_decimal(n: u64) -> (r: String)
    ensures
        r@ == decimal(n as nat),
    decreases n,
{
    if n < 10 {
        digit_text(n).to_owned()
    } else {
        let mut text = u64_to_decimal(n / 10);
        text.append(digit_text(n % 10));
        assert(text@ =~= decimal(n as nat));
        text
    }
}

/// Joins two texts.
pub fn join(a: &str, b: &str) -> (r: String)
    ensures
        r@ == a@ + b@,
{
    let mut text = a.to_owned();
    text.append(b);
    text
}

/// Whether a line holds nothing but white space.
pub fn is_blank(line: &str) -> (r: bool)
    ensures
        r == (trimmed(line@).len() == 0),
{
    trim(line).is_empty()
}

/// Whether a text is among some texts.
pub open spec fn is_among(texts: Seq<String>, wanted: Seq<char>) -> bool {
    exists|i: int| 0 <= i < texts.len() && (#[trigger] texts[i])@ == wanted
}

/// Tells whether a text is among some texts.
pub fn holds(texts: &Vec<String>, wanted: &str) -> (r: bool)
    ensures
        r == is_among(texts@, wanted@),
{
    let mut i: usize = 0;
    while i < texts.len()
        invariant
            i <= texts.len(),
            forall|j: int| 0 <= j < i ==> (#[trigger] texts@[j])@ != wanted@,
        decreases texts.len() - i,
    {
        if str_eq(texts[i].as_str(), wanted) {
            return true;
        }
        i += 1;
    }
    false
}

} // verus!
