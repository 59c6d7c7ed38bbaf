//! Text primitives shared by the resolver and the dispatch engine.
//!
//! Three operations of the standard library on `str` are used as they are
//! and not re-proved here: lowercasing, trimming and decimal parsing. Each has
//! a small wrapper whose contract is taken on trust; everything built on top
//! of them is verified.
use vstd::prelude::*;
use vstd::string::StrSliceExecFns;

verus! {

/// The lowercase form of a text, as `str::to_lowercase` computes it.
pub uninterp spec fn lowercase(s: Seq<char>) -> Seq<char>;

/// Whether `c` is whitespace: one of the twenty-five characters with the
/// Unicode property `White_Space`.
pub open spec fn is_white_space(c: char) -> bool {
    let code = c as u32;
    ||| 0x09 <= code <= 0x0d
    ||| code == 0x20
    ||| code == 0x85
    ||| code == 0xa0
    ||| code == 0x1680
    ||| 0x2000 <= code <= 0x200a
    ||| code == 0x2028
    ||| code == 0x2029
    ||| code == 0x202f
    ||| code == 0x205f
    ||| code == 0x3000
}

/// A text without its leading whitespace.
pub open spec fn trimmed_start(s: Seq<char>) -> Seq<char>
    decreases s.len(),
{
    if s.len() > 0 && is_white_space(s[0]) {
        trimmed_start(s.drop_first())
    } else {
        s
    }
}

/// A text without its trailing whitespace.
pub open spec fn trimmed_end(s: Seq<char>) -> Seq<char>
    decreases s.len(),
{
    if s.len() > 0 && is_white_space(s.last()) {
        trimmed_end(s.drop_last())
    } else {
        s
    }
}

/// A text without its leading and trailing whitespace.
pub open spec fn trimmed(s: Seq<char>) -> Seq<char> {
    trimmed_end(trimmed_start(s))
}

/// Whether `c` is whitespace.
pub fn is_white_space_char(c: char) -> (white: bool)
    ensures
        white == is_white_space(c),
{
    let code: u32 = c as u32;
    (0x09 <= code && code <= 0x0d) || code == 0x20 || code == 0x85 || code == 0xa0 || code
        == 0x1680 || (0x2000 <= code && code <= 0x200a) || code == 0x2028 || code == 0x2029
        || code == 0x202f || code == 0x205f || code == 0x3000
}

/// A text that neither begins nor ends with whitespace is its own trimmed
/// form.
pub proof fn text_without_outer_whitespace_is_trimmed(s: Seq<char>)
    requires
        s.len() > 0 ==> !is_white_space(s[0]) && !is_white_space(s.last()),
    ensures
        trimmed(s) == s,
{
}

/// Calls `str::to_lowercase`. Trusted: the result is a function of the
/// characters of `s` alone, which [`lowercase`] names.
#[verifier::external_body]
pub(crate) fn to_lowercase(s: &str) -> (r: String)
    ensures
        r@ == lowercase(s@),
{
    s.to_lowercase()
}

/// Calls `str::trim`. Trusted: it takes away the whitespace at both ends of
/// `s`, whitespace being the characters with the Unicode property
/// `White_Space`, and nothing else.
#[verifier::external_body]
pub(crate) fn trim<'a>(s: &'a str) -> (r: &'a str)
    ensures
        r@ == trimmed(s@),
{
    s.trim()
}

/// Whether two string slices hold the same characters.
pub fn same_text(a: &str, b: &str) -> (same: bool)
    ensures
        same == (a@ == b@),
{
    let n: usize = a.unicode_len();
    if b.unicode_len() != n {
        return false;
    }
    let mut i: usize = 0;
    while i < n
        invariant
            n == a@.len(),
            n == b@.len(),
            i <= n,
            forall|j: int| 0 <= j < i ==> a@[j] == b@[j],
        decreases n - i,
    {
        if a.get_char(i) != b.get_char(i) {
            return false;
        }
        i += 1;
    }
    assert(a@ =~= b@);
    true
}

/// Whether `c` is one of the ten ASCII digits.
pub open spec fn is_digit(c: char) -> bool {
    '0' as u32 <= c as u32 <= '9' as u32
}

/// The number that a sequence of ASCII digits denotes in base ten.
pub open spec fn decimal_value(digits: Seq<char>) -> nat
    decreases digits.len(),
{
    if digits.len() == 0 {
        0
    } else {
        decimal_value(digits.drop_last()) * 10 + (digits.last() as u32 - '0' as u32) as nat
    }
}

/// The digits of a decimal numeral: the text itself, or what follows one
/// leading `+`.
pub open spec fn numeral_digits(s: Seq<char>) -> Seq<char> {
    if s.len() > 0 && s[0] == '+' {
        s.subrange(1, s.len() as int)
    } else {
        s
    }
}

/// The value of a decimal numeral that fits in 32 bits: an optional `+`, then
/// one or more ASCII digits and nothing else. Any other text has no value.
pub open spec fn decimal_u32(s: Seq<char>) -> Option<u32> {
    let digits = numeral_digits(s);
    if digits.len() > 0 && (forall|i: int| 0 <= i < digits.len() ==> is_digit(#[trigger] digits[i]))
        && decimal_value(digits) <= u32::MAX {
        Some(decimal_value(digits) as u32)
    } else {
        None
    }
}

/// Calls `str::parse::<u32>`. Trusted: it accepts an optional `+` followed by
/// ASCII digits only, rejects the empty text, a lone sign, any other character
/// and a value above `u32::MAX`, and returns the value otherwise.
#[verifier::external_body]
pub(crate) fn parse_u32(s: &str) -> (r: Option<u32>)
    ensures
        r == decimal_u32(s@),
{
    s.parse::<u32>().ok()
}

/// The number of characters before the first `+` of `s`, or its length where
/// it holds none.
pub open spec fn first_piece_len(s: Seq<char>) -> nat
    decreases s.len(),
{
    if s.len() == 0 || s[0] == '+' {
        0
    } else {
        1 + first_piece_len(s.drop_first())
    }
}

/// The pieces of `s` between its `+` signs, in order. A text without `+` is
/// its own single piece; two adjacent signs enclose an empty piece.
pub open spec fn split_plus(s: Seq<char>) -> Seq<Seq<char>>
    decreases s.len(),
{
    let n: int = first_piece_len(s) as int;
    if n >= s.len() {
        seq![s]
    } else {
        seq![s.take(n)] + split_plus(s.skip(n + 1))
    }
}

/// The pieces put together again, with a `+` between every two of them.
pub open spec fn joined(pieces: Seq<Seq<char>>) -> Seq<char>
    decreases pieces.len(),
{
    if pieces.len() == 0 {
        Seq::empty()
    } else if pieces.len() == 1 {
        pieces[0]
    } else {
        pieces[0] + seq!['+'] + joined(pieces.drop_first())
    }
}

/// The first piece of `s` lies within `s`, holds no `+`, and ends at a `+`
/// or at the end of `s`.
proof fn first_piece_is_cut_at_plus(s: Seq<char>)
    ensures
        first_piece_len(s) <= s.len(),
        forall|j: int| 0 <= j < first_piece_len(s) ==> s[j] != '+',
        first_piece_len(s) < s.len() ==> s[first_piece_len(s) as int] == '+',
    decreases s.len(),
{
    if s.len() > 0 && s[0] != '+' {
        let rest = s.drop_first();
        first_piece_is_cut_at_plus(rest);
        assert forall|j: int| 0 <= j < first_piece_len(s) implies s[j] != '+' by {
            if j > 0 {
                assert(s[j] == rest[j - 1]);
            }
        }
    }
}

/// Splitting cuts a text at its `+` signs and nowhere else: there is at least
/// one piece, no piece holds a `+`, and the pieces joined by `+` are the text.
pub proof fn split_plus_cuts_at_every_plus(s: Seq<char>)
    ensures
        split_plus(s).len() >= 1,
        forall|i: int, j: int|
            0 <= i < split_plus(s).len() && 0 <= j < split_plus(s)[i].len() ==> split_plus(
                s,
            )[i][j] != '+',
        joined(split_plus(s)) == s,
    decreases s.len(),
{
    let n: int = first_piece_len(s) as int;
    first_piece_is_cut_at_plus(s);
    if n < s.len() {
        let rest = s.skip(n + 1);
        let pieces = split_plus(s);
        split_plus_cuts_at_every_plus(rest);
        assert(pieces.drop_first() =~= split_plus(rest));
        assert forall|i: int, j: int|
            0 <= i < pieces.len() && 0 <= j < pieces[i].len() implies pieces[i][j] != '+' by {}
    }
}

/// The text of an optional string slice.
pub open spec fn text_of(text: Option<&str>) -> Option<Seq<char>> {
    match text {
        Some(found) => Some(found@),
        None => None,
    }
}

/// The texts of a sequence of string slices.
pub open spec fn texts(pieces: Seq<&str>) -> Seq<Seq<char>> {
    Seq::new(pieces.len(), |i: int| pieces[i]@)
}

/// Where the first `k` characters of `s` hold no `+` and the next one, if there
/// is one, is a `+`, the first piece of `s` has `k` characters.
proof fn first_piece_ends_at(s: Seq<char>, k: int)
    requires
        0 <= k <= s.len(),
        forall|j: int| 0 <= j < k ==> s[j] != '+',
        k == s.len() || s[k] == '+',
    ensures
        first_piece_len(s) == k,
    decreases k,
{
    if k > 0 {
        let rest = s.drop_first();
        assert forall|j: int| 0 <= j < k - 1 implies rest[j] != '+' by {}
        first_piece_ends_at(rest, k - 1);
    }
}

/// Cuts `s` at every `+`. The pieces are slices of `s`, in order, without the
/// signs. The text is walked character by character, each one decoded from
/// the start: good enough for the short texts of a configuration.
pub fn split_at_plus<'a>(s: &'a str) -> (pieces: Vec<&'a str>)
    ensures
        texts(pieces@) == split_plus(s@),
{
    let n: usize = s.unicode_len();
    let mut pieces: Vec<&'a str> = Vec::new();
    let mut start: usize = 0;
    let mut i: usize = 0;
    proof {
        assert(s@.skip(0) =~= s@);
    }
    while i < n
        invariant
            n == s@.len(),
            start <= i <= n,
            forall|j: int| start <= j < i ==> s@[j] != '+',
            split_plus(s@) == texts(pieces@) + split_plus(s@.skip(start as int)),
        decreases n - i,
    {
        if s.get_char(i) == '+' {
            let piece = s.substring_char(start, i);
            proof {
                let rest = s@.skip(start as int);
                first_piece_ends_at(rest, i - start);
                assert(rest.take(i - start) =~= piece@);
                assert(rest.skip(i - start + 1) =~= s@.skip(i + 1));
            }
            pieces.push(piece);
            start = i + 1;
        }
        i += 1;
    }
    let piece = s.substring_char(start, n);
    proof {
        first_piece_ends_at(s@.skip(start as int), n - start);
    }
    pieces.push(piece);
    pieces
}

} // verus!
