//! Name encoding for request URLs: a slug form used in web links, and a
//! percent-encoded form used in API query strings.

use vstd::prelude::*;
use crate::digits::{decimal_digits, u64_to_decimal};

verus! {

/// Characters that the slug form replaces by their decimal code point.
pub open spec fn is_slug_symbol(c: char) -> bool {
    c == '\t' || c == ' ' || c == '!' || c == '"' || c == '#' || c == '$' || c == '%' || c == '&'
        || c == '\'' || c == '(' || c == ')' || c == '*' || c == '-' || c == '/' || c == '<'
        || c == '=' || c == '>' || c == '?' || c == '@' || c == '[' || c == '\\' || c == ']'
        || c == '^' || c == '_' || c == '`' || c == '{' || c == '|' || c == '}' || c == ','
        || c == '.' || c == ':' || c == '+'
}

pub open spec fn char_is_ascii(c: char) -> bool {
    (c as u32) < 128
}

/// Control characters of the ASCII range.
pub open spec fn char_is_ascii_control(c: char) -> bool {
    (c as u32) < 32 || (c as u32) == 127
}

/// What one character contributes to the slug form.
pub open spec fn slug_char(c: char) -> Seq<char> {
    if is_slug_symbol(c) || !char_is_ascii(c) {
        seq!['-'] + decimal_digits(c as u32 as nat) + seq!['-']
    } else {
        seq![c]
    }
}

/// The slug form of a whole string.
pub open spec fn slug_seq(s: Seq<char>) -> Seq<char>
    decreases s.len(),
{
    if s.len() == 0 {
        Seq::empty()
    } else {
        slug_seq(s.drop_last()) + slug_char(s.last())
    }
}

/// The slug transformation runs only when some character is a slug symbol or
/// is ASCII; otherwise the input is kept as it is.
pub open spec fn spec_slugify(s: Seq<char>) -> Seq<char> {
    if exists|j: int| 0 <= j < s.len() && (is_slug_symbol(#[trigger] s[j]) || char_is_ascii(s[j])) {
        slug_seq(s)
    } else {
        s
    }
}

/// Percent-encoding as `urlencoding::encode` performs it: every byte of the
/// UTF-8 form outside alphanumerics and `-`, `_`, `.`, `~` becomes `%XX`.
/// The exact character sequence is not spelled out here; it is a fixed
/// function of the input alone.
pub uninterp spec fn percent_encoded(s: Seq<char>) -> Seq<char>;

/// Relies on `urlencoding::encode`: percent-encodes every byte except
/// alphanumerics and `-`, `_`, `.`, `~`; the result depends on the input
/// characters alone.
#[verifier::external_body]
fn percent_encode(s: &str) -> (r: String)
    ensures
        r@ == percent_encoded(s@),
{
    urlencoding::encode(s).into_owned()
}

/// Relies on `String::push`: appends one character to the string.
#[verifier::external_body]
fn push_char(s: &mut String, c: char)
    ensures
        final(s)@ == old(s)@ + seq![c],
{
    s.push(c);
}

fn slug_symbol(c: char) -> (r: bool)
    ensures
        r == is_slug_symbol(c),
{
    c == '\t' || c == ' ' || c == '!' || c == '"' || c == '#' || c == '$' || c == '%' || c == '&'
        || c == '\'' || c == '(' || c == ')' || c == '*' || c == '-' || c == '/' || c == '<'
        || c == '=' || c == '>' || c == '?' || c == '@' || c == '[' || c == '\\' || c == ']'
        || c == '^' || c == '`' || c == '_' || c == '{' || c == '|' || c == '}' || c == ','
        || c == '.' || c == ':' || c == '+'
}

/// Replaces slug symbols and non-ASCII characters by `-<code point>-`, as
/// player and map names are written in site links.  A name in which no
/// character is a slug symbol or ASCII is kept unchanged.
pub fn slugify2(nickname: &str) -> (r: String)
    ensures
        r@ == spec_slugify(nickname@),
{
    let n = nickname.unicode_len();
    let mut found = false;
    let mut i: usize = 0;
    while i < n
        invariant
            n == nickname@.len(),
            0 <= i <= n,
            found == exists|j: int|
                0 <= j < i && (is_slug_symbol(#[trigger] nickname@[j]) || char_is_ascii(
                    nickname@[j],
                )),
        decreases n - i,
    {
        let c = nickname.get_char(i);
        if slug_symbol(c) || (c as u32) < 128 {
            found = true;
        }
        i += 1;
    }
    if !found {
        return nickname.to_owned();
    }
    let mut out = String::new();
    let mut i: usize = 0;
    while i < n
        invariant
            n == nickname@.len(),
            0 <= i <= n,
            out@ == slug_seq(nickname@.take(i as int)),
        decreases n - i,
    {
        let c = nickname.get_char(i);
        proof {
            reveal_strlit("-");
            assert(nickname@.take(i + 1).drop_last() =~= nickname@.take(i as int));
            assert(nickname@.take(i + 1).last() == nickname@[i as int]);
        }
        if slug_symbol(c) || !((c as u32) < 128) {
            out.append("-");
            let digits = u64_to_decimal(c as u64);
            out.append(digits.as_str());
            out.append("-");
            proof {
                assert(c as u64 as nat == c as u32 as nat);
                assert(out@ =~= slug_seq(nickname@.take(i as int)) + slug_char(c));
            }
        } else {
            push_char(&mut out, c);
            proof {
                assert(out@ =~= slug_seq(nickname@.take(i as int)) + slug_char(c));
            }
        }
        i += 1;
    }
    proof {
        assert(nickname@.take(n as int) =~= nickname@);
    }
    out
}

/// The encoded form of a name in a query string: names made only of
/// printable ASCII pass through; all others are percent-encoded.
pub open spec fn spec_encode(s: Seq<char>) -> Seq<char> {
    if forall|j: int|
        0 <= j < s.len() ==> char_is_ascii(#[trigger] s[j]) && !char_is_ascii_control(s[j]) {
        s
    } else {
        percent_encoded(s)
    }
}

/// Percent-encodes a name for use in a query string, leaving plain
/// printable-ASCII names untouched.
pub fn encode(nickname: &str) -> (r: String)
    ensures
        r@ == spec_encode(nickname@),
{
    let n = nickname.unicode_len();
    let mut plain = true;
    let mut i: usize = 0;
    while i < n
        invariant
            n == nickname@.len(),
            0 <= i <= n,
            plain == forall|j: int|
                0 <= j < i ==> char_is_ascii(#[trigger] nickname@[j]) && !char_is_ascii_control(
                    nickname@[j],
                ),
        decreases n - i,
    {
        let c = nickname.get_char(i);
        let code = c as u32;
        if !(code < 128) || code < 32 || code == 127 {
            plain = false;
        }
        i += 1;
    }
    if plain {
        nickname.to_owned()
    } else {
        percent_encode(nickname)
    }
}

} // verus!
