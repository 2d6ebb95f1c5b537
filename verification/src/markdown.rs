//! Helpers for composing messages in the Markdown style: font styles, links,
//! code blocks, and the escaping rules each context needs.
//!
//! Every function states the exact character sequence it returns.
use vstd::prelude::*;

use crate::types::User;

verus! {

broadcast use vstd::string::group_string_axioms;

/// Characters that must be escaped in ordinary Markdown text.
pub open spec fn md_special(c: char) -> bool {
    ||| c == '_'
    ||| c == '*'
    ||| c == '['
    ||| c == ']'
    ||| c == '('
    ||| c == ')'
    ||| c == '~'
    ||| c == '`'
    ||| c == '>'
    ||| c == '#'
    ||| c == '+'
    ||| c == '-'
    ||| c == '='
    ||| c == '|'
    ||| c == '{'
    ||| c == '}'
    ||| c == '.'
    ||| c == '!'
}

/// One character of ordinary text, escaped.
pub open spec fn escape_char(c: char) -> Seq<char> {
    if md_special(c) {
        seq!['\\', c]
    } else {
        seq![c]
    }
}

/// A whole text, escaped character by character.
pub open spec fn escaped(s: Seq<char>) -> Seq<char>
    decreases s.len(),
{
    if s.len() == 0 {
        Seq::empty()
    } else {
        escape_char(s[0]) + escaped(s.drop_first())
    }
}

/// One character of a link URL, escaped: only backticks and closing
/// parentheses need a backslash there.
pub open spec fn link_escape_char(c: char) -> Seq<char> {
    if c == '`' || c == ')' {
        seq!['\\', c]
    } else {
        seq![c]
    }
}

/// A whole link URL, escaped character by character.
pub open spec fn link_escaped(s: Seq<char>) -> Seq<char>
    decreases s.len(),
{
    if s.len() == 0 {
        Seq::empty()
    } else {
        link_escape_char(s[0]) + link_escaped(s.drop_first())
    }
}

/// One character of code, escaped: only backslashes and backticks need a
/// backslash there.
pub open spec fn code_escape_char(c: char) -> Seq<char> {
    if c == '\\' || c == '`' {
        seq!['\\', c]
    } else {
        seq![c]
    }
}

/// A whole code fragment, escaped character by character.
pub open spec fn code_escaped(s: Seq<char>) -> Seq<char>
    decreases s.len(),
{
    if s.len() == 0 {
        Seq::empty()
    } else {
        code_escape_char(s[0]) + code_escaped(s.drop_first())
    }
}

proof fn lemma_escaped_push(t: Seq<char>, c: char)
    ensures
        escaped(t.push(c)) == escaped(t) + escape_char(c),
    decreases t.len(),
{
    if t.len() == 0 {
        assert(t.push(c)[0] == c);
        assert(t.push(c).drop_first() =~= Seq::<char>::empty());
        assert(escaped(Seq::<char>::empty()) == Seq::<char>::empty());
        assert(escaped(t.push(c)) =~= escaped(t) + escape_char(c));
    } else {
        assert(t.push(c)[0] == t[0]);
        assert(t.push(c).drop_first() =~= t.drop_first().push(c));
        lemma_escaped_push(t.drop_first(), c);
        assert(escaped(t.push(c)) == escape_char(t[0]) + escaped(t.drop_first().push(c)));
        assert(escaped(t.push(c)) =~= escaped(t) + escape_char(c));
    }
}

proof fn lemma_link_escaped_push(t: Seq<char>, c: char)
    ensures
        link_escaped(t.push(c)) == link_escaped(t) + link_escape_char(c),
    decreases t.len(),
{
    if t.len() == 0 {
        assert(t.push(c)[0] == c);
        assert(t.push(c).drop_first() =~= Seq::<char>::empty());
        assert(link_escaped(Seq::<char>::empty()) == Seq::<char>::empty());
        assert(link_escaped(t.push(c)) =~= link_escaped(t) + link_escape_char(c));
    } else {
        assert(t.push(c)[0] == t[0]);
        assert(t.push(c).drop_first() =~= t.drop_first().push(c));
        lemma_link_escaped_push(t.drop_first(), c);
        assert(link_escaped(t.push(c)) == link_escape_char(t[0]) + link_escaped(
            t.drop_first().push(c),
        ));
        assert(link_escaped(t.push(c)) =~= link_escaped(t) + link_escape_char(c));
    }
}

proof fn lemma_code_escaped_push(t: Seq<char>, c: char)
    ensures
        code_escaped(t.push(c)) == code_escaped(t) + code_escape_char(c),
    decreases t.len(),
{
    if t.len() == 0 {
        assert(t.push(c)[0] == c);
        assert(t.push(c).drop_first() =~= Seq::<char>::empty());
        assert(code_escaped(Seq::<char>::empty()) == Seq::<char>::empty());
        assert(code_escaped(t.push(c)) =~= code_escaped(t) + code_escape_char(c));
    } else {
        assert(t.push(c)[0] == t[0]);
        assert(t.push(c).drop_first() =~= t.drop_first().push(c));
        lemma_code_escaped_push(t.drop_first(), c);
        assert(code_escaped(t.push(c)) == code_escape_char(t[0]) + code_escaped(
            t.drop_first().push(c),
        ));
        assert(code_escaped(t.push(c)) =~= code_escaped(t) + code_escape_char(c));
    }
}

fn is_md_special(c: char) -> (r: bool)
    ensures
        r == md_special(c),
{
    c == '_' || c == '*' || c == '[' || c == ']' || c == '(' || c == ')' || c == '~' || c == '`'
        || c == '>' || c == '#' || c == '+' || c == '-' || c == '=' || c == '|' || c == '{'
        || c == '}' || c == '.' || c == '!'
}

/// Escapes the string so that it is shown as plain text within a
/// Markdown-styled message.
pub fn escape(s: &str) -> (r: String)
    ensures
        r@ == escaped(s@),
{
    let n = s.unicode_len();
    let mut r = String::new();
    let mut i: usize = 0;
    while i < n
        invariant
            i <= n,
            n == s@.len(),
            r@ == escaped(s@.subrange(0, i as int)),
        decreases n - i,
    {
        let c = s.get_char(i);
        if is_md_special(c) {
            r.append("\\");
            proof {
                reveal_strlit("\\");
                assert("\\"@ =~= seq!['\\']);
            }
        }
        let piece = s.substring_char(i, i + 1);
        r.append(piece);
        proof {
            assert(piece@ =~= seq![s@[i as int]]);
            lemma_escaped_push(s@.subrange(0, i as int), s@[i as int]);
            assert(s@.subrange(0, i as int).push(s@[i as int]) =~= s@.subrange(0, i as int + 1));
            assert(r@ =~= escaped(s@.subrange(0, i as int + 1)));
        }
        i = i + 1;
    }
    proof {
        assert(s@.subrange(0, n as int) =~= s@);
    }
    r
}

/// Escapes the characters that are special inside an inline link URL: the
/// backtick and the closing parenthesis.
pub fn escape_link_url(s: &str) -> (r: String)
    ensures
        r@ == link_escaped(s@),
{
    let n = s.unicode_len();
    let mut r = String::new();
    let mut i: usize = 0;
    while i < n
        invariant
            i <= n,
            n == s@.len(),
            r@ == link_escaped(s@.subrange(0, i as int)),
        decreases n - i,
    {
        let c = s.get_char(i);
        if c == '`' || c == ')' {
            r.append("\\");
            proof {
                reveal_strlit("\\");
                assert("\\"@ =~= seq!['\\']);
            }
        }
        let piece = s.substring_char(i, i + 1);
        r.append(piece);
        proof {
            assert(piece@ =~= seq![s@[i as int]]);
            lemma_link_escaped_push(s@.subrange(0, i as int), s@[i as int]);
            assert(s@.subrange(0, i as int).push(s@[i as int]) =~= s@.subrange(0, i as int + 1));
            assert(r@ =~= link_escaped(s@.subrange(0, i as int + 1)));
        }
        i = i + 1;
    }
    proof {
        assert(s@.subrange(0, n as int) =~= s@);
    }
    r
}

/// Escapes the characters that are special inside a code block or inline
/// code: the backslash and the backtick.
pub fn escape_code(s: &str) -> (r: String)
    ensures
        r@ == code_escaped(s@),
{
    let n = s.unicode_len();
    let mut r = String::new();
    let mut i: usize = 0;
    while i < n
        invariant
            i <= n,
            n == s@.len(),
            r@ == code_escaped(s@.subrange(0, i as int)),
        decreases n - i,
    {
        let c = s.get_char(i);
        if c == '\\' || c == '`' {
            r.append("\\");
            proof {
                reveal_strlit("\\");
                assert("\\"@ =~= seq!['\\']);
            }
        }
        let piece = s.substring_char(i, i + 1);
        r.append(piece);
        proof {
            assert(piece@ =~= seq![s@[i as int]]);
            lemma_code_escaped_push(s@.subrange(0, i as int), s@[i as int]);
            assert(s@.subrange(0, i as int).push(s@[i as int]) =~= s@.subrange(0, i as int + 1));
            assert(r@ =~= code_escaped(s@.subrange(0, i as int + 1)));
        }
        i = i + 1;
    }
    proof {
        assert(s@.subrange(0, n as int) =~= s@);
    }
    r
}

/// Applies the bold font style to the string.
///
/// The string is not escaped, since it can carry nested markup.
pub fn bold(s: &str) -> (r: String)
    ensures
        r@ == seq!['*'] + s@ + seq!['*'],
{
    let mut r = String::from_str("*");
    r.append(s);
    r.append("*");
    proof {
        reveal_strlit("*");
        assert(r@ =~= seq!['*'] + s@ + seq!['*']);
    }
    r
}

/// Applies the strikethrough font style to the string.
///
/// The string is not escaped, since it can carry nested markup.
pub fn strike(s: &str) -> (r: String)
    ensures
        r@ == seq!['~'] + s@ + seq!['~'],
{
    let mut r = String::from_str("~");
    r.append(s);
    r.append("~");
    proof {
        reveal_strlit("~");
        assert(r@ =~= seq!['~'] + s@ + seq!['~']);
    }
    r
}

/// True when the string both begins and ends with a double underscore, with
/// the two occurrences possibly overlapping.
pub open spec fn wrapped_in_double_underscore(s: Seq<char>) -> bool {
    s.len() >= 2 && s[0] == '_' && s[1] == '_' && s[s.len() - 2] == '_' && s[s.len() - 1] == '_'
}

/// Applies the italic font style to the string.
///
/// Safe to combine with [`underline`]: when the string already begins and
/// ends with a double underscore, its last underscore is set off with a
/// backslash-r marker so that the styles do not merge.
///
/// The string is not escaped, since it can carry nested markup.
pub fn italic(s: &str) -> (r: String)
    ensures
        r@ == if wrapped_in_double_underscore(s@) {
            seq!['_'] + s@.subrange(0, s@.len() - 1) + seq!['\\', 'r', '_', '_']
        } else {
            seq!['_'] + s@ + seq!['_']
        },
{
    let n = s.unicode_len();
    if n >= 2 && s.get_char(0) == '_' && s.get_char(1) == '_' && s.get_char(n - 2) == '_'
        && s.get_char(n - 1) == '_' {
        let mut r = String::from_str("_");
        r.append(s.substring_char(0, n - 1));
        r.append("\\r__");
        proof {
            reveal_strlit("_");
            reveal_strlit("\\r__");
            assert("\\r__"@ =~= seq!['\\', 'r', '_', '_']);
            assert(r@ =~= seq!['_'] + s@.subrange(0, s@.len() - 1) + seq!['\\', 'r', '_', '_']);
        }
        r
    } else {
        let mut r = String::from_str("_");
        r.append(s);
        r.append("_");
        proof {
            reveal_strlit("_");
            assert(r@ =~= seq!['_'] + s@ + seq!['_']);
        }
        r
    }
}

/// True when the string both begins and ends with an underscore, possibly
/// the same one.
pub open spec fn wrapped_in_underscore(s: Seq<char>) -> bool {
    s.len() >= 1 && s[0] == '_' && s[s.len() - 1] == '_'
}

/// Applies the underline font style to the string.
///
/// Safe to combine with [`italic`]: a double underscore is always greedily
/// read from left to right, so when the string already begins and ends with
/// an underscore the closing pair is set off with a backslash-r marker.
///
/// The string is not escaped, since it can carry nested markup.
pub fn underline(s: &str) -> (r: String)
    ensures
        r@ == if wrapped_in_underscore(s@) {
            seq!['_', '_'] + s@ + seq!['\\', 'r', '_', '_']
        } else {
            seq!['_', '_'] + s@ + seq!['_', '_']
        },
{
    let n = s.unicode_len();
    if n >= 1 && s.get_char(0) == '_' && s.get_char(n - 1) == '_' {
        let mut r = String::from_str("__");
        r.append(s);
        r.append("\\r__");
        proof {
            reveal_strlit("__");
            reveal_strlit("\\r__");
            assert("__"@ =~= seq!['_', '_']);
            assert("\\r__"@ =~= seq!['\\', 'r', '_', '_']);
            assert(r@ =~= seq!['_', '_'] + s@ + seq!['\\', 'r', '_', '_']);
        }
        r
    } else {
        let mut r = String::from_str("__");
        r.append(s);
        r.append("__");
        proof {
            reveal_strlit("__");
            assert("__"@ =~= seq!['_', '_']);
            assert(r@ =~= seq!['_', '_'] + s@ + seq!['_', '_']);
        }
        r
    }
}

/// The exact shape of an inline link: the anchor in brackets, then the
/// escaped URL in parentheses.
pub open spec fn link_spec(url: Seq<char>, text: Seq<char>) -> Seq<char> {
    seq!['['] + text + seq![']', '('] + link_escaped(url) + seq![')']
}

/// Builds an inline link with an anchor.
///
/// Escapes the backtick and closing-parenthesis characters inside the URL.
pub fn link(url: &str, text: &str) -> (r: String)
    ensures
        r@ == link_spec(url@, text@),
{
    let mut r = String::from_str("[");
    r.append(text);
    r.append("](");
    let escaped_url = escape_link_url(url);
    r.append(escaped_url.as_str());
    r.append(")");
    proof {
        reveal_strlit("[");
        reveal_strlit("](");
        reveal_strlit(")");
        assert("["@ =~= seq!['[']);
        assert("]("@ =~= seq![']', '(']);
        assert(")"@ =~= seq![')']);
        assert(r@ =~= link_spec(url@, text@));
    }
    r
}

/// Formats the string as a fenced code block.
///
/// Escapes the backtick and backslash characters inside the block.
pub fn code_block(code: &str) -> (r: String)
    ensures
        r@ == seq!['`', '`', '`', '\n'] + code_escaped(code@) + seq!['\n', '`', '`', '`'],
{
    let mut r = String::from_str("```\n");
    let escaped_code = escape_code(code);
    r.append(escaped_code.as_str());
    r.append("\n```");
    proof {
        reveal_strlit("```\n");
        reveal_strlit("\n```");
        assert("```\n"@ =~= seq!['`', '`', '`', '\n']);
        assert("\n```"@ =~= seq!['\n', '`', '`', '`']);
        assert(r@ =~= seq!['`', '`', '`', '\n'] + code_escaped(code@) + seq!['\n', '`', '`', '`']);
    }
    r
}

/// Formats the string as a fenced code block tagged with a language.
///
/// Escapes the backtick and backslash characters inside the block, and the
/// ordinary Markdown specials inside the language tag.
pub fn code_block_with_lang(code: &str, lang: &str) -> (r: String)
    ensures
        r@ == seq!['`', '`', '`'] + escaped(lang@) + seq!['\n'] + code_escaped(code@) + seq![
            '\n',
            '`',
            '`',
            '`',
        ],
{
    let mut r = String::from_str("```");
    let escaped_lang = escape(lang);
    r.append(escaped_lang.as_str());
    r.append("\n");
    let escaped_code = escape_code(code);
    r.append(escaped_code.as_str());
    r.append("\n```");
    proof {
        reveal_strlit("```");
        reveal_strlit("\n");
        reveal_strlit("\n```");
        assert("```"@ =~= seq!['`', '`', '`']);
        assert("\n"@ =~= seq!['\n']);
        assert("\n```"@ =~= seq!['\n', '`', '`', '`']);
        assert(r@ =~= seq!['`', '`', '`'] + escaped(lang@) + seq!['\n'] + code_escaped(code@)
            + seq!['\n', '`', '`', '`']);
    }
    r
}

/// Formats the string as inline code.
///
/// Escapes the backtick and backslash characters inside it.
pub fn code_inline(s: &str) -> (r: String)
    ensures
        r@ == seq!['`'] + code_escaped(s@) + seq!['`'],
{
    let mut r = String::from_str("`");
    let escaped_s = escape_code(s);
    r.append(escaped_s.as_str());
    r.append("`");
    proof {
        reveal_strlit("`");
        assert("`"@ =~= seq!['`']);
        assert(r@ =~= seq!['`'] + code_escaped(s@) + seq!['`']);
    }
    r
}

/// The decimal digits of a natural number, most significant first.
pub open spec fn dec_digits(n: nat) -> Seq<char>
    decreases n,
{
    if n < 10 {
        seq![digit_char(n)]
    } else {
        dec_digits(n / 10).push(digit_char(n % 10))
    }
}

/// The character for one decimal digit.
pub open spec fn digit_char(d: nat) -> char {
    if d == 0 {
        '0'
    } else if d == 1 {
        '1'
    } else if d == 2 {
        '2'
    } else if d == 3 {
        '3'
    } else if d == 4 {
        '4'
    } else if d == 5 {
        '5'
    } else if d == 6 {
        '6'
    } else if d == 7 {
        '7'
    } else if d == 8 {
        '8'
    } else {
        '9'
    }
}

/// The decimal rendering of an integer: a minus sign for negative values,
/// then the digits.
pub open spec fn dec_int(n: int) -> Seq<char> {
    if n < 0 {
        seq!['-'] + dec_digits((-n) as nat)
    } else {
        dec_digits(n as nat)
    }
}

fn digit_str(d: u64) -> (r: &'static str)
    requires
        d < 10,
    ensures
        r@ == seq![digit_char(d as nat)],
{
    if d == 0 {
        proof {
            reveal_strlit("0");
            assert("0"@ =~= seq!['0']);
        }
        "0"
    } else if d == 1 {
        proof {
            reveal_strlit("1");
            assert("1"@ =~= seq!['1']);
        }
        "1"
    } else if d == 2 {
        proof {
            reveal_strlit("2");
            assert("2"@ =~= seq!['2']);
        }
        "2"
    } else if d == 3 {
        proof {
            reveal_strlit("3");
            assert("3"@ =~= seq!['3']);
        }
        "3"
    } else if d == 4 {
        proof {
            reveal_strlit("4");
            assert("4"@ =~= seq!['4']);
        }
        "4"
    } else if d == 5 {
        proof {
            reveal_strlit("5");
            assert("5"@ =~= seq!['5']);
        }
        "5"
    } else if d == 6 {
        proof {
            reveal_strlit("6");
            assert("6"@ =~= seq!['6']);
        }
        "6"
    } else if d == 7 {
        proof {
            reveal_strlit("7");
            assert("7"@ =~= seq!['7']);
        }
        "7"
    } else if d == 8 {
        proof {
            reveal_strlit("8");
            assert("8"@ =~= seq!['8']);
        }
        "8"
    } else {
        proof {
            reveal_strlit("9");
            assert("9"@ =~= seq!['9']);
        }
        "9"
    }
}

fn dec_u64(n: u64) -> (r: String)
    ensures
        r@ == dec_digits(n as nat),
    decreases n,
{
    if n < 10 {
        String::from_str(digit_str(n))
    } else {
        let mut r = dec_u64(n / 10);
        r.append(digit_str(n % 10));
        proof {
            assert(r@ =~= dec_digits(n as nat));
        }
        r
    }
}

/// Renders an integer in decimal notation.
pub fn dec_i64(n: i64) -> (r: String)
    ensures
        r@ == dec_int(n as int),
{
    if n < 0 {
        let magnitude: u64 = (-(n as i128)) as u64;
        let mut r = String::from_str("-");
        let digits = dec_u64(magnitude);
        r.append(digits.as_str());
        proof {
            reveal_strlit("-");
            assert("-"@ =~= seq!['-']);
            assert(r@ =~= dec_int(n as int));
        }
        r
    } else {
        dec_u64(n as u64)
    }
}

/// The URL of an inline user mention, before link escaping.
pub open spec fn mention_url(id: int) -> Seq<char> {
    seq!['t', 'g', ':', '/', '/', 'u', 's', 'e', 'r', '?', 'i', 'd', '='] + dec_int(id)
}

/// Builds an inline user mention link with an anchor.
pub fn user_mention(user_id: i32, text: &str) -> (r: String)
    ensures
        r@ == link_spec(mention_url(user_id as int), text@),
{
    let mut url = String::from_str("tg://user?id=");
    let digits = dec_i64(user_id as i64);
    url.append(digits.as_str());
    proof {
        reveal_strlit("tg://user?id=");
        assert("tg://user?id="@ =~= seq![
            't',
            'g',
            ':',
            '/',
            '/',
            'u',
            's',
            'e',
            'r',
            '?',
            'i',
            'd',
            '=',
        ]);
        assert(url@ =~= mention_url(user_id as int));
    }
    link(url.as_str(), text)
}

/// Builds an inline mention of the user: by username when one is set, else
/// an inline link to the user's URL with the full name as the anchor.
pub fn user_mention_or_link(user: &User) -> (r: String)
    ensures
        r@ == match user.spec_mention() {
            Some(m) => m,
            None => link_spec(user.spec_url(), user.spec_full_name()),
        },
{
    match user.mention() {
        Some(mention) => mention,
        None => {
            let url = user.url();
            let name = user.full_name();
            link(url.as_str(), name.as_str())
        },
    }
}

} // verus!
