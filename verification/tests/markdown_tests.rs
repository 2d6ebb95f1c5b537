use dialogue_core::markdown::bold;
use dialogue_core::markdown::code_block;
use dialogue_core::markdown::code_block_with_lang;
use dialogue_core::markdown::code_inline;
use dialogue_core::markdown::escape;
use dialogue_core::markdown::escape_code;
use dialogue_core::markdown::escape_link_url;
use dialogue_core::markdown::italic;
use dialogue_core::markdown::link;
use dialogue_core::markdown::strike;
use dialogue_core::markdown::underline;
use dialogue_core::markdown::user_mention;
use dialogue_core::markdown::user_mention_or_link;
use dialogue_core::types::User;

#[test]
fn test_bold() {
    assert_eq!(bold(" foobar "), "* foobar *");
    assert_eq!(bold(" _foobar_ "), "* _foobar_ *");
    assert_eq!(bold("~(`foobar`)~"), "*~(`foobar`)~*");
}

#[test]
fn test_italic() {
    assert_eq!(italic(" foobar "), "_ foobar _");
    assert_eq!(italic("*foobar*"), "_*foobar*_");
    assert_eq!(italic("~(foobar)~"), "_~(foobar)~_");
}

#[test]
fn test_underline() {
    assert_eq!(underline(" foobar "), "__ foobar __");
    assert_eq!(underline("*foobar*"), "__*foobar*__");
    assert_eq!(underline("~(foobar)~"), "__~(foobar)~__");
}

#[test]
fn test_strike() {
    assert_eq!(strike(" foobar "), "~ foobar ~");
    assert_eq!(strike("*foobar*"), "~*foobar*~");
    assert_eq!(strike("*(foobar)*"), "~*(foobar)*~");
}

#[test]
fn test_italic_with_underline() {
    assert_eq!(underline(italic("foobar").as_str()), r"___foobar_\r__");
    assert_eq!(italic(underline("foobar").as_str()), r"___foobar_\r__");
}

#[test]
fn test_link() {
    assert_eq!(
        link("https://www.google.com/(`foobar`)", "google"),
        r"[google](https://www.google.com/(\`foobar\`\))",
    );
}

#[test]
fn test_user_mention() {
    assert_eq!(user_mention(123_456_789, "pwner666"), "[pwner666](tg://user?id=123456789)");
}

#[test]
fn test_code_block() {
    assert_eq!(
        code_block("pre-'formatted'\nfixed-width \\code `block`"),
        "```\npre-'formatted'\nfixed-width \\\\code \\`block\\`\n```"
    );
}

#[test]
fn test_code_block_with_lang() {
    assert_eq!(
        code_block_with_lang("pre-'formatted'\nfixed-width \\code `block`", "[python]"),
        "```\\[python\\]\npre-'formatted'\nfixed-width \\\\code \\`block\\`\n```"
    );
}

#[test]
fn test_code_inline() {
    assert_eq!(code_inline(" let x = (1, 2, 3); "), "` let x = (1, 2, 3); `");
    assert_eq!(code_inline("<html>foo</html>"), "`<html>foo</html>`");
    assert_eq!(code_inline(r" `(code inside code \ )` "), r"` \`(code inside code \\ )\` `");
}

#[test]
fn test_escape() {
    assert_eq!(escape("* foobar *"), r"\* foobar \*");
    assert_eq!(
        escape(r"_ * [ ] ( ) ~ \ ` > # + - = | { } . !"),
        r"\_ \* \[ \] \( \) \~ \ \` \> \# \+ \- \= \| \{ \} \. \!",
    );
}

#[test]
fn test_escape_link_url() {
    assert_eq!(
        escape_link_url(r"https://en.wikipedia.org/wiki/Development+(Software)"),
        r"https://en.wikipedia.org/wiki/Development+(Software\)"
    );
    assert_eq!(
        escape_link_url(r"https://en.wikipedia.org/wiki/`"),
        r"https://en.wikipedia.org/wiki/\`"
    );
    assert_eq!(escape_link_url(r"_*[]()~`#+-=|{}.!\"), r"_*[](\)~\`#+-=|{}.!\");
}

#[test]
fn test_escape_code() {
    assert_eq!(escape_code(r"` \code inside the code\ `"), r"\` \\code inside the code\\ \`");
    assert_eq!(escape_code(r"_*[]()~`#+-=|{}.!\"), r"_*[]()~\`#+-=|{}.!\\");
}

#[test]
fn user_mention_link() {
    let user_with_username = User {
        id: 0,
        is_bot: false,
        first_name: "".to_string(),
        last_name: None,
        username: Some("abcd".to_string()),
        language_code: None,
    };
    assert_eq!(user_mention_or_link(&user_with_username), "@abcd");
    let user_without_username = User {
        id: 123_456_789,
        is_bot: false,
        first_name: "Name".to_string(),
        last_name: None,
        username: None,
        language_code: None,
    };
    assert_eq!(
        user_mention_or_link(&user_without_username),
        r#"[Name](tg://user/?id=123456789)"#
    )
}

#[test]
fn negative_id_mention_renders_minus_sign() {
    assert_eq!(user_mention(-42, "ghost"), "[ghost](tg://user?id=-42)");
    assert_eq!(user_mention(i32::MIN, "edge"), "[edge](tg://user?id=-2147483648)");
}

#[test]
fn full_name_joins_first_and_last() {
    let user = User {
        id: 7,
        is_bot: false,
        first_name: "Ada".to_string(),
        last_name: Some("Lovelace".to_string()),
        username: None,
        language_code: None,
    };
    assert_eq!(user.full_name(), "Ada Lovelace");
    assert_eq!(user.url(), "tg://user/?id=7");
    assert_eq!(user.mention(), None);
}
