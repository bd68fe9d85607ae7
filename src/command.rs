use vstd::prelude::*;
use vstd::string::*;

verus! {

/// The commands the bot answers to.
#[derive(Debug, Clone, Copy, PartialEq, Eq)]
pub enum BotCommand {
    Start,
    Help,
    Reset,
    Chat,
}

/// Whether a character has the Unicode `White_Space` property.
pub uninterp spec fn is_white_space(c: char) -> bool;

/// Drops leading white space.
pub open spec fn trim_start_spec(s: Seq<char>) -> Seq<char>
    decreases s.len(),
{
    if s.len() > 0 && is_white_space(s[0]) {
        trim_start_spec(s.drop_first())
    } else {
        s
    }
}

/// Drops trailing white space.
pub open spec fn trim_end_spec(s: Seq<char>) -> Seq<char>
    decreases s.len(),
{
    if s.len() > 0 && is_white_space(s.last()) {
        trim_end_spec(s.drop_last())
    } else {
        s
    }
}

/// A text without its leading and trailing white space.
pub open spec fn trimmed(s: Seq<char>) -> Seq<char> {
    trim_end_spec(trim_start_spec(s))
}

/// Relies on `char::is_whitespace`: true exactly for the `White_Space` characters.
#[verifier::external_body]
fn char_is_whitespace(c: char) -> (r: bool)
    ensures
        r == is_white_space(c),
{
    c.is_whitespace()
}

/// Relies on `str::trim`: the slice without leading and trailing `White_Space` characters.
#[verifier::external_body]
pub(crate) fn trim_str(s: &str) -> (r: &str)
    ensures
        r@ == trimmed(s@),
{
    s.trim()
}

/// What follows the first white-space character, if there is one.
pub open spec fn after_first_white_space(s: Seq<char>) -> Option<Seq<char>>
    decreases s.len(),
{
    if s.len() == 0 {
        None
    } else if is_white_space(s[0]) {
        Some(s.drop_first())
    } else {
        after_first_white_space(s.drop_first())
    }
}

/// The prompt carried by a chat command: the text after the first white space, trimmed;
/// none when there is no white space or nothing but white space follows it.
pub open spec fn prompt_of(text: Seq<char>) -> Option<Seq<char>> {
    match after_first_white_space(text) {
        Some(rest) => if trimmed(rest).len() > 0 {
            Some(trimmed(rest))
        } else {
            None
        },
        None => None,
    }
}

/// Extracts the prompt of a chat command text (`/chat <prompt>`).
pub fn extract_prompt(text: &str) -> (r: Option<String>)
    ensures
        match prompt_of(text@) {
            Some(p) => r is Some && r.unwrap()@ == p,
            None => r is None,
        },
{
    let n = text.unicode_len();
    let mut i: usize = 0;
    assert(text@.subrange(0, n as int) =~= text@);
    while i < n
        invariant
            0 <= i <= n,
            n == text@.len(),
            after_first_white_space(text@) == after_first_white_space(text@.subrange(i as int, n as int)),
        decreases n - i,
    {
        let c = text.get_char(i);
        let ghost tail = text@.subrange(i as int, n as int);
        assert(tail.drop_first() =~= text@.subrange(i + 1, n as int));
        if char_is_whitespace(c) {
            let rest = text.substring_char(i + 1, n);
            let prompt = trim_str(rest);
            if prompt.unicode_len() == 0 {
                return None;
            }
            return Some(String::from_str(prompt));
        }
        i = i + 1;
    }
    assert(text@.subrange(n as int, n as int).len() == 0);
    None
}

} // verus!
