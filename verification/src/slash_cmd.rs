//! Commands given in pull request comments.

use crate::text::{
    ascii_lowercase, chars_of, is_white_space, same_chars, to_ascii_lowercase, white,
};
use vstd::prelude::*;

verus! {

/// What a comment may ask for.
#[derive(Debug, Clone, Copy, PartialEq, Eq, Structural)]
pub enum SlashCommand {
    /// Create the preview of the pull request, or deploy it again.
    Preview,
    /// Delete the preview of the pull request.
    Delete,
}

/// Where the first token of a text begins: after the white space before it,
/// line breaks not among it. A text that ends first has no token.
pub open spec fn token_start(s: Seq<char>) -> int
    decreases s.len(),
{
    if s.len() > 0 && is_white_space(s[0]) && s[0] != '\n' {
        1 + token_start(s.drop_first())
    } else {
        0
    }
}

/// How long the run of characters at the front of `s` is that are no white
/// space.
pub open spec fn token_len(s: Seq<char>) -> int
    decreases s.len(),
{
    if s.len() > 0 && !is_white_space(s[0]) {
        1 + token_len(s.drop_first())
    } else {
        0
    }
}

/// The first token of the first line of a text: the characters from the
/// first that is no white space up to the next white space. Empty where the
/// first line holds nothing but white space.
pub open spec fn first_token(s: Seq<char>) -> Seq<char> {
    let rest = s.skip(token_start(s));
    rest.take(token_len(rest))
}

/// The command that a comment gives: `/preview` or `/delete`, in capitals or
/// not, as the first token of its first line. Any other comment gives none.
pub open spec fn command_in(text: Seq<char>) -> Option<SlashCommand> {
    let token = ascii_lowercase(first_token(text));
    if token == "/preview"@ {
        Some(SlashCommand::Preview)
    } else if token == "/delete"@ {
        Some(SlashCommand::Delete)
    } else {
        None
    }
}

proof fn lemma_token_start(s: Seq<char>, k: int)
    requires
        0 <= k <= s.len(),
        forall|i: int| 0 <= i < k ==> is_white_space(#[trigger] s[i]) && s[i] != '\n',
        k < s.len() ==> !is_white_space(s[k]) || s[k] == '\n',
    ensures
        token_start(s) == k,
    decreases s.len(),
{
    if k > 0 {
        let t = s.drop_first();
        assert forall|i: int| 0 <= i < k - 1 implies is_white_space(#[trigger] t[i]) && t[i]
            != '\n' by {
            assert(t[i] == s[i + 1]);
        }
        if k - 1 < t.len() {
            assert(t[k - 1] == s[k]);
        }
        lemma_token_start(t, k - 1);
    }
}

proof fn lemma_token_len(s: Seq<char>, k: int)
    requires
        0 <= k <= s.len(),
        forall|i: int| 0 <= i < k ==> !is_white_space(#[trigger] s[i]),
        k < s.len() ==> is_white_space(s[k]),
    ensures
        token_len(s) == k,
    decreases s.len(),
{
    if k > 0 {
        let t = s.drop_first();
        assert forall|i: int| 0 <= i < k - 1 implies !is_white_space(#[trigger] t[i]) by {
            assert(t[i] == s[i + 1]);
        }
        if k - 1 < t.len() {
            assert(t[k - 1] == s[k]);
        }
        lemma_token_len(t, k - 1);
    }
}

/// Executable form of [`first_token`].
pub fn first_token_of(text: &str) -> (r: Vec<char>)
    ensures
        r@ == first_token(text@),
{
    let v = chars_of(text);
    let mut start: usize = 0;
    while start < v.len() && white(v[start]) && v[start] != '\n'
        invariant
            start <= v.len(),
            forall|i: int| 0 <= i < start ==> is_white_space(#[trigger] v@[i]) && v@[i] != '\n',
        decreases v.len() - start,
    {
        start += 1;
    }
    let mut end: usize = start;
    while end < v.len() && !white(v[end])
        invariant
            start <= end <= v.len(),
            forall|i: int| start <= i < end ==> !is_white_space(#[trigger] v@[i]),
        decreases v.len() - end,
    {
        end += 1;
    }
    let mut r: Vec<char> = Vec::new();
    let mut i: usize = start;
    while i < end
        invariant
            start <= i <= end <= v.len(),
            r@ == v@.subrange(start as int, i as int),
        decreases end - i,
    {
        r.push(v[i]);
        i += 1;
    }
    proof {
        lemma_token_start(v@, start as int);
        let rest = v@.skip(start as int);
        assert forall|i: int| 0 <= i < end - start implies !is_white_space(#[trigger] rest[i]) by {
            assert(rest[i] == v@[i + start]);
        }
        if end - start < rest.len() {
            assert(rest[end - start] == v@[end as int]);
        }
        lemma_token_len(rest, end - start);
        assert(rest.take(end - start) =~= v@.subrange(start as int, end as int));
    }
    r
}

impl SlashCommand {
    /// Reads the command that a comment gives, if it gives one.
    pub fn parse(text: &str) -> (r: Option<SlashCommand>)
        ensures
            r == command_in(text@),
    {
        let token = to_ascii_lowercase(&first_token_of(text));
        if same_chars(&token, &chars_of("/preview")) {
            Some(SlashCommand::Preview)
        } else if same_chars(&token, &chars_of("/delete")) {
            Some(SlashCommand::Delete)
        } else {
            None
        }
    }
}

/// The text gives no command.
#[derive(Debug, Clone, Copy, PartialEq, Eq, Structural)]
pub struct NotACommand;

/// What reading a text as a command gives: the command that the text
/// gives, and the error where it gives none.
pub open spec fn command_from(text: Seq<char>) -> Result<SlashCommand, NotACommand> {
    match command_in(text) {
        Some(command) => Ok(command),
        None => Err(NotACommand),
    }
}

impl core::str::FromStr for SlashCommand {
    type Err = NotACommand;

    /// Reads a text as a command: `Ok` with the command that the first
    /// token of its first line gives, and `Err` for any other text.
    fn from_str(s: &str) -> (r: Result<Self, Self::Err>)
        ensures
            r == command_from(s@),
    {
        match SlashCommand::parse(s) {
            Some(command) => Ok(command),
            None => Err(NotACommand),
        }
    }
}

} // verus!
