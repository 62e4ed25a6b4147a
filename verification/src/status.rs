//! Status tokens: the advisory words about the shell's lifecycle that the
//! agent publishes on the status topic.

use crate::text::{ascii_bytes, is_ascii_text, push_ascii};
use vstd::prelude::*;
use vstd::utf8::is_ascii_chars;

verus! {

/// One of the four status words. They are advisory: nobody acknowledges
/// them. `ShellExited` is reserved; the agent never emits it.
#[derive(Clone, Copy, Debug, PartialEq, Eq, Structural)]
pub enum StatusToken {
    ShellReady,
    ShellRestarting,
    ShellErrorRestarting,
    ShellExited,
}

/// The token that a payload spells, if it spells one exactly.
pub open spec fn token_of(payload: Seq<u8>) -> Option<StatusToken> {
    if payload == StatusToken::ShellReady.wire() {
        Some(StatusToken::ShellReady)
    } else if payload == StatusToken::ShellRestarting.wire() {
        Some(StatusToken::ShellRestarting)
    } else if payload == StatusToken::ShellErrorRestarting.wire() {
        Some(StatusToken::ShellErrorRestarting)
    } else if payload == StatusToken::ShellExited.wire() {
        Some(StatusToken::ShellExited)
    } else {
        None
    }
}

impl StatusToken {
    /// The word of this token.
    pub open spec fn text(self) -> Seq<char> {
        match self {
            StatusToken::ShellReady => "shell_ready"@,
            StatusToken::ShellRestarting => "shell_restarting"@,
            StatusToken::ShellErrorRestarting => "shell_error_restarting"@,
            StatusToken::ShellExited => "shell_exited"@,
        }
    }

    /// The payload that carries this token.
    pub open spec fn wire(self) -> Seq<u8> {
        ascii_bytes(self.text())
    }

    /// The word of this token.
    pub fn as_str(&self) -> (word: &'static str)
        ensures
            word@ == self.text(),
    {
        match self {
            StatusToken::ShellReady => "shell_ready",
            StatusToken::ShellRestarting => "shell_restarting",
            StatusToken::ShellErrorRestarting => "shell_error_restarting",
            StatusToken::ShellExited => "shell_exited",
        }
    }

    /// The payload that carries this token.
    pub fn to_bytes(&self) -> (out: Vec<u8>)
        ensures
            out@ == self.wire(),
    {
        proof {
            lemma_words();
        }
        let mut out: Vec<u8> = Vec::new();
        push_ascii(&mut out, self.as_str());
        out
    }

    /// Reads a token from a payload. Only the exact bytes of one of the
    /// four words are a token.
    pub fn parse(payload: &[u8]) -> (token: Option<StatusToken>)
        ensures
            token == token_of(payload@),
    {
        proof {
            lemma_words();
        }
        if is_ascii_text(payload, "shell_ready") {
            Some(StatusToken::ShellReady)
        } else if is_ascii_text(payload, "shell_restarting") {
            Some(StatusToken::ShellRestarting)
        } else if is_ascii_text(payload, "shell_error_restarting") {
            Some(StatusToken::ShellErrorRestarting)
        } else if is_ascii_text(payload, "shell_exited") {
            Some(StatusToken::ShellExited)
        } else {
            None
        }
    }
}

/// The four words are ASCII and have the lengths 11, 16, 22 and 12.
proof fn lemma_words()
    ensures
        forall|t: StatusToken| #[trigger] is_ascii_chars(t.text()),
        StatusToken::ShellReady.text().len() == 11,
        StatusToken::ShellRestarting.text().len() == 16,
        StatusToken::ShellErrorRestarting.text().len() == 22,
        StatusToken::ShellExited.text().len() == 12,
{
    reveal_strlit("shell_ready");
    reveal_strlit("shell_restarting");
    reveal_strlit("shell_error_restarting");
    reveal_strlit("shell_exited");
}

/// Reading the payload of a token gives that token back.
pub proof fn lemma_token_round_trip(token: StatusToken)
    ensures
        token_of(token.wire()) == Some(token),
{
    lemma_words();
    assert(StatusToken::ShellReady.wire().len() == 11);
    assert(StatusToken::ShellRestarting.wire().len() == 16);
    assert(StatusToken::ShellErrorRestarting.wire().len() == 22);
    assert(StatusToken::ShellExited.wire().len() == 12);
}

/// A payload spells at most one token, and does so exactly.
pub proof fn lemma_token_exact(payload: Seq<u8>, token: StatusToken)
    ensures
        token_of(payload) == Some(token) <==> payload == token.wire(),
{
    lemma_token_round_trip(token);
}

} // verus!
