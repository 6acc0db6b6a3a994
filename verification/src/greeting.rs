//! The greeting as a function on character sequences, and what holds of it.

use vstd::prelude::*;
use vstd::utf8::encode_utf8;

verus! {

/// The fixed text that every message starts with.
pub const GREETING_PREFIX: &'static str = "Hello from Lambda! You said: ";

/// The message owed for a command: the prefix, then the command itself,
/// character for character.
pub open spec fn greeting(command: Seq<char>) -> Seq<char> {
    GREETING_PREFIX@ + command
}

/// The command sits in the message untouched, right behind the prefix:
/// nothing is escaped, trimmed, re-cased or cut off.
pub proof fn lemma_greeting_holds_command(command: Seq<char>)
    ensures
        greeting(command).len() == GREETING_PREFIX@.len() + command.len(),
        greeting(command).subrange(0, GREETING_PREFIX@.len() as int) == GREETING_PREFIX@,
        greeting(command).subrange(
            GREETING_PREFIX@.len() as int,
            greeting(command).len() as int,
        ) == command,
{
}

/// Commands that differ are never given the same message.
pub proof fn lemma_greeting_is_injective(first: Seq<char>, second: Seq<char>)
    requires
        greeting(first) == greeting(second),
    ensures
        first == second,
{
    lemma_greeting_holds_command(first);
    lemma_greeting_holds_command(second);
}

/// UTF-8 encodes a concatenation piece by piece.
proof fn lemma_encode_utf8_concat(head: Seq<char>, tail: Seq<char>)
    ensures
        encode_utf8(head + tail) == encode_utf8(head) + encode_utf8(tail),
    decreases head.len(),
{
    if head.len() == 0 {
        assert(head + tail =~= tail);
    } else {
        assert((head + tail).drop_first() =~= head.drop_first() + tail);
        lemma_encode_utf8_concat(head.drop_first(), tail);
    }
}

/// On the wire the message is the bytes of the prefix followed by the bytes
/// of the command, with none added, dropped or changed.
pub proof fn lemma_greeting_bytes(command: Seq<char>)
    ensures
        encode_utf8(greeting(command)) == encode_utf8(GREETING_PREFIX@) + encode_utf8(command),
{
    lemma_encode_utf8_concat(GREETING_PREFIX@, command);
}

} // verus!
