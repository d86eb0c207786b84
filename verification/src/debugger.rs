//! Whether a debugger is attached to the host, as the kernel's account of the
//! process tells it: a line `TracerPid:` with the tracer's process id, which
//! is zero when there is none.

use vstd::prelude::*;
use vstd::utf8::encode_utf8;

verus! {

/// The bytes with which the line of the tracer begins.
pub open spec fn tracer_key() -> Seq<u8> {
    encode_utf8("TracerPid:"@)
}

/// Whether a line begins at `at`: at the start of the text or after a line
/// feed.
pub open spec fn begins_line(text: Seq<u8>, at: int) -> bool {
    0 <= at <= text.len() && (at == 0 || text[at - 1] == 10u8)
}

/// Whether `word` stands in `text` at `at`.
pub open spec fn stands_at(text: Seq<u8>, at: int, word: Seq<u8>) -> bool {
    0 <= at && at + word.len() <= text.len() && text.subrange(at, at + word.len()) == word
}

/// Whether a byte is one of the digits `1` to `9`.
pub open spec fn nonzero_digit(byte: u8) -> bool {
    0x31 <= byte <= 0x39
}

/// Whether a digit other than zero stands at `at`, on the line on which
/// `from` lies and not before `from`.
pub open spec fn digit_on_line(text: Seq<u8>, from: int, at: int) -> bool {
    &&& from <= at < text.len()
    &&& nonzero_digit(text[at])
    &&& forall|k: int| from <= k < at ==> text[k] != 10u8
}

/// Whether the status names a tracer: on a line that begins with the key, a
/// digit other than zero follows.
pub open spec fn names_tracer(status: Seq<u8>) -> bool {
    exists|line: int, at: int|
        begins_line(status, line) && stands_at(status, line, tracer_key())
            && #[trigger] digit_on_line(status, line + tracer_key().len(), at)
}

fn stands(text: &[u8], at: usize, word: &[u8]) -> (found: bool)
    requires
        at <= text@.len(),
    ensures
        found == stands_at(text@, at as int, word@),
{
    if word.len() > text.len() - at {
        return false;
    }
    let mut i: usize = 0;
    while i < word.len()
        invariant
            i <= word@.len(),
            at + word.len() <= text.len(),
            forall|k: int| 0 <= k < i ==> text@[at + k] == word@[k],
        decreases word.len() - i,
    {
        if text[at + i] != word[i] {
            assert(text@.subrange(at as int, at + word@.len())[i as int] != word@[i as int]);
            return false;
        }
        i = i + 1;
    }
    assert(text@.subrange(at as int, at + word@.len()) =~= word@);
    true
}

/// Reads from the status of this process whether a tracer is attached.
pub fn tracer_attached(status: &[u8]) -> (attached: bool)
    ensures
        attached == names_tracer(status@),
{
    let key = "TracerPid:".as_bytes();
    let size = status.len();
    let mut line: usize = 0;
    loop
        invariant
            size == status@.len(),
            key@ == tracer_key(),
            begins_line(status@, line as int),
            forall|l: int, at: int|
                0 <= l < line && begins_line(status@, l) && stands_at(status@, l, tracer_key())
                    ==> !#[trigger] digit_on_line(status@, l + tracer_key().len(), at),
        decreases size - line,
    {
        let keyed = stands(status, line, key);
        let from = if keyed {
            line + key.len()
        } else {
            line
        };
        let mut at = from;
        while at < size && status[at] != 10
            invariant
                size == status@.len(),
                from <= at <= size,
                begins_line(status@, line as int),
                keyed == stands_at(status@, line as int, tracer_key()),
                keyed ==> from == line + tracer_key().len(),
                forall|k: int| from <= k < at ==> status@[k] != 10u8,
                keyed ==> forall|k: int| from <= k < at ==> !nonzero_digit(#[trigger] status@[k]),
            decreases size - at,
        {
            if keyed && status[at] >= 0x31 && status[at] <= 0x39 {
                assert(digit_on_line(status@, line + tracer_key().len(), at as int));
                return true;
            }
            at = at + 1;
        }
        proof {
            lemma_key_has_no_line_feed();
            assert forall|l: int, found: int|
                line <= l <= at && begins_line(status@, l) && stands_at(
                    status@,
                    l,
                    tracer_key(),
                ) implies !#[trigger] digit_on_line(status@, l + tracer_key().len(), found) by {
                if l > line {
                    // No line begins between `line` and `at`: the key holds
                    // no line feed, and none follows it before `at`.
                    if l - 1 < from {
                        let word = status@.subrange(line as int, line + tracer_key().len());
                        assert(word[l - 1 - line] == status@[l - 1]);
                    }
                } else if keyed && digit_on_line(status@, from as int, found) {
                    if found >= at {
                        assert(status@[at as int] == 10u8);
                    }
                }
            }
        }
        if at >= size {
            return false;
        }
        line = at + 1;
    }
}

/// The key holds no line feed.
proof fn lemma_key_has_no_line_feed()
    ensures
        forall|i: int| 0 <= i < tracer_key().len() ==> tracer_key()[i] != 10u8,
        tracer_key().len() == 10,
{
    reveal_strlit("TracerPid:");
    let text = "TracerPid:"@;
    assert(vstd::utf8::is_ascii_chars(text));
    vstd::utf8::is_ascii_chars_encode_utf8(text);
    assert forall|i: int| 0 <= i < tracer_key().len() implies tracer_key()[i] != 10u8 by {
        assert(tracer_key()[i] == text[i] as u8);
    }
}

} // verus!
