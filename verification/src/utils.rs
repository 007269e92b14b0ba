//! Banner lines for a trace: a message in capitals between two runs of a
//! filling character.

use vstd::prelude::*;
use vstd::string::*;

verus! {

/// The width that a banner line is filled up to, the two blanks not counted.
pub const MAX_LEN: usize = 60;

/// A run of `count` copies of one character.
pub open spec fn run_of(c: char, count: nat) -> Seq<char> {
    Seq::new(count, |i: int| c)
}

/// How many filling characters stand on the left of a message of `len` bytes.
pub open spec fn left_fill(len: nat) -> nat {
    ((MAX_LEN - len) / 2) as nat
}

/// How many stand on the right: as many as on the left for a message of odd
/// length, and one less, where there is one, for a message of even length.
pub open spec fn right_fill(len: nat) -> nat {
    if len % 2 != 0 || left_fill(len) == 0 {
        left_fill(len)
    } else {
        (left_fill(len) - 1) as nat
    }
}

/// The banner line of a message of `len` bytes that reads `shout` in capitals.
pub open spec fn framed(shout: Seq<char>, len: nat, c: char) -> Seq<char> {
    run_of(c, left_fill(len)) + " "@ + shout + " "@ + run_of(c, right_fill(len))
}

/// A banner line is 61 characters wide, whatever the message, as long as
/// the message is shorter than the width that is filled up to and has as
/// many characters in capitals as it had bytes before.
pub proof fn lemma_frame_width(shout: Seq<char>, len: nat, c: char)
    requires
        len < MAX_LEN,
        shout.len() == len,
    ensures
        framed(shout, len, c).len() == MAX_LEN + 1,
{
    reveal_strlit(" ");
}

/// What `str::to_uppercase` makes of a text.
pub uninterp spec fn uppercase(text: Seq<char>) -> Seq<char>;

/// `str::to_uppercase`: the text in capitals, which depends on the text alone.
#[verifier::external_body]
fn to_uppercase(text: &str) -> (r: String)
    ensures
        r@ == uppercase(text@),
{
    text.to_uppercase()
}

/// `String::push`: appends one character.
#[verifier::external_body]
fn push_char(text: &mut String, c: char)
    ensures
        final(text)@ == old(text)@.push(c),
{
    text.push(c)
}

fn repeat(c: char, count: usize) -> (r: String)
    ensures
        r@ == run_of(c, count as nat),
{
    let mut text = String::new();
    let mut i: usize = 0;
    while i < count
        invariant
            i <= count,
            text@ == run_of(c, i as nat),
        decreases count - i,
    {
        push_char(&mut text, c);
        i += 1;
        assert(text@ =~= run_of(c, i as nat));
    }
    text
}

/// The run of filling characters on the left of a message of `len` bytes.
pub fn generate_pretty(len: usize, c: char) -> (r: String)
    requires
        len <= MAX_LEN,
    ensures
        r@ == run_of(c, left_fill(len as nat)),
{
    repeat(c, (MAX_LEN - len) / 2)
}

/// Puts a message that was turned into capitals between its two runs of
/// filling characters; `len` is the length in bytes of the message as it
/// was before.
pub fn frame(shout: &str, len: usize, c: char) -> (r: String)
    requires
        len <= MAX_LEN,
    ensures
        r@ == framed(shout@, len as nat, c),
{
    let left = generate_pretty(len, c);
    let count = (MAX_LEN - len) / 2;
    let right = if len % 2 != 0 || count == 0 {
        repeat(c, count)
    } else {
        repeat(c, count - 1)
    };
    left.concat(" ").concat(shout).concat(" ").concat(right.as_str())
}

/// The banner line of a message.
pub fn banner(message: &str, c: char) -> (r: String)
    requires
        message.len() <= MAX_LEN,
    ensures
        r@ == framed(uppercase(message@), message.len() as nat, c),
{
    let shout = to_uppercase(message);
    frame(shout.as_str(), message.len(), c)
}

} // verus!
