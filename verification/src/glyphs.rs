//! Runs of one repeated character, and appending them to a line of text.

use vstd::prelude::*;
use vstd::string::StringExecFns;

verus! {

/// `count` copies of the character `glyph`.
pub open spec fn run(glyph: char, count: nat) -> Seq<char> {
    Seq::new(count, |i: int| glyph)
}

/// A run grows by one glyph at its end.
pub proof fn lemma_run_push(glyph: char, count: nat)
    ensures
        run(glyph, count + 1) == run(glyph, count).push(glyph),
{
    assert(run(glyph, count + 1) =~= run(glyph, count).push(glyph));
}

/// The text that holds the one character `glyph`.
///
/// Trusted: the body calls std's `String::from(char)`, which allocates a string from
/// a single character. The contract claims that this string is exactly that character.
#[verifier::external_body]
fn glyph_text(glyph: char) -> (text: String)
    ensures
        text@ == seq![glyph],
{
    String::from(glyph)
}

/// Appends `count` copies of `glyph` to `line`.
pub fn push_run(line: &mut String, glyph: char, count: usize)
    ensures
        final(line)@ == old(line)@ + run(glyph, count as nat),
{
    let cell = glyph_text(glyph);
    let mut done: usize = 0;
    assert(line@ + run(glyph, 0) =~= line@);
    while done < count
        invariant
            done <= count,
            cell@ == seq![glyph],
            line@ == old(line)@ + run(glyph, done as nat),
        decreases count - done,
    {
        line.append(cell.as_str());
        proof {
            lemma_run_push(glyph, done as nat);
            assert(old(line)@ + run(glyph, done as nat) + seq![glyph] =~= old(line)@ + run(
                glyph,
                done as nat,
            ).push(glyph));
        }
        done += 1;
    }
}

} // verus!
