//! Random mood selection: when the user names no mood, one is drawn
//! uniformly from the catalog. Whatever the generator returns, the chosen
//! value names a catalog entry, and its name looks back up to itself.

use vstd::prelude::*;
use crate::catalog::mood_at;
use crate::catalog::spec_mood_at;
use crate::catalog::spec_mood_name;
use crate::catalog::spec_parse_mood;
use crate::catalog::Mood;
use crate::catalog::MOOD_COUNT;
use crate::text::lower_seq;

verus! {

/// Relies on rand::random_range: a uniformly random value drawn from the
/// given range by the thread-local generator; it panics only when the range
/// is empty, which the precondition rules out. Nothing beyond membership in
/// the range can be said of the result.
#[verifier::external_body]
fn random_below(n: usize) -> (r: usize)
    requires
        n > 0,
    ensures
        r < n,
{
    rand::random_range(0..n)
}

/// A mood drawn from the catalog. Which entry comes back depends on the
/// thread's random number generator; that it is a catalog entry does not.
pub fn random_mood() -> (m: Mood)
    ensures
        exists|i: int| 0 <= i < MOOD_COUNT && m == spec_mood_at(i),
{
    let i = random_below(MOOD_COUNT);
    let m = mood_at(i);
    proof {
        assert((i as int) < MOOD_COUNT && m == spec_mood_at(i as int));
    }
    m
}

/// Every canonical mood name is already lowercase, so it resolves to its own
/// mood: a random selection can never leave the catalog, and the modes that
/// look a drawn name up cannot hit the unknown-mood error.
pub proof fn lemma_mood_name_roundtrip(m: Mood)
    ensures
        spec_parse_mood(spec_mood_name(m)) == Some(m),
{
    reveal_strlit("focus");
    reveal_strlit("chaotic");
    reveal_strlit("sadboi");
    reveal_strlit("energetic");
    reveal_strlit("chill");
    reveal_strlit("creative");
    reveal_strlit("productive");
    reveal_strlit("nostalgic");
    reveal_strlit("adventurous");
    reveal_strlit("zen");
    assert("focus"@.len() == 5 && "chaotic"@.len() == 7 && "sadboi"@.len() == 6 && "energetic"@.len()
        == 9 && "chill"@.len() == 5 && "creative"@.len() == 8 && "productive"@.len() == 10
        && "nostalgic"@.len() == 9 && "adventurous"@.len() == 11 && "zen"@.len() == 3);
    assert("chill"@[0] == 'c' && "focus"@[0] == 'f' && "nostalgic"@[0] == 'n' && "energetic"@[0]
        == 'e');
    match m {
        Mood::Focus => {
            assert(lower_seq("focus"@) =~= "focus"@);
        },
        Mood::Chaotic => {
            assert(lower_seq("chaotic"@) =~= "chaotic"@);
        },
        Mood::Sadboi => {
            assert(lower_seq("sadboi"@) =~= "sadboi"@);
        },
        Mood::Energetic => {
            assert(lower_seq("energetic"@) =~= "energetic"@);
        },
        Mood::Chill => {
            assert(lower_seq("chill"@) =~= "chill"@);
        },
        Mood::Creative => {
            assert(lower_seq("creative"@) =~= "creative"@);
        },
        Mood::Productive => {
            assert(lower_seq("productive"@) =~= "productive"@);
        },
        Mood::Nostalgic => {
            assert(lower_seq("nostalgic"@) =~= "nostalgic"@);
        },
        Mood::Adventurous => {
            assert(lower_seq("adventurous"@) =~= "adventurous"@);
        },
        Mood::Zen => {
            assert(lower_seq("zen"@) =~= "zen"@);
        },
    }
}

} // verus!
