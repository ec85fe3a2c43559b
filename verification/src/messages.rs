//! The lines that cheer the player on and the lines that mark a crash.

use vstd::prelude::*;
use crate::chance::choose_one;

verus! {

/// Shown, one at a time, on every fifth point.
pub const ENCOURAGEMENT_LIST: [&'static str; 5] = [
    "AMAZING!",
    "MARVELOUS!",
    "UNSTOPPABLE!",
    "KEYBOARD WIZARD!",
    "FRANTIC FLYING!",
];

/// Shown, one at a time, on the screen that follows a crash.
pub const DEAD_SCREEN_MESSAGE: [&'static str; 5] = [
    "OOF WE HEARD THAT IN THE STANDS",
    "YOUR ARE GONNA FEEL THAT FOR AWHILE",
    "MAYBE DONT DO THAT NEXT TIME?",
    "SOMEONE CALL THE CLEAN UP CREW",
    "AH THE SATISFYING SOUND OF \"SPLAT\"",
];

/// Whether `text` is one of the encouragements.
pub open spec fn is_encouragement(text: Seq<char>) -> bool {
    exists|i: int| 0 <= i < 5 && #[trigger] ENCOURAGEMENT_LIST@[i]@ == text
}

/// Whether `text` is one of the lines for a crash.
pub open spec fn is_dead_screen_message(text: Seq<char>) -> bool {
    exists|i: int| 0 <= i < 5 && #[trigger] DEAD_SCREEN_MESSAGE@[i]@ == text
}

/// Picks one of the encouragements by chance. There always is one.
pub fn pick_encouragement() -> (pick: Option<&'static str>)
    ensures
        pick matches Some(text) && is_encouragement(text@),
{
    let mut rng = rand::thread_rng();
    let pool = ENCOURAGEMENT_LIST;
    match choose_one(pool.as_slice(), &mut rng) {
        Some(text) => Some(*text),
        None => None,
    }
}

/// Picks one of the lines for a crash by chance. There always is one.
pub fn pick_dead_screen_message() -> (pick: Option<&'static str>)
    ensures
        pick matches Some(text) && is_dead_screen_message(text@),
{
    let mut rng = rand::thread_rng();
    let pool = DEAD_SCREEN_MESSAGE;
    match choose_one(pool.as_slice(), &mut rng) {
        Some(text) => Some(*text),
        None => None,
    }
}

/// No encouragement is empty.
pub proof fn lemma_encouragement_not_empty(text: Seq<char>)
    requires
        is_encouragement(text),
    ensures
        text.len() > 0,
{
    reveal_strlit("AMAZING!");
    reveal_strlit("MARVELOUS!");
    reveal_strlit("UNSTOPPABLE!");
    reveal_strlit("KEYBOARD WIZARD!");
    reveal_strlit("FRANTIC FLYING!");
    let i = choose|i: int| 0 <= i < 5 && #[trigger] ENCOURAGEMENT_LIST@[i]@ == text;
    assert(ENCOURAGEMENT_LIST@[0]@ == "AMAZING!"@);
    assert(ENCOURAGEMENT_LIST@[1]@ == "MARVELOUS!"@);
    assert(ENCOURAGEMENT_LIST@[2]@ == "UNSTOPPABLE!"@);
    assert(ENCOURAGEMENT_LIST@[3]@ == "KEYBOARD WIZARD!"@);
    assert(ENCOURAGEMENT_LIST@[4]@ == "FRANTIC FLYING!"@);
}

/// No line for a crash is empty.
pub proof fn lemma_dead_screen_message_not_empty(text: Seq<char>)
    requires
        is_dead_screen_message(text),
    ensures
        text.len() > 0,
{
    reveal_strlit("OOF WE HEARD THAT IN THE STANDS");
    reveal_strlit("YOUR ARE GONNA FEEL THAT FOR AWHILE");
    reveal_strlit("MAYBE DONT DO THAT NEXT TIME?");
    reveal_strlit("SOMEONE CALL THE CLEAN UP CREW");
    reveal_strlit("AH THE SATISFYING SOUND OF \"SPLAT\"");
    let i = choose|i: int| 0 <= i < 5 && #[trigger] DEAD_SCREEN_MESSAGE@[i]@ == text;
    assert(DEAD_SCREEN_MESSAGE@[0]@ == "OOF WE HEARD THAT IN THE STANDS"@);
    assert(DEAD_SCREEN_MESSAGE@[1]@ == "YOUR ARE GONNA FEEL THAT FOR AWHILE"@);
    assert(DEAD_SCREEN_MESSAGE@[2]@ == "MAYBE DONT DO THAT NEXT TIME?"@);
    assert(DEAD_SCREEN_MESSAGE@[3]@ == "SOMEONE CALL THE CLEAN UP CREW"@);
    assert(DEAD_SCREEN_MESSAGE@[4]@ == "AH THE SATISFYING SOUND OF \"SPLAT\""@);
}

} // verus!
