//! What the user gets to see of the API key.

use vstd::prelude::*;

use crate::text::{join, opt_text, repeat, repeated};

verus! {

/// How many characters of a key stay visible.
pub const VISIBLE: usize = 8;

/// A key as it is shown: one of up to 8 characters is hidden altogether, character for
/// character; of a longer one the last 8 characters are shown, behind 8 bullets.
pub open spec fn masked_text(key: Seq<char>) -> Seq<char> {
    if key.len() <= VISIBLE {
        repeated('\u{2022}', key.len())
    } else {
        repeated('\u{2022}', VISIBLE as nat) + key.skip(key.len() - VISIBLE)
    }
}

fn mask(key: &str) -> (r: String)
    ensures
        r@ == masked_text(key@),
{
    proof {
        reveal_strlit("\u{2022}");
    }
    let n: usize = key.unicode_len();
    if n <= VISIBLE {
        return repeat("\u{2022}", n);
    }
    let bullets = repeat("\u{2022}", VISIBLE);
    let tail = key.substring_char(n - VISIBLE, n);
    assert(tail@ =~= key@.skip(key@.len() - VISIBLE));
    join(bullets.as_str(), tail)
}

/// The stored key as it is shown, if there is one.
pub fn masked(key: Option<String>) -> (r: Option<String>)
    ensures
        opt_text(r) == (match key {
            Some(k) => Some(masked_text(k@)),
            None => None,
        }),
{
    match key {
        Some(k) => Some(mask(k.as_str())),
        None => None,
    }
}

/// A shown key never grows with the key: it has at most 16 characters, and only its last 8
/// can be the key's own.
pub proof fn law_masked_keys_stay_short(key: Seq<char>)
    ensures
        masked_text(key).len() <= 16,
        forall|i: int|
            0 <= i < masked_text(key).len() - 8 ==> #[trigger] masked_text(key)[i] == '\u{2022}',
{
}

/// Of two keys with the same last 8 characters, both longer than that, the same is shown:
/// nothing else of a key can be seen.
pub proof fn law_only_the_end_of_a_key_shows(a: Seq<char>, b: Seq<char>)
    requires
        a.len() > 8,
        b.len() > 8,
        a.skip(a.len() - 8) == b.skip(b.len() - 8),
    ensures
        masked_text(a) == masked_text(b),
{
}

} // verus!
