use vstd::prelude::*;

use crate::duration::Duration;
use crate::text::{decimal, decimal_two, digit_char, push_decimal, push_decimal_two};

verus! {

/// The hearts of the health bar, one per point of maximum health: the first
/// `health` of them are full, the rest are empty.
pub fn health_hearts(health: u32, max_health: u32) -> (hearts: Vec<bool>)
    ensures
        hearts.len() == max_health,
        forall|i: int| 0 <= i < max_health ==> hearts[i] == (i < health),
{
    let mut hearts: Vec<bool> = Vec::new();
    let mut i: u32 = 0;
    while i < max_health
        invariant
            i <= max_health,
            hearts.len() == i,
            forall|j: int| 0 <= j < i ==> hearts[j] == (j < health),
        decreases max_health - i,
    {
        hearts.push(i < health);
        i = i + 1;
    }
    hearts
}

/// The text of the stop watch: whole minutes, a colon and the seconds with
/// two digits.
pub open spec fn stop_watch_chars(secs: nat) -> Seq<char> {
    decimal(secs / 60) + ":"@ + decimal_two(secs % 60)
}

/// The stop watch shows the total number of whole minutes (with no
/// wrap at the hour), a colon and the remaining seconds with two digits: for
/// `m` minutes and `s < 60` seconds it reads `m:ss`.
pub proof fn lemma_stop_watch_minutes_and_seconds(m: nat, s: nat)
    requires
        s < 60,
    ensures
        stop_watch_chars(m * 60 + s) == decimal(m) + ":"@ + seq![digit_char(s / 10), digit_char(s % 10)],
{
    vstd::arithmetic::div_mod::lemma_fundamental_div_mod_converse((m * 60 + s) as int, 60, m as int, s as int);
    if s >= 10 {
        assert(decimal(s) == decimal(s / 10).push(digit_char(s % 10)));
        assert(decimal(s / 10) == seq![digit_char(s / 10)]);
        assert(decimal_two(s) =~= seq![digit_char(s / 10), digit_char(s % 10)]);
    } else {
        assert(decimal_two(s) =~= seq![digit_char(s / 10), digit_char(s % 10)]);
    }
}

/// The stop watch of a run that has lasted `time`.
pub fn stop_watch_text(time: Duration) -> (s: String)
    ensures
        s@ == stop_watch_chars(time@ / 1_000_000_000),
{
    let secs = time.as_secs();
    let mut s = String::new();
    push_decimal(&mut s, secs / 60);
    s.append(":");
    push_decimal_two(&mut s, secs % 60);
    assert(s@ =~= stop_watch_chars(time@ / 1_000_000_000));
    s
}

/// The level label under the experience bar.
pub fn level_text(level: usize) -> (s: String)
    ensures
        s@ == "lvl. "@ + decimal(level as nat),
{
    let mut s = String::from_str("lvl. ");
    push_decimal(&mut s, level as u64);
    s
}

} // verus!
