//! Bear's fish: a count without bound that members feed, steal from, and now
//! and then see square rooted.

use crate::general::draw_between;
use crate::text::{decimal, enclose};
use num_bigint::BigUint;
use vstd::prelude::*;

verus! {

/// The count of fish is a `num_bigint::BigUint`. The verifier sees nothing
/// inside one; what is known of it is said over [`big_value`].
#[verifier::external_type_specification]
#[verifier::external_body]
pub struct ExBigUint(num_bigint::BigUint);

/// The natural number that a `BigUint` stands for.
pub uninterp spec fn big_value(n: BigUint) -> nat;

/// So many bits hold ten to the millionth power; a count that needs as many
/// is cut down before it grows further.
pub const MAX_BITS_ALLOWED: u64 = 3_321_929;

/// The fewest bits that express `n`: none for zero.
pub open spec fn bit_length(n: nat) -> nat
    decreases n,
{
    if n == 0 {
        0
    } else {
        1 + bit_length(n / 2)
    }
}

/// Whether `root` is the square root of `n`, rounded down.
pub open spec fn is_floor_sqrt(root: nat, n: nat) -> bool {
    root * root <= n < (root + 1) * (root + 1)
}

/// Calls `BigUint::bits`. Taken on trust: the answer is the fewest bits
/// necessary to express the number, zero for zero.
#[verifier::external_body]
fn big_bits(n: &BigUint) -> (bits: u64)
    ensures
        bits == bit_length(big_value(*n)),
{
    n.bits()
}

/// Calls `BigUint::sqrt`. Taken on trust: the answer is the truncated
/// principal square root, the greatest number whose square is not above
/// the argument.
#[verifier::external_body]
fn big_sqrt(n: &BigUint) -> (root: BigUint)
    ensures
        is_floor_sqrt(big_value(root), big_value(*n)),
{
    n.sqrt()
}

/// Calls `+=` of `BigUint` with a `u32`. Taken on trust: the number grows by
/// `k`.
#[verifier::external_body]
fn big_add(n: &mut BigUint, k: u32)
    ensures
        big_value(*final(n)) == big_value(*old(n)) + k,
{
    *n += k;
}

/// Calls `*` of `&BigUint` with a `u32`. Taken on trust: the answer is the
/// product of the two.
#[verifier::external_body]
fn big_mul(n: &BigUint, k: u32) -> (product: BigUint)
    ensures
        big_value(product) == big_value(*n) * k,
{
    n * k
}

/// Calls `/` of `BigUint` with a `u32`. Taken on trust: the answer is the
/// quotient, rounded down. A division by zero panics, so `k` must not be
/// zero.
#[verifier::external_body]
fn big_div(n: BigUint, k: u32) -> (quotient: BigUint)
    requires
        k > 0,
    ensures
        big_value(quotient) == big_value(n) / (k as nat),
{
    n / k
}

/// Calls `to_string` of `BigUint`, which goes by its `Display`. Taken on
/// trust: the answer is the decimal numeral of the number.
#[verifier::external_body]
fn big_to_string(n: &BigUint) -> (text: String)
    ensures
        text@ == decimal(big_value(*n)),
{
    n.to_string()
}

/// What a feeding came to.
#[derive(Debug, Clone, Copy, PartialEq, Eq, Structural)]
pub enum FishEvent {
    /// The count had grown too high and was square rooted.
    TooHigh,
    /// A super fish: ten fish more.
    SuperFish,
    /// One fish more.
    OneFish,
    /// No fish was found.
    NoFish,
    /// The count was square rooted by accident.
    SquareRooted,
}

/// What a roll between 0 and 99 comes to: a square root for 0 and 1, nothing
/// up to 9, one fish up to 89, a super fish from 90 on.
pub open spec fn fish_event_of(roll: u32) -> FishEvent {
    if roll >= 90 {
        FishEvent::SuperFish
    } else if roll >= 10 {
        FishEvent::OneFish
    } else if roll >= 2 {
        FishEvent::NoFish
    } else {
        FishEvent::SquareRooted
    }
}

/// Whether `after` is what `event` makes of the count `before`.
pub open spec fn fish_follows(event: FishEvent, before: nat, after: nat) -> bool {
    match event {
        FishEvent::TooHigh => is_floor_sqrt(after, before),
        FishEvent::SuperFish => after == before + 10,
        FishEvent::OneFish => after == before + 1,
        FishEvent::NoFish => after == before,
        FishEvent::SquareRooted => is_floor_sqrt(after, before),
    }
}

/// Whether the count has grown too high to be fed.
pub fn fish_too_high(fish: &BigUint) -> (too_high: bool)
    ensures
        too_high == (bit_length(big_value(*fish)) >= MAX_BITS_ALLOWED),
{
    big_bits(fish) >= MAX_BITS_ALLOWED
}

/// Cuts a count that has grown too high down to its square root.
pub fn cut_fish(fish: &mut BigUint) -> (event: FishEvent)
    ensures
        event == FishEvent::TooHigh,
        fish_follows(event, big_value(*old(fish)), big_value(*final(fish))),
{
    *fish = big_sqrt(fish);
    FishEvent::TooHigh
}

/// Feeds the bear by a roll between 0 and 99.
pub fn feed_fish(fish: &mut BigUint, roll: u32) -> (event: FishEvent)
    requires
        roll < 100,
    ensures
        event == fish_event_of(roll),
        fish_follows(event, big_value(*old(fish)), big_value(*final(fish))),
{
    if roll >= 90 {
        big_add(fish, 10);
        FishEvent::SuperFish
    } else if roll >= 10 {
        big_add(fish, 1);
        FishEvent::OneFish
    } else if roll >= 2 {
        FishEvent::NoFish
    } else {
        *fish = big_sqrt(fish);
        FishEvent::SquareRooted
    }
}

/// What is said of a feeding that left the bear with `count` fish.
pub open spec fn fish_text(event: FishEvent, count: Seq<char>) -> Seq<char> {
    match event {
        FishEvent::TooHigh => "Woah! Bear's fish is a little too high, so it unfortunately has to be square rooted."@,
        FishEvent::SuperFish => "Wow, you gave bear a super fish! Added 10 fish! Bear now has "@
            + count + " fish!"@,
        FishEvent::OneFish => "You feed bear one fish. Bear now has "@ + count + " fish!"@,
        FishEvent::NoFish => "You can't find any fish... and thus can't feed bear. Bear still has "@
            + count + " fish."@,
        FishEvent::SquareRooted => ":sob:\n:sob:\n:sob:\nAww, bear's fish was accidentally square root'ed. Bear now has "@
            + count + " fish. \n:sob:\n:sob:\n:sob: "@,
    }
}

/// Writes what is said of a feeding, with the count as it stands after it.
pub fn fish_message(event: &FishEvent, fish: &BigUint) -> (message: String)
    ensures
        message@ == fish_text(*event, decimal(big_value(*fish))),
{
    let count = big_to_string(fish);
    match event {
        FishEvent::TooHigh => String::from_str(
            "Woah! Bear's fish is a little too high, so it unfortunately has to be square rooted.",
        ),
        FishEvent::SuperFish => enclose(
            "Wow, you gave bear a super fish! Added 10 fish! Bear now has ",
            count.as_str(),
            " fish!",
        ),
        FishEvent::OneFish => enclose(
            "You feed bear one fish. Bear now has ",
            count.as_str(),
            " fish!",
        ),
        FishEvent::NoFish => enclose(
            "You can't find any fish... and thus can't feed bear. Bear still has ",
            count.as_str(),
            " fish.",
        ),
        FishEvent::SquareRooted => enclose(
            ":sob:\n:sob:\n:sob:\nAww, bear's fish was accidentally square root'ed. Bear now has ",
            count.as_str(),
            " fish. \n:sob:\n:sob:\n:sob: ",
        ),
    }
}

/// Gives a fish to bear: a count that is too high is cut down, any other is
/// fed by a roll of the dice. The message tells what happened and how many
/// fish there are now.
pub fn fish(count: &mut BigUint) -> (message: String)
    ensures
        exists|event: FishEvent|
            #![trigger fish_follows(event, big_value(*old(count)), big_value(*final(count)))]
            {
                &&& (event == FishEvent::TooHigh) == (bit_length(big_value(*old(count)))
                    >= MAX_BITS_ALLOWED)
                &&& fish_follows(event, big_value(*old(count)), big_value(*final(count)))
                &&& message@ == fish_text(event, decimal(big_value(*final(count))))
            },
{
    let event = if fish_too_high(count) {
        cut_fish(count)
    } else {
        let roll = draw_between(0, 99);
        feed_fish(count, roll as u32)
    };
    let message = fish_message(&event, count);
    assert(fish_follows(event, big_value(*old(count)), big_value(*count)));
    message
}

/// What a theft came to.
#[derive(Debug, Clone, Copy, PartialEq, Eq, Structural)]
pub enum StealEvent {
    /// A share of the fish was stolen.
    StoleShare,
    /// One fish in a hundred was stolen.
    StoleOnePercent,
    /// The theft went wrong: the bear was given fish.
    GaveShare,
    /// Nothing happened.
    Nothing,
}

/// What a roll between 0 and 999 comes to.
pub open spec fn steal_event_of(roll: u32) -> StealEvent {
    if roll >= 750 {
        StealEvent::StoleShare
    } else if roll >= 416 {
        StealEvent::StoleOnePercent
    } else if roll >= 250 {
        StealEvent::GaveShare
    } else {
        StealEvent::Nothing
    }
}

/// The count that a theft by the roll `roll` leaves of `before`.
pub open spec fn fish_after_theft(before: nat, roll: u32) -> nat {
    match steal_event_of(roll) {
        StealEvent::StoleShare => before * ((1500 - roll) as nat) / 1000,
        StealEvent::StoleOnePercent => before * 99 / 100,
        StealEvent::GaveShare => before * ((750 + roll) as nat) / 1000,
        StealEvent::Nothing => before,
    }
}

/// Steals from the bear by a roll between 0 and 999.
pub fn steal_fish(fish: &mut BigUint, roll: u32) -> (event: StealEvent)
    requires
        roll < 1000,
    ensures
        event == steal_event_of(roll),
        big_value(*final(fish)) == fish_after_theft(big_value(*old(fish)), roll),
{
    if roll >= 750 {
        let scaled = big_mul(fish, 1500 - roll);
        *fish = big_div(scaled, 1000);
        StealEvent::StoleShare
    } else if roll >= 416 {
        let scaled = big_mul(fish, 99);
        *fish = big_div(scaled, 100);
        StealEvent::StoleOnePercent
    } else if roll >= 250 {
        let scaled = big_mul(fish, 750 + roll);
        *fish = big_div(scaled, 1000);
        StealEvent::GaveShare
    } else {
        StealEvent::Nothing
    }
}

/// What is said of a theft; `per` is the share in percent that is named.
pub open spec fn steal_text(event: StealEvent, per: u32) -> Seq<char> {
    match event {
        StealEvent::StoleShare => "You stole "@ + decimal(per as nat) + "% of bear's fish!"@,
        StealEvent::StoleOnePercent => "You stole just 1% of bear's fish!"@,
        StealEvent::GaveShare => "Uhh... something went wrong! You gave bear another "@ + decimal(
            per as nat,
        ) + "% of his fish!"@,
        StealEvent::Nothing => "Hmm, nothing happened. *crickets*"@,
    }
}

/// Writes what is said of a theft.
pub fn steal_message(event: &StealEvent, per: u32) -> (message: String)
    ensures
        message@ == steal_text(*event, per),
{
    match event {
        StealEvent::StoleShare => {
            let share = crate::text::decimal_string(per as u64);
            enclose("You stole ", share.as_str(), "% of bear's fish!")
        },
        StealEvent::StoleOnePercent => String::from_str("You stole just 1% of bear's fish!"),
        StealEvent::GaveShare => {
            let share = crate::text::decimal_string(per as u64);
            enclose(
                "Uhh... something went wrong! You gave bear another ",
                share.as_str(),
                "% of his fish!",
            )
        },
        StealEvent::Nothing => String::from_str("Hmm, nothing happened. *crickets*"),
    }
}

/// Rolls for a theft and carries it out; hands back the roll with what it
/// came to.
pub fn stealfish(fish: &mut BigUint) -> (res: (u32, StealEvent))
    ensures
        res.0 < 1000,
        res.1 == steal_event_of(res.0),
        big_value(*final(fish)) == fish_after_theft(big_value(*old(fish)), res.0),
{
    let roll = draw_between(0, 999) as u32;
    let event = steal_fish(fish, roll);
    (roll, event)
}

/// Picks one of `len` things at random.
pub fn pick_index(len: usize) -> (idx: usize)
    requires
        len > 0,
    ensures
        idx < len,
{
    draw_between(0, (len - 1) as u64) as usize
}

/// What is said when a member slaps another with a trout.
pub fn trout_message(author: &str, member: Option<&str>) -> (message: String)
    ensures
        message@ == author@ + " slaps "@ + (match member {
            Some(m) => m@,
            None => "themself"@,
        }) + " with a giant trout!"@,
{
    let target = match member {
        Some(m) => m,
        None => "themself",
    };
    let mut message = enclose(author, " slaps ", target);
    message.append(" with a giant trout!");
    message
}

/// What is said when a member gives another a treat.
pub fn treat_message(author: &str, member: Option<&str>, treat_phrase: &str) -> (message: String)
    ensures
        message@ == author@ + " gives "@ + (match member {
            Some(m) => m@,
            None => "themself"@,
        }) + " "@ + treat_phrase@ + "!"@,
{
    let target = match member {
        Some(m) => m,
        None => "themself",
    };
    let mut message = enclose(author, " gives ", target);
    message.append(" ");
    message.append(treat_phrase);
    message.append("!");
    message
}

/// The answer of the magic 8 ball, set in bold.
pub fn magic8ball_message(saying: &str) -> (message: String)
    ensures
        message@ == "**"@ + saying@ + "**"@,
{
    enclose("**", saying, "**")
}

} // verus!
