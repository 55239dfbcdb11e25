//! The dice: every random number of a battle is drawn here.

use vstd::prelude::*;
use bevy_turborand::DelegatedRng;
use bevy_turborand::GlobalRng;

verus! {

#[verifier::external_type_specification]
#[verifier::external_body]
pub struct ExGlobalRng(GlobalRng);

/// Calls `GlobalRng::usize` of bevy_turborand with the range from `low` to
/// `high`, both included. Trusted: the number drawn lies in that range.
/// The call panics on an empty range, which `requires` leaves out.
#[verifier::external_body]
fn rng_usize(rng: &mut GlobalRng, low: usize, high: usize) -> (r: usize)
    requires
        low <= high,
    ensures
        low <= r <= high,
{
    rng.usize(low..=high)
}

/// Calls `GlobalRng::isize` of bevy_turborand with the range from `low` to
/// `high`, both included. Trusted: the number drawn lies in that range.
/// The call panics on an empty range, which `requires` leaves out.
#[verifier::external_body]
fn rng_isize(rng: &mut GlobalRng, low: isize, high: isize) -> (r: isize)
    requires
        low <= high,
    ensures
        low <= r <= high,
{
    rng.isize(low..=high)
}

/// A source of the random numbers of a battle.
pub trait Dice {
    /// A number from `low` to `high`, both included.
    fn between(&mut self, low: usize, high: usize) -> (r: usize)
        requires
            low <= high,
        ensures
            low <= r <= high,
    ;

    /// A roll from 0 to 99.
    fn d100(&mut self) -> (r: isize)
        ensures
            0 <= r < 100,
    ;
}

impl Dice for GlobalRng {
    fn between(&mut self, low: usize, high: usize) -> (r: usize) {
        rng_usize(self, low, high)
    }

    fn d100(&mut self) -> (r: isize) {
        rng_isize(self, 0, 99)
    }
}

/// Dice that show the numbers they were loaded with, one after the other,
/// and zero once these are used up.
pub struct LoadedDice {
    faces: Vec<u64>,
    used: usize,
}

impl LoadedDice {
    /// The numbers that are still to come.
    pub closed spec fn upcoming(self) -> Seq<u64> {
        if self.used <= self.faces@.len() {
            self.faces@.skip(self.used as int)
        } else {
            Seq::empty()
        }
    }

    /// The number that the next draw is made from.
    pub open spec fn face(self) -> u64 {
        if self.upcoming().len() > 0 {
            self.upcoming()[0]
        } else {
            0
        }
    }

    /// What is still to come after one draw.
    pub open spec fn rest(self) -> Seq<u64> {
        if self.upcoming().len() > 0 {
            self.upcoming().skip(1)
        } else {
            self.upcoming()
        }
    }

    /// The number that a draw from `low` to `high` makes of the face `face`.
    pub open spec fn spread(face: u64, low: usize, high: usize) -> int {
        low + (face as int) % (high - low + 1)
    }

    /// Dice loaded with `faces`.
    pub fn new(faces: Vec<u64>) -> (r: Self)
        ensures
            r.upcoming() == faces@,
    {
        LoadedDice { faces, used: 0 }
    }

    /// Takes the next face off.
    fn draw(&mut self) -> (r: u64)
        ensures
            r == old(self).face(),
            final(self).upcoming() == old(self).rest(),
    {
        if self.used < self.faces.len() {
            let face = self.faces[self.used];
            self.used += 1;
            proof {
                assert(self.upcoming() =~= old(self).rest());
            }
            face
        } else {
            0
        }
    }
}

impl Dice for LoadedDice {
    fn between(&mut self, low: usize, high: usize) -> (r: usize)
        ensures
            r == LoadedDice::spread(old(self).face(), low, high),
            final(self).upcoming() == old(self).rest(),
    {
        let face = self.draw();
        let width: u128 = (high - low) as u128 + 1;
        let offset: u128 = (face as u128) % width;
        low + offset as usize
    }

    fn d100(&mut self) -> (r: isize)
        ensures
            r == old(self).face() % 100,
            final(self).upcoming() == old(self).rest(),
    {
        let face = self.draw();
        (face % 100) as isize
    }
}

/// One of the items, picked by the dice; `None` of an empty slice.
pub fn pick<'a, T, D: Dice>(rng: &mut D, items: &'a [T]) -> (r: Option<&'a T>)
    ensures
        r.is_none() <==> items@.len() == 0,
        r.is_some() ==> exists|i: int| 0 <= i < items@.len() && *r.unwrap() == items@[i],
{
    if items.len() == 0 {
        None
    } else {
        let i = rng.between(0, items.len() - 1);
        Some(&items[i])
    }
}

/// One of the items, picked by the dice, to be changed in its place;
/// `None` of an empty slice.
pub fn choose_mut<'a, T, D: Dice>(rng: &mut D, items: &'a mut [T]) -> (r: Option<&'a mut T>)
    ensures
        r.is_none() <==> old(items)@.len() == 0,
        r.is_none() ==> final(items)@ == old(items)@,
        r.is_some() ==> exists|i: int|
            0 <= i < old(items)@.len() && *r.unwrap() == old(items)@[i] && final(items)@ == old(
                items,
            )@.update(i, *final(r.unwrap())),
{
    if items.len() == 0 {
        None
    } else {
        let i = rng.between(0, items.len() - 1);
        Some(&mut items[i])
    }
}

} // verus!
