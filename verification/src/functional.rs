//! Memoising a calculation, and a workout plan built on it.

use std::collections::HashMap;
use std::hash::Hash;
use vstd::prelude::*;
use vstd::std_specs::hash::obeys_key_model;

verus! {

/// Remembers the results of a calculation, one per argument, so that the
/// calculation runs at most once for each argument.
#[verifier::reject_recursive_types(V)]
pub struct Cacher<F, V> where F: Fn(V) -> V, V: Hash + Eq + Copy {
    calculation: F,
    value: HashMap<V, V>,
}

impl<F, V> Cacher<F, V> where F: Fn(V) -> V, V: Hash + Eq + Copy {
    /// The calculation that is cached.
    pub closed spec fn calculation(&self) -> F {
        self.calculation
    }

    /// The results remembered so far, by argument.
    pub closed spec fn cached(&self) -> Map<V, V> {
        self.value@
    }

    /// Every remembered result is one that the calculation gave for its
    /// argument.
    pub open spec fn well_formed(&self) -> bool {
        forall|arg: V| #[trigger]
            self.cached().contains_key(arg) ==> call_ensures(
                self.calculation(),
                (arg,),
                self.cached()[arg],
            )
    }

    /// A cacher for `calculation` that remembers nothing yet.
    pub fn new(calculation: F) -> (cacher: Cacher<F, V>)
        ensures
            cacher.calculation() == calculation,
            cacher.cached() == Map::<V, V>::empty(),
            cacher.well_formed(),
    {
        Cacher { calculation, value: HashMap::new() }
    }

    /// The result for `arg`: the remembered one where there is one, else a
    /// fresh result of the calculation, which is remembered from now on.
    pub fn value(&mut self, arg: V) -> (result: V)
        requires
            obeys_key_model::<V>(),
            old(self).well_formed(),
            !old(self).cached().contains_key(arg) ==> call_requires(
                old(self).calculation(),
                (arg,),
            ),
        ensures
            final(self).well_formed(),
            final(self).calculation() == old(self).calculation(),
            old(self).cached().contains_key(arg) ==> result == old(self).cached()[arg]
                && final(self).cached() == old(self).cached(),
            !old(self).cached().contains_key(arg) ==> call_ensures(
                old(self).calculation(),
                (arg,),
                result,
            ) && final(self).cached() == old(self).cached().insert(arg, result),
    {
        broadcast use vstd::std_specs::hash::group_hash_axioms;

        if !self.value.contains_key(&arg) {
            let fresh = (self.calculation)(arg);
            self.value.insert(arg, fresh);
        }
        let result = *self.value.get(&arg).unwrap();
        result
    }
}

/// What to do today.
#[derive(Clone, Copy, Debug, PartialEq, Eq, Structural)]
pub enum Workout {
    Strength { pushups: u32, situps: u32 },
    Rest,
    Run { minutes: u32 },
}

/// Plans a workout from the wanted intensity and a number drawn at random.
///
/// Below an intensity of 25 the plan is strength training, with as many
/// situps as pushups; from 25 on it is a run, except that a draw of 3 means
/// a day of rest. The amount comes from `calculation`, which is called at
/// most once, and not at all for a day of rest.
pub fn generate_workout<F: Fn(u32) -> u32>(intensity: u32, random_number: u32, calculation: F) -> (plan:
    Workout)
    requires
        call_requires(calculation, (intensity,)),
    ensures
        match plan {
            Workout::Strength { pushups, situps } => intensity < 25 && pushups == situps
                && call_ensures(calculation, (intensity,), pushups),
            Workout::Rest => intensity >= 25 && random_number == 3,
            Workout::Run { minutes } => intensity >= 25 && random_number != 3 && call_ensures(
                calculation,
                (intensity,),
                minutes,
            ),
        },
{
    broadcast use vstd::std_specs::hash::group_hash_axioms;

    let mut expensive_closure = Cacher::new(calculation);
    if intensity < 25 {
        let pushups = expensive_closure.value(intensity);
        let situps = expensive_closure.value(intensity);
        Workout::Strength { pushups, situps }
    } else if random_number == 3 {
        Workout::Rest
    } else {
        Workout::Run { minutes: expensive_closure.value(intensity) }
    }
}

} // verus!
