//! Collaborators without chance, for a search whose course is to be known
//! beforehand: a generator that numbers its key pairs, and an encoder that
//! gives every key pair one of two texts.

use crate::error::SearchError;
use crate::request::KeyAlgorithm;
use crate::search::{answer_of, Attempt, Encoder, KeyGenerator, SearchOutcome, VanitySearch};
use crate::text::has_prefix;
use vstd::prelude::*;
use vstd::string::StringExecFns;

verus! {

/// The number that the generator gives at its call of that number: the
/// number of the call itself, as long as it can be counted.
pub open spec fn number_of_call(call: nat) -> u64 {
    if call < u64::MAX {
        call as u64
    } else {
        u64::MAX
    }
}

/// What the generator answers at a call: the number of the call as the key
/// pair, or, at the one call at which it is to fail, that it has no key.
/// Calls are counted from one, so a generator that is to fail at call zero
/// never fails.
pub open spec fn numbered_answer(call: nat, failing: u64) -> Result<u64, Seq<char>> {
    if failing == number_of_call(call) {
        Err("no key at this call"@)
    } else {
        Ok(number_of_call(call))
    }
}

/// Hands out the numbers 1, 2, 3, ... as key pairs, one at each call, and
/// fails at the call of the number `FAILING`. With `FAILING` zero it never
/// fails.
pub struct CountingGenerator<const FAILING: u64> {
    calls: u64,
    asked: Option<KeyAlgorithm>,
    answered: Ghost<Seq<(KeyAlgorithm, Result<u64, Seq<char>>)>>,
}

/// The family that the last of these calls asked for.
pub open spec fn family_of_last(
    answered: Seq<(KeyAlgorithm, Result<u64, Seq<char>>)>,
) -> Option<KeyAlgorithm> {
    if answered.len() == 0 {
        None
    } else {
        Some(answered.last().0)
    }
}

impl<const FAILING: u64> CountingGenerator<FAILING> {
    #[verifier::type_invariant]
    spec fn counts_its_calls(self) -> bool {
        &&& self.calls == number_of_call(self.answered@.len())
        &&& self.asked == family_of_last(self.answered@)
        &&& forall|i: int|
            0 <= i < self.answered@.len() ==> (#[trigger] self.answered@[i]).1 == numbered_answer(
                (i + 1) as nat,
                FAILING,
            )
    }

    /// A generator that has answered no call yet.
    pub fn new() -> (generator: Self)
        ensures
            generator.answered().len() == 0,
    {
        CountingGenerator { calls: 0, asked: None, answered: Ghost(Seq::empty()) }
    }

    /// The number of calls that this generator has answered. Each of them
    /// was answered as its number gives.
    pub fn calls(&self) -> (calls: u64)
        ensures
            calls == number_of_call(self.answered().len()),
            forall|i: int|
                0 <= i < self.answered().len() ==> (#[trigger] self.answered()[i]).1
                    == numbered_answer((i + 1) as nat, FAILING),
    {
        proof {
            use_type_invariant(self);
        }
        self.calls
    }

    /// The family that the last call asked for, if there was a call.
    pub fn last_asked(&self) -> (asked: Option<KeyAlgorithm>)
        ensures
            asked == family_of_last(self.answered()),
    {
        proof {
            use_type_invariant(self);
        }
        self.asked
    }
}

impl<const FAILING: u64> KeyGenerator<u64> for CountingGenerator<FAILING> {
    closed spec fn answered(&self) -> Seq<(KeyAlgorithm, Result<u64, Seq<char>>)> {
        self.answered@
    }

    /// The answer is the one that the number of the call gives.
    fn generate(&mut self, algorithm: KeyAlgorithm) -> (made: Result<u64, String>)
        ensures
            answer_of(made) == numbered_answer(old(self).answered().len() + 1, FAILING),
    {
        proof {
            use_type_invariant(&*self);
        }
        let call: u64 = if self.calls < u64::MAX {
            self.calls + 1
        } else {
            u64::MAX
        };
        let made = if call == FAILING {
            Err(String::from_str("no key at this call"))
        } else {
            Ok(call)
        };
        *self = CountingGenerator {
            calls: call,
            asked: Some(algorithm),
            answered: Ghost(self.answered@.push((algorithm, answer_of(made)))),
        };
        made
    }
}

/// Renders one chosen key pair as one text and every other key pair as
/// another, and gives no text for one key pair if it is told to.
pub struct MarkingEncoder {
    pub matching: Option<u64>,
    pub failing: Option<u64>,
    pub marked_text: String,
    pub plain_text: String,
}

impl Encoder<u64> for MarkingEncoder {
    open spec fn rendering(&self, keypair: u64) -> Result<Seq<char>, Seq<char>> {
        if self.failing == Some(keypair) {
            Err("cannot render this key"@)
        } else if self.matching == Some(keypair) {
            Ok(self.marked_text@)
        } else {
            Ok(self.plain_text@)
        }
    }

    fn encode(&self, keypair: &u64) -> (text: Result<String, String>) {
        let fails = match self.failing {
            Some(failing) => failing == *keypair,
            None => false,
        };
        let matches = match self.matching {
            Some(matching) => matching == *keypair,
            None => false,
        };
        if fails {
            Err(String::from_str("cannot render this key"))
        } else if matches {
            Ok(self.marked_text.clone())
        } else {
            Ok(self.plain_text.clone())
        }
    }
}

/// A fresh search with a generator that never fails, whose calls were all
/// answered as their numbers give, and with an encoder that renders every
/// key pair, the marked one with a text that starts with the prefix and
/// the others with a text that does not: where the number of the marked key
/// pair is within the budget, the run finds that key pair at the attempt of
/// that number, and the generator was called that many times and not again.
pub proof fn marked_key_is_found_at_its_number(
    before: VanitySearch<u64, CountingGenerator<0>, MarkingEncoder>,
    after: VanitySearch<u64, CountingGenerator<0>, MarkingEncoder>,
    result: Result<SearchOutcome<u64>, SearchError>,
    marked: u64,
)
    requires
        before.wf(),
        after.wf(),
        after.counted(),
        VanitySearch::ran(before, after, result),
        before.is_fresh(),
        before.first_call() == 0,
        forall|i: int|
            0 <= i < after.generator_state().answered().len() ==> (
            #[trigger] after.generator_state().answered()[i]).1 == numbered_answer(
                (i + 1) as nat,
                0,
            ),
        before.encoder_state().matching == Some(marked),
        before.encoder_state().failing.is_none(),
        has_prefix(before.encoder_state().marked_text@, before.prefix()),
        !has_prefix(before.encoder_state().plain_text@, before.prefix()),
        1 <= marked <= before.budget(),
    ensures
        result matches Ok(SearchOutcome::Found { keypair, encoded_public_key, attempts_taken, .. })
            && attempts_taken == marked && keypair == marked && encoded_public_key@
            == before.encoder_state().marked_text@,
        after.generator_state().answered().len() == marked,
{
    let encoder = before.encoder_state();
    assert forall|i: int| 0 <= i < after.attempts() implies #[trigger] after.attempt_at(i) == (
    Attempt::Encoded {
        keypair: (i + 1) as u64,
        text: if i + 1 == marked {
            encoder.marked_text@
        } else {
            encoder.plain_text@
        },
    }) by {
        assert(after.generator_state().answered()[i].1 == numbered_answer((i + 1) as nat, 0));
    }
    if after.attempts() >= marked {
        assert(after.attempt_at(marked - 1).is_hit(before.prefix()));
        VanitySearch::first_hit_ends_the_run(before, after, result, marked - 1);
    } else {
        assert forall|i: int| 0 <= i < after.attempts() implies (#[trigger] after.attempt_at(
            i,
        )).is_miss(before.prefix()) by {}
        VanitySearch::unmatched_prefix_uses_whole_budget(before, after, result);
    }
}

} // verus!
