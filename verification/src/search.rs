//! The search itself: the attempt loop, its budget, and what it reports.

use crate::error::SearchError;
use crate::progress::{is_report_due, report_due, SearchProgress, PROGRESS_INTERVAL};
use crate::request::{KeyAlgorithm, SearchRequest};
use crate::text::{empty_prefix_of_any, has_prefix};
use std::marker::PhantomData;
use std::time::{Duration, Instant};
use vstd::prelude::*;

verus! {

/// One answer of a generator: a key pair, or the text of why none was made.
pub open spec fn answer_of<K>(made: Result<K, String>) -> Result<K, Seq<char>> {
    match made {
        Ok(keypair) => Ok(keypair),
        Err(detail) => Err(detail@),
    }
}

/// Makes key pairs. A generator keeps the record of its calls: each call
/// adds what was asked for and what was answered, and nothing else does.
pub trait KeyGenerator<K> {
    /// What this generator was asked for and what it answered, call by call.
    spec fn answered(&self) -> Seq<(KeyAlgorithm, Result<K, Seq<char>>)>;

    /// One key pair of the given family, or why none could be made.
    fn generate(&mut self, algorithm: KeyAlgorithm) -> (made: Result<K, String>)
        ensures
            final(self).answered() == old(self).answered().push((algorithm, answer_of(made))),
    ;
}

/// Renders the public half of a key pair as text. What an encoder gives for
/// a key pair depends on the key pair alone: asked again, it gives the same.
pub trait Encoder<K> {
    /// The text that this encoder gives for a key pair, or the text of why
    /// it gives none.
    spec fn rendering(&self, keypair: K) -> Result<Seq<char>, Seq<char>>;

    /// The text of the public key, or why it could not be rendered.
    fn encode(&self, keypair: &K) -> (text: Result<String, String>)
        ensures
            match text {
                Ok(rendered) => self.rendering(*keypair) == Ok::<Seq<char>, Seq<char>>(rendered@),
                Err(detail) => self.rendering(*keypair) == Err::<Seq<char>, Seq<char>>(detail@),
            },
    ;
}

/// How a search ended.
#[derive(Debug)]
pub enum SearchOutcome<K> {
    /// The key pair whose public text starts with the prefix, found at
    /// attempt `attempts_taken`.
    Found { keypair: K, encoded_public_key: String, attempts_taken: u32, elapsed: Duration },
    /// The budget was used up: `attempts_taken` key pairs, none matched.
    Exhausted { attempts_taken: u32 },
}

impl<K> SearchOutcome<K> {
    /// The number of attempts that the search had made when it ended.
    pub fn attempts_taken(&self) -> (n: u32)
        ensures
            n == match *self {
                SearchOutcome::Found { attempts_taken, .. } => attempts_taken,
                SearchOutcome::Exhausted { attempts_taken } => attempts_taken,
            },
    {
        match self {
            SearchOutcome::Found { attempts_taken, .. } => *attempts_taken,
            SearchOutcome::Exhausted { attempts_taken } => *attempts_taken,
        }
    }

    /// The error that stands for this outcome where no key was found: the
    /// budget was used up, after so many attempts. A found key is no error.
    pub fn budget_error(&self) -> (error: Option<SearchError>)
        ensures
            match *self {
                SearchOutcome::Found { .. } => error.is_none(),
                SearchOutcome::Exhausted { attempts_taken } => error matches Some(
                    SearchError::BudgetExhausted { attempts },
                ) && attempts == attempts_taken,
            },
    {
        match self {
            SearchOutcome::Found { .. } => None,
            SearchOutcome::Exhausted { attempts_taken } => Some(
                SearchError::BudgetExhausted { attempts: *attempts_taken },
            ),
        }
    }
}

/// What one step of a search gives: a progress report to show, after which
/// the search is to be advanced again, or the end of the search.
#[derive(Debug)]
pub enum SearchStep<K> {
    Report(SearchProgress),
    Done(Result<SearchOutcome<K>, SearchError>),
}

/// What one attempt came to.
pub enum Attempt<K> {
    /// A key pair was made and its public key rendered as `text`.
    Encoded { keypair: K, text: Seq<char> },
    /// The generator gave no key pair.
    GenerationFailed { detail: Seq<char> },
    /// A key pair was made, and its public key could not be rendered.
    EncodingFailed { detail: Seq<char> },
}

impl<K> Attempt<K> {
    /// The attempt gave a text that starts with the prefix.
    pub open spec fn is_hit(self, prefix: Seq<char>) -> bool {
        self matches Attempt::Encoded { text, .. } && has_prefix(text, prefix)
    }

    /// The attempt gave a text that does not start with the prefix: the one
    /// case in which a search goes on.
    pub open spec fn is_miss(self, prefix: Seq<char>) -> bool {
        self matches Attempt::Encoded { text, .. } && !has_prefix(text, prefix)
    }
}

/// What an attempt comes to, given the generator's answer and what the
/// encoder gives for a key pair.
pub open spec fn attempt_of<K>(
    answer: Result<K, Seq<char>>,
    rendering: spec_fn(K) -> Result<Seq<char>, Seq<char>>,
) -> Attempt<K> {
    match answer {
        Err(detail) => Attempt::GenerationFailed { detail },
        Ok(keypair) => match rendering(keypair) {
            Ok(text) => Attempt::Encoded { keypair, text },
            Err(detail) => Attempt::EncodingFailed { detail },
        },
    }
}

/// A search with its two collaborators. It counts the attempts, keeps to the
/// budget and says when progress is to be reported.
pub struct VanitySearch<K, G, E> {
    request: SearchRequest,
    generator: G,
    encoder: E,
    started: Instant,
    attempts: u32,
    report_given: bool,
    first_call: Ghost<nat>,
    reports: Ghost<Seq<SearchProgress>>,
    key: PhantomData<K>,
}

impl<K, G: KeyGenerator<K>, E: Encoder<K>> VanitySearch<K, G, E> {
    /// The request this search was made for.
    pub closed spec fn request(self) -> SearchRequest {
        self.request
    }

    /// The prefix that is searched for.
    pub open spec fn prefix(self) -> Seq<char> {
        self.request().desired_prefix@
    }

    /// The most attempts this search will ever make.
    pub open spec fn budget(self) -> nat {
        self.request().max_attempts as nat
    }

    /// The generator, in the state the search left it in.
    pub closed spec fn generator_state(self) -> G {
        self.generator
    }

    /// The encoder of this search.
    pub closed spec fn encoder_state(self) -> E {
        self.encoder
    }

    /// The number of calls that the generator had answered when the search
    /// was made.
    pub closed spec fn first_call(self) -> nat {
        self.first_call@
    }

    /// The number of attempts made so far.
    pub closed spec fn attempts(self) -> nat {
        self.attempts as nat
    }

    /// Whether the report for the attempt that comes next was handed out.
    pub closed spec fn report_given(self) -> bool {
        self.report_given
    }

    /// The progress reports handed out so far, in order.
    pub closed spec fn reports(self) -> Seq<SearchProgress> {
        self.reports@
    }

    /// The call of the generator that was attempt `i` of this search,
    /// counted from zero: what was asked for, and what was answered.
    pub open spec fn call(self, i: int) -> (KeyAlgorithm, Result<K, Seq<char>>) {
        self.generator_state().answered()[self.first_call() + i]
    }

    /// What attempt `i` came to: the generator's answer to that call, and
    /// for a key pair what the encoder gives for it.
    pub open spec fn attempt_at(self, i: int) -> Attempt<K> {
        attempt_of(self.call(i).1, |keypair: K| self.encoder_state().rendering(keypair))
    }

    /// The attempts made so far, in order.
    pub open spec fn trace(self) -> Seq<Attempt<K>> {
        Seq::new(self.attempts(), |i: int| self.attempt_at(i))
    }

    /// A search in good order: the generator has answered one call for each
    /// attempt, each asking for the family of the request; there are never
    /// more attempts than the budget allows; and there is one report for
    /// each full interval of attempts, taken when its last attempt began.
    pub closed spec fn wf(self) -> bool {
        &&& self.generator.answered().len() == self.first_call@ + self.attempts
        &&& self.attempts <= self.request.max_attempts
        &&& forall|i: int|
            self.first_call@ <= i < self.first_call@ + self.attempts ==> (
            #[trigger] self.generator.answered()[i]).0 == self.request.algorithm
        &&& self.report_given ==> self.attempts < self.request.max_attempts && report_due(
            self.attempts as nat + 1,
        )
        &&& self.reports@.len() == self.attempts as nat / (PROGRESS_INTERVAL as nat) + (
        if self.report_given {
            1nat
        } else {
            0nat
        })
        &&& forall|i: int|
            0 <= i < self.reports@.len() ==> {
                &&& (#[trigger] self.reports@[i]).attempts_so_far == (i + 1) * PROGRESS_INTERVAL
                &&& self.reports@[i].consistent()
            }
    }

    /// The generator has answered exactly one call for each attempt, and
    /// each of these calls asked for the family that the request names.
    pub open spec fn counted(self) -> bool {
        &&& self.generator_state().answered().len() == self.first_call() + self.attempts()
        &&& self.attempts() <= self.budget()
        &&& forall|i: int|
            0 <= i < self.attempts() ==> (#[trigger] self.call(i)).0 == self.request().algorithm
    }

    /// No attempt has been made yet and no report handed out.
    pub open spec fn is_fresh(self) -> bool {
        &&& self.attempts() == 0
        &&& self.reports().len() == 0
        &&& !self.report_given()
    }

    /// How a search goes on, whatever it does: request and encoder stay,
    /// the generator's record only grows, and where no attempt was made the
    /// generator was not touched.
    pub open spec fn grew(before: Self, after: Self) -> bool {
        &&& after.request() == before.request()
        &&& after.encoder_state() == before.encoder_state()
        &&& after.first_call() == before.first_call()
        &&& before.attempts() <= after.attempts()
        &&& before.generator_state().answered().is_prefix_of(after.generator_state().answered())
        &&& after.attempts() == before.attempts() ==> after.generator_state()
            == before.generator_state()
    }

    /// What a run to the end does to a search, and what it returns.
    ///
    /// The run makes attempts on top of those already made, and stops at the
    /// first that is not a miss, or when the budget is used up. The result
    /// says which: a hit gives `Found` with the key pair and text of that
    /// attempt and its number, a failure gives the error of its kind with
    /// the detail that came back, and a used-up budget gives `Exhausted`.
    pub open spec fn ran(
        before: Self,
        after: Self,
        result: Result<SearchOutcome<K>, SearchError>,
    ) -> bool {
        let made = after.attempts() as int;
        &&& Self::grew(before, after)
        &&& !after.report_given()
        &&& forall|i: int|
            before.attempts() <= i < made - 1 ==> (#[trigger] after.attempt_at(i)).is_miss(
                before.prefix(),
            )
        &&& match result {
            Ok(SearchOutcome::Found { keypair, encoded_public_key, attempts_taken, elapsed }) => {
                &&& made > before.attempts()
                &&& attempts_taken == made
                &&& after.attempt_at(made - 1) == (Attempt::Encoded {
                    keypair,
                    text: encoded_public_key@,
                })
                &&& has_prefix(encoded_public_key@, before.prefix())
            },
            Ok(SearchOutcome::Exhausted { attempts_taken }) => {
                &&& attempts_taken == made
                &&& made == before.budget()
                &&& made > before.attempts() ==> after.attempt_at(made - 1).is_miss(
                    before.prefix(),
                )
            },
            Err(SearchError::Generation { detail }) => {
                &&& made > before.attempts()
                &&& after.attempt_at(made - 1) == (Attempt::<K>::GenerationFailed {
                    detail: detail@,
                })
            },
            Err(SearchError::Encoding { detail }) => {
                &&& made > before.attempts()
                &&& after.attempt_at(made - 1) == (Attempt::<K>::EncodingFailed { detail: detail@ })
            },
            Err(_) => false,
        }
    }

    /// What one step does to a search, and what it returns.
    ///
    /// A step makes attempts until the search ends or a report is due. A
    /// report is handed out once, before the attempt whose number it shows
    /// is made; all attempts of such a step were misses. A step that ends
    /// the search is a run to the end that hands out no report.
    pub open spec fn stepped(before: Self, after: Self, step: SearchStep<K>) -> bool {
        match step {
            SearchStep::Report(progress) => {
                &&& Self::grew(before, after)
                &&& forall|i: int|
                    before.attempts() <= i < after.attempts() ==> (#[trigger] after.attempt_at(
                        i,
                    )).is_miss(before.prefix())
                &&& after.attempts() == before.attempts() ==> !before.report_given()
                &&& after.report_given()
                &&& after.attempts() < after.budget()
                &&& progress.attempts_so_far == after.attempts() + 1
                &&& report_due(progress.attempts_so_far as nat)
                &&& progress.consistent()
                &&& after.reports() == before.reports().push(progress)
            },
            SearchStep::Done(result) => {
                &&& Self::ran(before, after, result)
                &&& after.reports() == before.reports()
            },
        }
    }

    /// A search that has made no attempt yet. The clock starts here.
    pub fn new(request: SearchRequest, generator: G, encoder: E) -> (search: Self)
        ensures
            search.wf(),
            search.counted(),
            search.is_fresh(),
            search.request() == request,
            search.generator_state() == generator,
            search.encoder_state() == encoder,
            search.first_call() == generator.answered().len(),
    {
        let search = VanitySearch {
            request,
            first_call: Ghost(generator.answered().len()),
            generator,
            encoder,
            started: Instant::now(),
            attempts: 0,
            report_given: false,
            reports: Ghost(Seq::empty()),
            key: PhantomData,
        };
        proof {
            search.good_order_counts();
        }
        search
    }

    /// The number of attempts made so far: as many as the generator has
    /// answered calls since the search was made.
    pub fn attempts_made(&self) -> (n: u32)
        requires
            self.wf(),
        ensures
            n == self.attempts(),
            n <= self.budget(),
            self.generator_state().answered().len() == self.first_call() + n,
    {
        self.attempts
    }

    /// The generator, to look at after a run.
    pub fn generator(&self) -> (generator: &G)
        ensures
            *generator == self.generator_state(),
    {
        &self.generator
    }

    /// Advances the search to its next report or to its end.
    ///
    /// Each attempt first checks the budget, then hands out the report if
    /// one is due at this attempt, then asks the generator for a key pair of
    /// the request's family, has the encoder render its public key, and
    /// tests the text against the prefix.
    pub fn advance(&mut self) -> (step: SearchStep<K>)
        requires
            old(self).wf(),
        ensures
            final(self).wf(),
            final(self).counted(),
            Self::stepped(*old(self), *final(self), step),
    {
        let ghost before = *self;
        loop
            invariant
                self.wf(),
                before == *old(self),
                before.wf(),
                Self::grew(before, *self),
                self.reports@ == before.reports@,
                self.attempts == before.attempts ==> self.report_given == before.report_given,
                self.attempts > before.attempts ==> !self.report_given,
                forall|i: int|
                    before.attempts <= i < self.attempts ==> (#[trigger] self.attempt_at(
                        i,
                    )).is_miss(before.request.desired_prefix@),
            decreases self.request.max_attempts - self.attempts,
        {
            if self.attempts >= self.request.max_attempts {
                proof {
                    self.good_order_counts();
                }
                return SearchStep::Done(
                    Ok(SearchOutcome::Exhausted { attempts_taken: self.attempts }),
                );
            }
            let attempt: u32 = self.attempts + 1;
            proof {
                Self::reports_keep_step(self.attempts as nat);
            }
            if is_report_due(attempt) && !self.report_given {
                let progress = SearchProgress::new(attempt, self.started.elapsed().as_secs());
                let ghost earlier = *self;
                self.report_given = true;
                proof {
                    self.reports = Ghost(self.reports@.push(progress));
                    Self::earlier_attempts_stay(earlier, *self);
                    assert forall|i: int| before.attempts <= i < self.attempts implies (
                    #[trigger] self.attempt_at(i)).is_miss(before.request.desired_prefix@) by {
                        assert(earlier.attempt_at(i).is_miss(before.request.desired_prefix@));
                    }
                    self.good_order_counts();
                }
                return SearchStep::Report(progress);
            }
            let ghost earlier = *self;
            let algorithm = self.request.algorithm;
            let generated = self.generator.generate(algorithm);
            self.attempts = attempt;
            self.report_given = false;
            proof {
                Self::earlier_attempts_stay(earlier, *self);
                self.good_order_counts();
            }
            match generated {
                Err(detail) => {
                    return SearchStep::Done(Err(SearchError::Generation { detail }));
                },
                Ok(keypair) => {
                    match self.encoder.encode(&keypair) {
                        Err(detail) => {
                            return SearchStep::Done(Err(SearchError::Encoding { detail }));
                        },
                        Ok(text) => {
                            if self.request.accepts(text.as_str()) {
                                return SearchStep::Done(
                                    Ok(
                                        SearchOutcome::Found {
                                            keypair,
                                            encoded_public_key: text,
                                            attempts_taken: attempt,
                                            elapsed: self.started.elapsed(),
                                        },
                                    ),
                                );
                            }
                        },
                    }
                },
            }
        }
    }

    /// Runs the search to its end: attempt after attempt, until one matches,
    /// one fails, or the budget is used up. Reports that fall due on the way
    /// are let go.
    pub fn run(&mut self) -> (result: Result<SearchOutcome<K>, SearchError>)
        requires
            old(self).wf(),
        ensures
            final(self).wf(),
            final(self).counted(),
            Self::ran(*old(self), *final(self), result),
            old(self).reports().is_prefix_of(final(self).reports()),
    {
        let ghost before = *self;
        loop
            invariant
                self.wf(),
                before == *old(self),
                before.wf(),
                Self::grew(before, *self),
                before.reports@.is_prefix_of(self.reports@),
                forall|i: int|
                    before.attempts <= i < self.attempts ==> (#[trigger] self.attempt_at(
                        i,
                    )).is_miss(before.request.desired_prefix@),
            decreases 2 * (self.request.max_attempts - self.attempts) + (if self.report_given {
                0int
            } else {
                1int
            }),
        {
            let ghost earlier = *self;
            match self.advance() {
                SearchStep::Report(_) => {
                    proof {
                        Self::earlier_attempts_stay(earlier, *self);
                    }
                },
                SearchStep::Done(result) => {
                    proof {
                        Self::earlier_attempts_stay(earlier, *self);
                        self.good_order_counts();
                    }
                    return result;
                },
            }
        }
    }

    /// A search never makes more attempts than its budget allows, and the
    /// generator has answered exactly one call for each attempt.
    pub proof fn attempts_stay_within_budget(self)
        requires
            self.wf(),
        ensures
            self.attempts() <= self.budget(),
            self.trace().len() == self.attempts(),
            self.generator_state().answered().len() == self.first_call() + self.attempts(),
    {
    }

    /// Every key pair of a search is asked for in the key family that the
    /// request names.
    pub proof fn keys_are_asked_for_in_the_requested_family(self, i: int)
        requires
            self.wf(),
            0 <= i < self.attempts(),
        ensures
            self.call(i).0 == self.request().algorithm,
    {
    }

    /// Within a run the attempts only grow: what was made before the run is
    /// still there after it, in the same order.
    pub proof fn attempts_only_grow(
        before: Self,
        after: Self,
        result: Result<SearchOutcome<K>, SearchError>,
    )
        requires
            before.wf(),
            after.wf(),
            Self::ran(before, after, result),
        ensures
            before.attempts() <= after.attempts(),
            forall|i: int|
                0 <= i < before.attempts() ==> #[trigger] after.attempt_at(i) == before.attempt_at(
                    i,
                ),
    {
        Self::earlier_attempts_stay(before, after);
    }

    /// A found key pair is the one that the generator gave at the attempt
    /// of that number, and the found text is what the encoder gives for
    /// that very key pair.
    pub proof fn found_key_is_generated_and_rendered(
        before: Self,
        after: Self,
        result: Result<SearchOutcome<K>, SearchError>,
    )
        requires
            before.wf(),
            after.wf(),
            Self::ran(before, after, result),
            result matches Ok(SearchOutcome::Found { .. }),
        ensures
            result matches Ok(
                SearchOutcome::Found { keypair, encoded_public_key, attempts_taken, .. },
            ) && {
                &&& after.generator_state().answered().len() == after.first_call()
                    + attempts_taken
                &&& after.call(attempts_taken - 1) == (
                    after.request().algorithm,
                    Ok::<K, Seq<char>>(keypair),
                )
                &&& after.encoder_state().rendering(keypair) == Ok::<Seq<char>, Seq<char>>(
                    encoded_public_key@,
                )
                &&& has_prefix(encoded_public_key@, after.prefix())
            },
    {
    }

    /// With a budget of zero a run ends at once as exhausted after no
    /// attempt, and the generator is not touched.
    pub proof fn zero_budget_is_exhausted_at_once(
        before: Self,
        after: Self,
        result: Result<SearchOutcome<K>, SearchError>,
    )
        requires
            before.wf(),
            after.wf(),
            Self::ran(before, after, result),
            before.budget() == 0,
        ensures
            result matches Ok(SearchOutcome::Exhausted { attempts_taken }) && attempts_taken == 0,
            after.attempts() == 0,
            after.generator_state() == before.generator_state(),
    {
    }

    /// With the empty prefix and a budget of at least one, a fresh search
    /// asks the generator exactly once. Unless that attempt fails, it is the
    /// match: every text starts with the empty prefix.
    pub proof fn empty_prefix_is_found_at_first_attempt(
        before: Self,
        after: Self,
        result: Result<SearchOutcome<K>, SearchError>,
    )
        requires
            before.wf(),
            after.wf(),
            Self::ran(before, after, result),
            before.is_fresh(),
            before.prefix().len() == 0,
            before.budget() > 0,
        ensures
            after.attempts() == 1,
            after.generator_state().answered().len() == before.generator_state().answered().len()
                + 1,
            match result {
                Ok(SearchOutcome::Found { keypair, attempts_taken, .. }) => attempts_taken == 1
                    && after.call(0).1 == Ok::<K, Seq<char>>(keypair),
                Ok(SearchOutcome::Exhausted { .. }) => false,
                Err(_) => !(after.attempt_at(0) is Encoded),
            },
    {
        let made = after.attempts();
        if made >= 2 {
            let first = after.attempt_at(0);
            assert(first.is_miss(before.prefix()));
            empty_prefix_of_any(first->text, before.prefix());
        }
        if made == 1 {
            let only = after.attempt_at(0);
            if only is Encoded {
                empty_prefix_of_any(only->text, before.prefix());
            }
        }
    }

    /// Where every key pair that the generator gives in a run of a fresh
    /// search is rendered as a text that does not start with the prefix, the
    /// run ends as exhausted after exactly as many calls of the generator as
    /// the budget allows.
    pub proof fn unmatched_prefix_uses_whole_budget(
        before: Self,
        after: Self,
        result: Result<SearchOutcome<K>, SearchError>,
    )
        requires
            before.wf(),
            after.wf(),
            Self::ran(before, after, result),
            before.is_fresh(),
            forall|i: int|
                0 <= i < after.attempts() ==> (#[trigger] after.attempt_at(i)).is_miss(
                    before.prefix(),
                ),
        ensures
            result matches Ok(SearchOutcome::Exhausted { attempts_taken }) && attempts_taken
                == before.budget(),
            after.attempts() == before.budget(),
            after.generator_state().answered().len() == before.generator_state().answered().len()
                + before.budget(),
    {
        let made = after.attempts();
        if made > 0 {
            assert(after.attempt_at(made - 1).is_miss(before.prefix()));
        }
    }

    /// The first call in a run of a fresh search that gives a key pair with
    /// a matching text ends the run: the result is that key pair, under the
    /// number of that call, and the generator is not asked again.
    pub proof fn first_hit_ends_the_run(
        before: Self,
        after: Self,
        result: Result<SearchOutcome<K>, SearchError>,
        k: int,
    )
        requires
            before.wf(),
            after.wf(),
            Self::ran(before, after, result),
            before.is_fresh(),
            0 <= k < after.attempts(),
            after.attempt_at(k).is_hit(before.prefix()),
        ensures
            after.attempts() == k + 1,
            after.generator_state().answered().len() == before.generator_state().answered().len()
                + k + 1,
            result matches Ok(SearchOutcome::Found { keypair, attempts_taken, .. })
                && attempts_taken == k + 1 && after.call(k).1 == Ok::<K, Seq<char>>(keypair),
    {
        let made = after.attempts();
        if k < made - 1 {
            assert(after.attempt_at(k).is_miss(before.prefix()));
        }
    }

    /// A failure of the generator or of the encoder is never tried again: it
    /// is the last attempt of its run, and the run gives its error.
    pub proof fn failure_ends_the_run(
        before: Self,
        after: Self,
        result: Result<SearchOutcome<K>, SearchError>,
        k: int,
    )
        requires
            before.wf(),
            after.wf(),
            Self::ran(before, after, result),
            before.attempts() <= k < after.attempts(),
            !(after.attempt_at(k) is Encoded),
        ensures
            after.attempts() == k + 1,
            match after.attempt_at(k) {
                Attempt::GenerationFailed { detail } => result matches Err(
                    SearchError::Generation { detail: given },
                ) && given@ == detail,
                Attempt::EncodingFailed { detail } => result matches Err(
                    SearchError::Encoding { detail: given },
                ) && given@ == detail,
                Attempt::Encoded { .. } => false,
            },
    {
        let made = after.attempts();
        if k < made - 1 {
            assert(after.attempt_at(k).is_miss(before.prefix()));
        }
    }

    /// The reports of a search come at the attempts that are multiples of
    /// the interval, one for each, and each carries the rate that its
    /// attempts and seconds give.
    pub proof fn reports_come_at_each_interval(self, i: int)
        requires
            self.wf(),
            0 <= i < self.reports().len(),
        ensures
            self.reports().len() == self.attempts() / (PROGRESS_INTERVAL as nat) + (
            if self.report_given() {
                1nat
            } else {
                0nat
            }),
            self.reports()[i].attempts_so_far == (i + 1) * PROGRESS_INTERVAL,
            self.reports()[i].consistent(),
    {
    }

    /// Of two reports of one search, the later shows strictly more attempts.
    pub proof fn later_report_shows_more_attempts(self, i: int, j: int)
        requires
            self.wf(),
            0 <= i < j < self.reports().len(),
        ensures
            self.reports()[i].attempts_so_far < self.reports()[j].attempts_so_far,
    {
    }

    /// A report that a step hands out shows strictly more attempts than any
    /// report that an earlier step of the same search handed out.
    pub proof fn later_step_reports_more_attempts(
        first_before: Self,
        first_after: Self,
        first: SearchProgress,
        second_before: Self,
        second_after: Self,
        second: SearchProgress,
    )
        requires
            first_after.wf(),
            second_after.wf(),
            Self::stepped(first_before, first_after, SearchStep::Report(first)),
            Self::stepped(second_before, second_after, SearchStep::Report(second)),
            first_after.reports().is_prefix_of(second_before.reports()),
        ensures
            first.attempts_so_far < second.attempts_so_far,
    {
        let i = first_before.reports().len() as int;
        let j = second_before.reports().len() as int;
        assert(first_after.reports()[i] == first);
        assert(first_after.reports()[i] == second_before.reports().subrange(
            0,
            first_after.reports().len() as int,
        )[i]);
        assert(second_after.reports()[i] == first);
        assert(second_after.reports()[j] == second);
    }

    /// A search in good order has counted its calls.
    pub proof fn good_order_counts(self)
        requires
            self.wf(),
        ensures
            self.counted(),
    {
        assert forall|i: int| 0 <= i < self.attempts() implies (#[trigger] self.call(i)).0
            == self.request().algorithm by {
            assert(self.generator.answered()[self.first_call@ + i].0 == self.request.algorithm);
        }
    }

    /// Attempts that were made stay what they were while the search goes on.
    proof fn earlier_attempts_stay(earlier: Self, later: Self)
        requires
            earlier.generator.answered().len() >= earlier.first_call@ + earlier.attempts,
            later.first_call@ == earlier.first_call@,
            later.encoder == earlier.encoder,
            earlier.generator.answered().is_prefix_of(later.generator.answered()),
        ensures
            forall|i: int|
                0 <= i < earlier.attempts ==> #[trigger] later.attempt_at(i) == earlier.attempt_at(
                    i,
                ),
    {
        assert forall|i: int| 0 <= i < earlier.attempts implies #[trigger] later.attempt_at(i)
            == earlier.attempt_at(i) by {
            let at = earlier.first_call@ + i;
            assert(earlier.generator.answered()[at] == later.generator.answered().subrange(
                0,
                earlier.generator.answered().len() as int,
            )[at]);
        }
    }

    /// One more attempt adds a report exactly when a report is due at it.
    proof fn reports_keep_step(attempts: nat)
        ensures
            report_due(attempts + 1) ==> (attempts + 1) / (PROGRESS_INTERVAL as nat) == attempts / (
            PROGRESS_INTERVAL as nat) + 1 && attempts + 1 == (attempts / (PROGRESS_INTERVAL as nat)
                + 1) * PROGRESS_INTERVAL,
            !report_due(attempts + 1) ==> (attempts + 1) / (PROGRESS_INTERVAL as nat) == attempts
                / (PROGRESS_INTERVAL as nat),
    {
    }
}

} // verus!
