use vstd::prelude::*;
use vstd::string::*;
use crate::credentials::{Credentials, CredentialsError, ErrorKind};

verus! {

/// The failure messages of the providers tried so far, joined by `"; "`.
pub open spec fn joined(ms: Seq<Seq<char>>) -> Seq<char>
    decreases ms.len(),
{
    if ms.len() == 0 {
        Seq::empty()
    } else if ms.len() == 1 {
        ms[0]
    } else {
        joined(ms.drop_last()) + "; "@ + ms.last()
    }
}

/// The message of a chain whose every provider failed with the messages `ms`.
pub open spec fn aggregate_message(ms: Seq<Seq<char>>) -> Seq<char> {
    "No credentials found in any provider: "@ + joined(ms)
}

/// What the runner of a chain does next.
pub enum ChainAction {
    /// Ask the provider at this position of the chain.
    Try(usize),
    /// A provider succeeded: these are the credentials.
    Done(Credentials),
    /// Every provider failed: the error lists each failure.
    Fail(CredentialsError),
}

/// The outcome of running a chain of providers whose outcomes, in order of
/// precedence, are `outs`, from position `i` on, with the messages `ms` of
/// the failures before `i`: `Ok` of the first success, or the list of all
/// messages.
pub open spec fn chain_outcome(
    outs: Seq<Result<Credentials, CredentialsError>>,
    i: int,
    ms: Seq<Seq<char>>,
) -> Result<Credentials, Seq<Seq<char>>>
    decreases outs.len() - i,
{
    if i < 0 || i >= outs.len() {
        Err(ms)
    } else {
        match outs[i] {
            Ok(c) => Ok(c),
            Err(e) => chain_outcome(outs, i + 1, ms.push(e.message@)),
        }
    }
}

/// How many providers a chain with outcomes `outs` asks, from position `i`
/// on: up to and including the first that succeeds.
pub open spec fn providers_asked(outs: Seq<Result<Credentials, CredentialsError>>, i: int) -> nat
    decreases outs.len() - i,
{
    if i < 0 || i >= outs.len() {
        0
    } else if outs[i] is Ok {
        1
    } else {
        1 + providers_asked(outs, i + 1)
    }
}

/// Precedence: where the only provider that succeeds is the one at `k`, the
/// chain returns its credentials, and asks no provider after it.
pub proof fn lemma_chain_precedence(outs: Seq<Result<Credentials, CredentialsError>>, k: int)
    requires
        0 <= k < outs.len(),
        outs[k] is Ok,
        forall|j: int| 0 <= j < outs.len() && j != k ==> outs[j] is Err,
    ensures
        chain_outcome(outs, 0, Seq::empty()) == Ok::<Credentials, Seq<Seq<char>>>(
            outs[k]->Ok_0,
        ),
        providers_asked(outs, 0) == k + 1,
{
    lemma_chain_from(outs, 0, k, Seq::empty());
}

proof fn lemma_chain_from(
    outs: Seq<Result<Credentials, CredentialsError>>,
    i: int,
    k: int,
    ms: Seq<Seq<char>>,
)
    requires
        0 <= i <= k < outs.len(),
        outs[k] is Ok,
        forall|j: int| 0 <= j < k ==> outs[j] is Err,
    ensures
        chain_outcome(outs, i, ms) == Ok::<Credentials, Seq<Seq<char>>>(outs[k]->Ok_0),
        providers_asked(outs, i) == k - i + 1,
    decreases k - i,
{
    if i < k {
        let e = outs[i]->Err_0;
        lemma_chain_from(outs, i + 1, k, ms.push(e.message@));
    }
}

/// What one `step` does: from `before`, given the outcome of the provider
/// at `before.next()`, it reaches `after` and answers `a`.
pub open spec fn step_post(
    before: ChainResolver,
    outcome: Result<Credentials, CredentialsError>,
    after: ChainResolver,
    a: ChainAction,
) -> bool {
    &&& after.len() == before.len()
    &&& match outcome {
        Ok(c) => a == ChainAction::Done(c) && after.failures() == before.failures()
            && after.next() == before.next(),
        Err(e) => {
            &&& after.failures() == before.failures().push(e.message@)
            &&& after.next() == before.next() + 1
            &&& after.next() < after.len() ==> a == ChainAction::Try(
                (before.next() + 1) as usize,
            )
            &&& after.next() == after.len() ==> match a {
                ChainAction::Fail(f) => f.kind == ErrorKind::AggregateChain
                    && f.message@ == aggregate_message(after.failures()),
                _ => false,
            }
        },
    }
}

/// Precedence over a run of `step` calls: in a chain whose only succeeding
/// provider is the one at `k`, a run from a fresh resolver that hands each
/// step the outcome of the provider it asked tries the providers `1..=k` in
/// turn, and the step given provider `k`'s outcome ends the chain with its
/// credentials, so no provider after `k` is asked.
pub proof fn lemma_chain_run_precedence(
    outs: Seq<Result<Credentials, CredentialsError>>,
    k: int,
    states: Seq<ChainResolver>,
    acts: Seq<ChainAction>,
)
    requires
        0 <= k < outs.len(),
        outs[k] is Ok,
        forall|j: int| 0 <= j < outs.len() && j != k ==> outs[j] is Err,
        states.len() == k + 2,
        acts.len() == k + 1,
        states[0].next() == 0,
        states[0].len() == outs.len(),
        forall|i: int| 0 <= i <= k ==> step_post(#[trigger] states[i], outs[i], states[i + 1], acts[i]),
    ensures
        forall|i: int| 0 <= i < k ==> acts[i] == ChainAction::Try((i + 1) as usize),
        acts[k] == ChainAction::Done(outs[k]->Ok_0),
{
    assert forall|i: int| 0 <= i <= k implies states[i].next() == i && states[i].len() == outs.len() by {
        lemma_run_position(outs, k, states, acts, i);
    }
    assert forall|i: int| 0 <= i < k implies acts[i] == ChainAction::Try((i + 1) as usize) by {
        assert(step_post(states[i], outs[i], states[i + 1], acts[i]));
    }
    assert(step_post(states[k], outs[k], states[k + 1], acts[k]));
}

proof fn lemma_run_position(
    outs: Seq<Result<Credentials, CredentialsError>>,
    k: int,
    states: Seq<ChainResolver>,
    acts: Seq<ChainAction>,
    i: int,
)
    requires
        0 <= k < outs.len(),
        forall|j: int| 0 <= j < outs.len() && j != k ==> outs[j] is Err,
        states.len() == k + 2,
        states[0].next() == 0,
        states[0].len() == outs.len(),
        forall|i: int| 0 <= i <= k ==> step_post(#[trigger] states[i], outs[i], states[i + 1], acts[i]),
        0 <= i <= k,
    ensures
        states[i].next() == i,
        states[i].len() == outs.len(),
    decreases i,
{
    if i > 0 {
        lemma_run_position(outs, k, states, acts, i - 1);
        assert(step_post(states[i - 1], outs[i - 1], states[i], acts[i - 1]));
    }
}

/// Runs a chain of providers in order of precedence: the first success
/// short-circuits, and when all fail the error lists every failure. The
/// runner asks the provider named by each `Try` and hands its outcome to
/// `step`.
pub struct ChainResolver {
    len: usize,
    next: usize,
    message: String,
    failures: Ghost<Seq<Seq<char>>>,
}

impl ChainResolver {
    /// The number of providers in the chain.
    pub closed spec fn len(&self) -> nat {
        self.len as nat
    }

    /// The position of the provider whose outcome is awaited.
    pub closed spec fn next(&self) -> nat {
        self.next as nat
    }

    /// The messages of the providers that failed so far.
    pub closed spec fn failures(&self) -> Seq<Seq<char>> {
        self.failures@
    }

    pub closed spec fn wf(&self) -> bool {
        &&& self.next == self.failures@.len()
        &&& self.message@ == joined(self.failures@)
    }

    /// A chain of `len` providers, none asked yet.
    pub fn new(len: usize) -> (r: ChainResolver)
        ensures
            r.wf(),
            r.len() == len,
            r.next() == 0,
            r.failures() == Seq::<Seq<char>>::empty(),
    {
        ChainResolver { len, next: 0, message: String::new(), failures: Ghost(Seq::empty()) }
    }

    fn aggregate(&self) -> (r: CredentialsError)
        requires
            self.wf(),
        ensures
            r.kind == ErrorKind::AggregateChain,
            r.message@ == aggregate_message(self.failures()),
    {
        proof {
            reveal_strlit("No credentials found in any provider: ");
        }
        let message = String::from_str("No credentials found in any provider: ").concat(
            self.message.as_str(),
        );
        CredentialsError::new(ErrorKind::AggregateChain, message)
    }

    /// The first action: ask the provider of highest precedence, or fail at
    /// once when the chain is empty.
    pub fn start(&self) -> (a: ChainAction)
        requires
            self.wf(),
            self.next() == 0,
        ensures
            self.len() > 0 ==> a == ChainAction::Try(0),
            self.len() == 0 ==> match a {
                ChainAction::Fail(e) => e.kind == ErrorKind::AggregateChain && e.message@
                    == aggregate_message(Seq::empty()),
                _ => false,
            },
    {
        if self.len > 0 {
            ChainAction::Try(0)
        } else {
            ChainAction::Fail(self.aggregate())
        }
    }

    /// Takes the outcome of the provider at `next()`: a success ends the
    /// chain with its credentials; a failure is recorded, and the next
    /// provider is asked, or, after the last, the chain fails with every
    /// recorded message.
    pub fn step(&mut self, outcome: Result<Credentials, CredentialsError>) -> (a: ChainAction)
        requires
            old(self).wf(),
            old(self).next() < old(self).len(),
        ensures
            final(self).wf(),
            step_post(*old(self), outcome, *final(self), a),
    {
        match outcome {
            Ok(c) => ChainAction::Done(c),
            Err(e) => {
                proof {
                    reveal_strlit("; ");
                }
                if self.next > 0 {
                    self.message.append("; ");
                }
                self.message.append(e.message.as_str());
                self.failures = Ghost(self.failures@.push(e.message@));
                self.next = self.next + 1;
                proof {
                    let fs = self.failures@;
                    assert(fs.drop_last() =~= old(self).failures@);
                }
                if self.next < self.len {
                    ChainAction::Try(self.next)
                } else {
                    ChainAction::Fail(self.aggregate())
                }
            },
        }
    }
}

} // verus!
