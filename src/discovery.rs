//! Sequential fallback over a fixed list of candidates.
//!
//! Scheme discovery and authentication discovery both try candidates one at a
//! time, in a fixed priority order, and stop at the first one whose probe
//! succeeds. [`Search`] makes those decisions; the caller performs each probe
//! and reports its outcome with [`Search::record`].
use vstd::prelude::*;

verus! {

/// A transport scheme for reaching a host.
#[derive(PartialEq, Eq, Structural, Clone, Copy, Debug)]
pub enum Scheme {
    /// Encrypted transport.
    Https,
    /// Plaintext transport.
    Http,
}

/// The order in which transport schemes are tried: encrypted first.
pub open spec fn scheme_order() -> Seq<Scheme> {
    seq![Scheme::Https, Scheme::Http]
}

/// Number of transport schemes that are tried.
pub const SCHEME_COUNT: usize = 2;

impl Scheme {
    /// The scheme's name as written in an address.
    pub open spec fn spec_name(self) -> Seq<char> {
        match self {
            Scheme::Https => seq!['h', 't', 't', 'p', 's'],
            Scheme::Http => seq!['h', 't', 't', 'p'],
        }
    }

    /// The scheme's name as written in an address.
    pub fn name(&self) -> (r: &'static str)
        ensures
            r@ == self.spec_name(),
    {
        match self {
            Scheme::Https => {
                proof {
                    reveal_strlit("https");
                }
                "https"
            },
            Scheme::Http => {
                proof {
                    reveal_strlit("http");
                }
                "http"
            },
        }
    }

    /// The scheme tried at position `i` of a scheme search.
    pub fn at(i: usize) -> (r: Scheme)
        requires
            i < SCHEME_COUNT,
        ensures
            r == scheme_order()[i as int],
    {
        if i == 0 {
            Scheme::Https
        } else {
            Scheme::Http
        }
    }
}

/// A kind of authentication method that discovery can select.
#[derive(PartialEq, Eq, Structural, Clone, Copy, Debug)]
pub enum AuthKind {
    Digest,
    Basic,
    Anonymous,
}

/// The order in which authentication methods are tried: digest, then basic,
/// then anonymous.
pub open spec fn auth_order() -> Seq<AuthKind> {
    seq![AuthKind::Digest, AuthKind::Basic, AuthKind::Anonymous]
}

/// Number of authentication methods that are tried.
pub const AUTH_KIND_COUNT: usize = 3;

impl AuthKind {
    /// The method tried at position `i` of an authentication search.
    pub fn at(i: usize) -> (r: AuthKind)
        requires
            i < AUTH_KIND_COUNT,
        ensures
            r == auth_order()[i as int],
    {
        if i == 0 {
            AuthKind::Digest
        } else if i == 1 {
            AuthKind::Basic
        } else {
            AuthKind::Anonymous
        }
    }
}

/// What a search asks its driver to do next.
#[derive(PartialEq, Eq, Structural, Clone, Copy, Debug)]
pub enum Step {
    /// Probe the candidate at this position.
    Probe(usize),
    /// The candidate at this position was accepted; the search is over.
    Accept(usize),
    /// Every candidate failed; the search is over.
    GiveUp,
}

/// State of a search over `count` candidates, tried in order of position.
#[derive(Clone, Copy, Debug)]
pub struct Search {
    count: usize,
    failed: usize,
    accepted: bool,
}

impl Search {
    pub closed spec fn wf(self) -> bool {
        &&& self.failed <= self.count
        &&& self.accepted ==> self.failed < self.count
    }

    /// Number of candidates.
    pub closed spec fn count(self) -> nat {
        self.count as nat
    }

    /// The step the search asks for in this state.
    pub closed spec fn step(self) -> Step {
        if self.accepted {
            Step::Accept(self.failed)
        } else if self.failed < self.count {
            Step::Probe(self.failed)
        } else {
            Step::GiveUp
        }
    }

    /// The state after the probe asked for has come back with `succeeded`.
    pub closed spec fn after(self, succeeded: bool) -> Search {
        if succeeded {
            Search { accepted: true, ..self }
        } else {
            Search { failed: (self.failed + 1) as usize, ..self }
        }
    }

    /// How many probes can still be asked for at most.
    pub closed spec fn remaining(self) -> nat {
        if self.accepted || self.failed > self.count {
            0
        } else {
            (self.count - self.failed) as nat
        }
    }

    /// The state of a search over `count` candidates before any probe.
    pub closed spec fn start(count: usize) -> Search {
        Search { count, failed: 0, accepted: false }
    }

    /// A search that has probed nothing yet.
    pub fn new(count: usize) -> (r: Search)
        ensures
            r == Search::start(count),
            r.wf(),
            r.count() == count,
            r.step() == (if count > 0 { Step::Probe(0) } else { Step::GiveUp }),
    {
        Search { count, failed: 0, accepted: false }
    }

    /// The step to take now.
    pub fn next(&self) -> (r: Step)
        requires
            self.wf(),
        ensures
            r == self.step(),
    {
        if self.accepted {
            Step::Accept(self.failed)
        } else if self.failed < self.count {
            Step::Probe(self.failed)
        } else {
            Step::GiveUp
        }
    }

    /// Report the outcome of the probe that [`Search::next`] asked for.
    ///
    /// A success accepts the probed candidate; a failure moves on to the next
    /// candidate, or gives up after the last one.
    pub fn record(self, succeeded: bool) -> (r: Search)
        requires
            self.wf(),
            self.step() is Probe,
        ensures
            r == self.after(succeeded),
            r.wf(),
            r.count() == self.count(),
            ({
                let i = self.step()->Probe_0;
                if succeeded {
                    r.step() == Step::Accept(i)
                } else if i + 1 < self.count() {
                    r.step() == Step::Probe((i + 1) as usize)
                } else {
                    r.step() == Step::GiveUp
                }
            }),
    {
        if succeeded {
            Search { accepted: true, ..self }
        } else {
            Search { failed: self.failed + 1, ..self }
        }
    }
}

/// The state a search reaches when the candidate at position `i` answers
/// `results[i]`, driven until it stops asking for probes.
pub open spec fn run(s: Search, results: Seq<bool>) -> Search
    decreases s.remaining(),
{
    if s.step() is Probe && s.wf() && s.after(results[s.step()->Probe_0 as int]).remaining()
        < s.remaining() {
        run(s.after(results[s.step()->Probe_0 as int]), results)
    } else {
        s
    }
}

/// The positions probed, in order, by the drive that [`run`] describes.
pub open spec fn probes(s: Search, results: Seq<bool>) -> Seq<usize>
    decreases s.remaining(),
{
    if s.step() is Probe && s.wf() && s.after(results[s.step()->Probe_0 as int]).remaining()
        < s.remaining() {
        seq![s.step()->Probe_0] + probes(s.after(results[s.step()->Probe_0 as int]), results)
    } else {
        Seq::empty()
    }
}

/// The first position at or after `from` whose probe succeeds, or the length
/// of `results` when there is none.
pub open spec fn first_success(results: Seq<bool>, from: nat) -> nat
    decreases results.len() - from,
{
    if from >= results.len() {
        results.len()
    } else if results[from as int] {
        from
    } else {
        first_success(results, from + 1)
    }
}

proof fn lemma_first_success(results: Seq<bool>, from: nat)
    requires
        from <= results.len(),
    ensures
        from <= first_success(results, from) <= results.len(),
        first_success(results, from) < results.len() ==> results[first_success(results, from) as int],
        forall|j: int| from <= j < first_success(results, from) ==> !results[j],
    decreases results.len() - from,
{
    if from < results.len() && !results[from as int] {
        lemma_first_success(results, from + 1);
    }
}

proof fn lemma_run_from(s: Search, results: Seq<bool>)
    requires
        s.wf(),
        !s.accepted,
        results.len() == s.count(),
    ensures
        ({
            let k = first_success(results, s.failed as nat);
            &&& run(s, results).step() == (if k < s.count() {
                Step::Accept(k as usize)
            } else {
                Step::GiveUp
            })
            &&& probes(s, results) == Seq::new(
                ((if k < s.count() { k + 1 } else { k }) - s.failed) as nat,
                |j: int| (s.failed + j) as usize,
            )
        }),
    decreases s.remaining(),
{
    let k = first_success(results, s.failed as nat);
    lemma_first_success(results, s.failed as nat);
    if s.failed < s.count {
        let i = s.failed;
        let t = s.after(results[i as int]);
        assert(t.remaining() < s.remaining());
        if results[i as int] {
            assert(run(t, results) == t);
            assert(run(s, results) == t);
            assert(probes(t, results) == Seq::<usize>::empty());
            assert(probes(s, results) =~= Seq::new(1, |j: int| (s.failed + j) as usize));
        } else {
            assert(t.failed == i + 1 && !t.accepted);
            assert(k == first_success(results, t.failed as nat));
            lemma_run_from(t, results);
            assert(probes(s, results) == seq![i] + probes(t, results));
            assert(run(s, results) == run(t, results));
            let n: nat = ((if k < s.count() { k + 1 } else { k }) - s.failed) as nat;
            assert(probes(t, results).len() + 1 == n);
            assert forall|j: int| 0 < j < n implies #[trigger] probes(s, results)[j] == (s.failed + j) as usize by {
                assert(probes(s, results)[j] == probes(t, results)[j - 1]);
            }
            assert(probes(s, results) =~= Seq::new(
                ((if k < s.count() { k + 1 } else { k }) - s.failed) as nat,
                |j: int| (s.failed + j) as usize,
            ));
        }
    } else {
        assert(probes(s, results) =~= Seq::<usize>::empty());
    }
}

/// A search over candidates whose probes answer `results` probes the
/// candidates in order of position, starting with the first, one at a time,
/// and stops at the first success: it accepts the first candidate whose probe
/// succeeds, having probed no candidate after it, and gives up, having probed
/// each candidate exactly once, when none succeeds.
pub proof fn lemma_search_stops_at_first_success(count: usize, results: Seq<bool>)
    requires
        results.len() == count,
    ensures
        ({
            let k = first_success(results, 0);
            &&& forall|j: int| 0 <= j < k ==> !results[j]
            &&& k < count ==> results[k as int]
            &&& run(Search::start(count), results).step() == (if k < count {
                Step::Accept(k as usize)
            } else {
                Step::GiveUp
            })
            &&& probes(Search::start(count), results) == Seq::new(
                if k < count { k + 1 } else { k },
                |j: int| j as usize,
            )
        }),
{
    let s = Search::start(count);
    lemma_first_success(results, 0);
    lemma_run_from(s, results);
    let k = first_success(results, 0);
    assert(probes(s, results) =~= Seq::new(
        if k < count { k + 1 } else { k },
        |j: int| j as usize,
    ));
}

/// Scheme discovery probes encrypted transport first and plaintext second. It
/// accepts the first scheme whose probe succeeds; when both probes fail it
/// gives up, having probed each scheme once and nothing more.
pub proof fn lemma_scheme_discovery(results: Seq<bool>)
    requires
        results.len() == SCHEME_COUNT,
    ensures
        scheme_order()[0] == Scheme::Https,
        scheme_order()[1] == Scheme::Http,
        results[0] ==> run(Search::start(SCHEME_COUNT), results).step() == Step::Accept(0)
            && probes(Search::start(SCHEME_COUNT), results) == seq![0usize],
        !results[0] && results[1] ==> run(Search::start(SCHEME_COUNT), results).step()
            == Step::Accept(1) && probes(Search::start(SCHEME_COUNT), results) == seq![0usize, 1],
        !results[0] && !results[1] ==> run(Search::start(SCHEME_COUNT), results).step()
            == Step::GiveUp && probes(Search::start(SCHEME_COUNT), results) == seq![0usize, 1],
{
    lemma_search_stops_at_first_success(SCHEME_COUNT, results);
    let p = probes(Search::start(SCHEME_COUNT), results);
    if results[0] {
        assert(first_success(results, 0) == 0);
        assert(p =~= seq![0usize]);
    } else {
        assert(first_success(results, 0) == first_success(results, 1));
        if results[1] {
            assert(first_success(results, 1) == 1);
        } else {
            assert(first_success(results, 2) == 2);
        }
        assert(p =~= seq![0usize, 1]);
    }
}

/// Authentication discovery probes digest, then basic, then anonymous, and
/// accepts the first method whose probe succeeds without probing any later
/// one: where only basic succeeds, basic is selected, after digest failed.
/// When all three fail it gives up after three probes.
pub proof fn lemma_auth_discovery(results: Seq<bool>)
    requires
        results.len() == AUTH_KIND_COUNT,
    ensures
        auth_order()[0] == AuthKind::Digest,
        auth_order()[1] == AuthKind::Basic,
        auth_order()[2] == AuthKind::Anonymous,
        results[0] ==> run(Search::start(AUTH_KIND_COUNT), results).step() == Step::Accept(0)
            && probes(Search::start(AUTH_KIND_COUNT), results) == seq![0usize],
        !results[0] && results[1] ==> run(Search::start(AUTH_KIND_COUNT), results).step()
            == Step::Accept(1) && probes(Search::start(AUTH_KIND_COUNT), results) == seq![
            0usize,
            1,
        ],
        !results[0] && !results[1] && results[2] ==> run(
            Search::start(AUTH_KIND_COUNT),
            results,
        ).step() == Step::Accept(2) && probes(Search::start(AUTH_KIND_COUNT), results)
            == seq![0usize, 1, 2],
        !results[0] && !results[1] && !results[2] ==> run(
            Search::start(AUTH_KIND_COUNT),
            results,
        ).step() == Step::GiveUp && probes(Search::start(AUTH_KIND_COUNT), results) == seq![
            0usize,
            1,
            2,
        ],
{
    lemma_search_stops_at_first_success(AUTH_KIND_COUNT, results);
    let p = probes(Search::start(AUTH_KIND_COUNT), results);
    if results[0] {
        assert(first_success(results, 0) == 0);
        assert(p =~= seq![0usize]);
    } else {
        assert(first_success(results, 0) == first_success(results, 1));
        if results[1] {
            assert(first_success(results, 1) == 1);
            assert(p =~= seq![0usize, 1]);
        } else {
            assert(first_success(results, 1) == first_success(results, 2));
            if results[2] {
                assert(first_success(results, 2) == 2);
            } else {
                assert(first_success(results, 3) == 3);
            }
            assert(p =~= seq![0usize, 1, 2]);
        }
    }
}

} // verus!
