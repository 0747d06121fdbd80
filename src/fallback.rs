//! The fallback fetcher as a state machine. The caller performs each
//! requested attempt and reports its outcome; the machine decides what comes
//! next. Providers are tried one at a time in priority order, the first
//! success wins, and the mock reading is used when none succeeds.

use vstd::prelude::*;
use crate::clock::{fresh_sensor_id, now_timestamp};
use crate::provider::{FetchError, Provider};
use crate::snapshot::{is_mock, mock_snapshot, Snapshot};

verus! {

/// What the fetcher asks for next.
#[derive(Clone, Debug, PartialEq)]
pub enum FetchAction {
    /// Ask this provider and report the outcome to `after_attempt`.
    Attempt(Provider),
    /// This snapshot is the cycle's reading.
    Deliver(Snapshot),
    /// No provider yielded a reading: use the mock reading.
    UseMock,
}

/// Position of `p` in the priority order.
pub open spec fn rank(p: Provider) -> nat {
    match p {
        Provider::OpenWeather => 0,
        Provider::IqAir => 1,
        Provider::Doe => 2,
    }
}

/// The provider after `p` in the priority order, if any.
pub open spec fn next_in_order(p: Provider) -> Option<Provider> {
    match p {
        Provider::OpenWeather => Some(Provider::IqAir),
        Provider::IqAir => Some(Provider::Doe),
        Provider::Doe => None,
    }
}

/// The first action of a fetch.
pub open spec fn first_action(use_real_apis: bool) -> FetchAction {
    if use_real_apis {
        FetchAction::Attempt(Provider::OpenWeather)
    } else {
        FetchAction::UseMock
    }
}

/// The action after provider `tried` gave `outcome`.
pub open spec fn next_action(tried: Provider, outcome: Result<Snapshot, FetchError>) -> FetchAction {
    match outcome {
        Ok(s) => FetchAction::Deliver(s),
        Err(_) => match next_in_order(tried) {
            Some(p) => FetchAction::Attempt(p),
            None => FetchAction::UseMock,
        },
    }
}

/// Number of attempts that `a` may still lead to.
pub open spec fn attempts_left(a: FetchAction) -> nat {
    match a {
        FetchAction::Attempt(p) => (3 - rank(p)) as nat,
        _ => 0,
    }
}

/// The snapshot a fetch ends with from action `a`, when provider `p` would
/// answer `outcomes[rank(p)]` and the mock reading is `mock`.
pub open spec fn settle(a: FetchAction, outcomes: Seq<Result<Snapshot, FetchError>>, mock: Snapshot) -> Snapshot
    decreases attempts_left(a),
{
    match a {
        FetchAction::Deliver(s) => s,
        FetchAction::UseMock => mock,
        FetchAction::Attempt(p) => settle(next_action(p, outcomes[rank(p) as int]), outcomes, mock),
    }
}

/// The providers asked, in order, on the way from `a` to its end.
pub open spec fn asked(a: FetchAction, outcomes: Seq<Result<Snapshot, FetchError>>) -> Seq<Provider>
    decreases attempts_left(a),
{
    match a {
        FetchAction::Attempt(p) => seq![p] + asked(next_action(p, outcomes[rank(p) as int]), outcomes),
        _ => Seq::empty(),
    }
}

/// The snapshot a whole fetch ends with.
pub open spec fn fetch_result(
    use_real_apis: bool,
    outcomes: Seq<Result<Snapshot, FetchError>>,
    mock: Snapshot,
) -> Snapshot {
    settle(first_action(use_real_apis), outcomes, mock)
}

/// Starts a fetch: the first provider when real providers are in use,
/// otherwise straight to the mock reading.
pub fn begin_fetch(use_real_apis: bool) -> (r: FetchAction)
    ensures
        r == first_action(use_real_apis),
{
    if use_real_apis {
        FetchAction::Attempt(Provider::OpenWeather)
    } else {
        FetchAction::UseMock
    }
}

/// Continues a fetch after provider `tried` gave `outcome`: a success is
/// delivered, a failure moves on to the next provider or to the mock.
pub fn after_attempt(tried: Provider, outcome: Result<Snapshot, FetchError>) -> (r: FetchAction)
    ensures
        r == next_action(tried, outcome),
{
    match outcome {
        Ok(s) => FetchAction::Deliver(s),
        Err(_) => match tried {
            Provider::OpenWeather => FetchAction::Attempt(Provider::IqAir),
            Provider::IqAir => FetchAction::Attempt(Provider::Doe),
            Provider::Doe => FetchAction::UseMock,
        },
    }
}

/// The mock reading, stamped now with a freshly drawn identifier.
pub fn mock_snapshot_now() -> (r: Snapshot)
    ensures
        is_mock(r, r.timestamp, r.sensor_id@),
        r.sensor_id@.len() == 36,
{
    let timestamp = now_timestamp();
    let id = fresh_sensor_id();
    mock_snapshot(timestamp, id)
}

/// With real providers in use, when OpenWeather succeeds its snapshot is
/// the result and no other provider is asked, whatever the others would give.
pub proof fn lemma_priority_order(outcomes: Seq<Result<Snapshot, FetchError>>, mock: Snapshot, s: Snapshot)
    requires
        outcomes.len() == 3,
        outcomes[0] == Ok::<Snapshot, FetchError>(s),
    ensures
        fetch_result(true, outcomes, mock) == s,
        asked(first_action(true), outcomes) == seq![Provider::OpenWeather],
{
    assert(settle(FetchAction::Deliver(s), outcomes, mock) == s);
    assert(asked(FetchAction::Deliver(s), outcomes) == Seq::<Provider>::empty());
    assert(asked(first_action(true), outcomes) =~= seq![Provider::OpenWeather]);
}

/// When every provider fails or is unconfigured, the fetch still ends with
/// a snapshot: the mock reading, after asking each provider once in order.
pub proof fn lemma_exhaustion_yields_mock(outcomes: Seq<Result<Snapshot, FetchError>>, mock: Snapshot)
    requires
        outcomes.len() == 3,
        forall|i: int| 0 <= i < 3 ==> (#[trigger] outcomes[i]) is Err,
    ensures
        fetch_result(true, outcomes, mock) == mock,
        asked(first_action(true), outcomes) == seq![Provider::OpenWeather, Provider::IqAir, Provider::Doe],
{
    assert(outcomes[0] is Err);
    assert(outcomes[1] is Err);
    assert(outcomes[2] is Err);
    let a1 = FetchAction::Attempt(Provider::IqAir);
    let a2 = FetchAction::Attempt(Provider::Doe);
    assert(asked(FetchAction::UseMock, outcomes) == Seq::<Provider>::empty());
    assert(settle(FetchAction::UseMock, outcomes, mock) == mock);
    assert(settle(a2, outcomes, mock) == mock);
    assert(settle(a1, outcomes, mock) == mock);
    assert(next_action(Provider::Doe, outcomes[2]) == FetchAction::UseMock);
    assert(asked(a2, outcomes) == seq![Provider::Doe] + asked(FetchAction::UseMock, outcomes));
    assert(asked(a2, outcomes) =~= seq![Provider::Doe]);
    assert(asked(a1, outcomes) =~= seq![Provider::IqAir, Provider::Doe]);
    assert(asked(first_action(true), outcomes) =~= seq![Provider::OpenWeather, Provider::IqAir, Provider::Doe]);
}

/// With real providers off, the fetch is the mock reading and asks no one.
pub proof fn lemma_mock_when_disabled(outcomes: Seq<Result<Snapshot, FetchError>>, mock: Snapshot)
    ensures
        fetch_result(false, outcomes, mock) == mock,
        asked(first_action(false), outcomes) == Seq::<Provider>::empty(),
{
}

/// The fetch ends with the first success in priority order, or with the
/// mock reading when there is none.
pub proof fn lemma_first_success_wins(outcomes: Seq<Result<Snapshot, FetchError>>, mock: Snapshot, i: int)
    requires
        outcomes.len() == 3,
        0 <= i < 3,
        outcomes[i] is Ok,
        forall|j: int| 0 <= j < i ==> (#[trigger] outcomes[j]) is Err,
    ensures
        fetch_result(true, outcomes, mock) == outcomes[i]->Ok_0,
{
    let s = outcomes[i]->Ok_0;
    let a1 = FetchAction::Attempt(Provider::IqAir);
    let a2 = FetchAction::Attempt(Provider::Doe);
    assert(settle(FetchAction::Deliver(s), outcomes, mock) == s);
    if i == 2 {
        assert(outcomes[0] is Err);
        assert(outcomes[1] is Err);
        assert(settle(a2, outcomes, mock) == s);
        assert(settle(a1, outcomes, mock) == s);
    } else if i == 1 {
        assert(outcomes[0] is Err);
        assert(settle(a1, outcomes, mock) == s);
    }
}

} // verus!
