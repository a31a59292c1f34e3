//! The credential lifecycle: a cache slot that is empty, waiting on one
//! in-flight token exchange, or holding a credential until it expires.
use vstd::prelude::*;

verus! {

/// Seconds for which a freshly minted credential is trusted: 59 minutes, one
/// minute short of the provider's usual hour.
pub const TOKEN_LIFETIME_SECS: i64 = 3540;

/// A bearer token and the instant (seconds since the Unix epoch) from which it
/// must no longer be used.
pub struct GCSCredential {
    pub token: String,
    pub expiration_time: i64,
}

impl GCSCredential {
    /// The credential may still be presented at `now`.
    pub open spec fn valid_at(&self, now: i64) -> bool {
        now < self.expiration_time
    }

    /// Whether the credential may still be presented at `now`.
    pub fn is_valid_at(&self, now: i64) -> (r: bool)
        ensures
            r == self.valid_at(now),
    {
        now < self.expiration_time
    }

    /// A copy of the credential.
    pub fn duplicate(&self) -> (r: GCSCredential)
        ensures
            r == *self,
    {
        GCSCredential { token: self.token.clone(), expiration_time: self.expiration_time }
    }
}

/// The shared credential slot.
pub enum CredentialState {
    /// No credential has been obtained, or the last exchange failed.
    Empty,
    /// The exchange numbered `flight` is under way; every caller waits on it.
    Refreshing { flight: u64 },
    /// A credential obtained earlier.
    Valid { credential: GCSCredential },
}

/// What a caller asking for credentials is to do next.
pub enum Access {
    /// Use this credential now: no exchange is needed.
    Ready { credential: GCSCredential },
    /// Wait for the outcome of the exchange already under way.
    Join { flight: u64 },
    /// Start the exchange numbered `flight`, asserting expiry at `expires_at`;
    /// report its outcome through `complete`.
    Refresh { flight: u64, expires_at: i64 },
}

/// The abstract state of a provider.
pub struct ProviderModel {
    pub read_only: bool,
    pub credentials_path: Seq<char>,
    pub state: CredentialState,
    pub next_flight: u64,
}

/// The slot must be refilled before a caller at `now` can be served.
pub open spec fn needs_refresh(state: CredentialState, now: i64) -> bool {
    match state {
        CredentialState::Empty => true,
        CredentialState::Refreshing { .. } => false,
        CredentialState::Valid { credential } => !credential.valid_at(now),
    }
}

/// The expiry asserted for a credential minted at `now`; it saturates at the
/// last representable instant.
pub open spec fn expiry_after(now: i64) -> i64 {
    if now <= i64::MAX - TOKEN_LIFETIME_SECS {
        (now + TOKEN_LIFETIME_SECS) as i64
    } else {
        i64::MAX
    }
}

/// The flight number that follows `f`, wrapping round.
pub open spec fn following_flight(f: u64) -> u64 {
    if f == u64::MAX {
        0
    } else {
        (f + 1) as u64
    }
}

/// One request for credentials at `now`: the next model and what the caller does.
pub open spec fn access_step(m: ProviderModel, now: i64) -> (ProviderModel, Access) {
    match m.state {
        CredentialState::Refreshing { flight } => (m, Access::Join { flight }),
        CredentialState::Valid { credential } if credential.valid_at(now) => (
            m,
            Access::Ready { credential },
        ),
        _ => (
            ProviderModel {
                state: CredentialState::Refreshing { flight: m.next_flight },
                next_flight: following_flight(m.next_flight),
                ..m
            },
            Access::Refresh { flight: m.next_flight, expires_at: expiry_after(now) },
        ),
    }
}

/// The slot after the exchange `flight` ended with `outcome`. An outcome for
/// any exchange but the one under way leaves the slot as it is.
pub open spec fn completion_step<E>(
    state: CredentialState,
    flight: u64,
    outcome: Result<GCSCredential, E>,
) -> CredentialState {
    match state {
        CredentialState::Refreshing { flight: f } if f == flight => match outcome {
            Ok(credential) => CredentialState::Valid { credential },
            Err(_) => CredentialState::Empty,
        },
        _ => state,
    }
}

/// Requests at the instants `times`, in order, with no exchange ending in
/// between: the final model and the access handed to each request.
pub open spec fn run_accesses(m: ProviderModel, times: Seq<i64>) -> (ProviderModel, Seq<Access>)
    decreases times.len(),
{
    if times.len() == 0 {
        (m, Seq::empty())
    } else {
        let (m1, a) = access_step(m, times[0]);
        let (m2, rest) = run_accesses(m1, times.drop_first());
        (m2, seq![a] + rest)
    }
}

/// The number of accesses that start an exchange.
pub open spec fn exchanges_started(actions: Seq<Access>) -> nat
    decreases actions.len(),
{
    if actions.len() == 0 {
        0
    } else {
        (if actions[0] is Refresh { 1nat } else { 0nat }) + exchanges_started(
            actions.drop_first(),
        )
    }
}

/// While an exchange is under way, every request joins it and nothing changes.
proof fn lemma_refreshing_joins(m: ProviderModel, times: Seq<i64>)
    requires
        m.state is Refreshing,
    ensures
        run_accesses(m, times).0 == m,
        run_accesses(m, times).1.len() == times.len(),
        forall|i: int|
            0 <= i < times.len() ==> run_accesses(m, times).1[i] == (Access::Join {
                flight: m.state->Refreshing_flight,
            }),
        exchanges_started(run_accesses(m, times).1) == 0,
    decreases times.len(),
{
    if times.len() > 0 {
        lemma_refreshing_joins(m, times.drop_first());
        let rest = run_accesses(m, times.drop_first()).1;
        let all = run_accesses(m, times).1;
        assert(all.drop_first() =~= rest);
    }
}

/// Single flight: requests that find the slot needing a refill, and all that
/// follow before the exchange ends, start exactly one exchange between them.
/// The first request starts it and every later one joins that same exchange,
/// so all of them observe its one outcome.
pub proof fn lemma_single_flight(m: ProviderModel, times: Seq<i64>)
    requires
        times.len() > 0,
        needs_refresh(m.state, times[0]),
    ensures
        exchanges_started(run_accesses(m, times).1) == 1,
        run_accesses(m, times).1[0] == (Access::Refresh {
            flight: m.next_flight,
            expires_at: expiry_after(times[0]),
        }),
        forall|i: int|
            1 <= i < times.len() ==> run_accesses(m, times).1[i] == (Access::Join {
                flight: m.next_flight,
            }),
        run_accesses(m, times).0.state == (CredentialState::Refreshing { flight: m.next_flight }),
{
    let m1 = access_step(m, times[0]).0;
    lemma_refreshing_joins(m1, times.drop_first());
    let all = run_accesses(m, times).1;
    assert(all.drop_first() =~= run_accesses(m1, times.drop_first()).1);
}

/// Concurrent requests on an empty slot start exactly one exchange, and all of
/// them wait on that exchange.
pub proof fn lemma_empty_slot_single_exchange(m: ProviderModel, times: Seq<i64>)
    requires
        times.len() > 0,
        m.state is Empty,
    ensures
        exchanges_started(run_accesses(m, times).1) == 1,
        forall|i: int|
            0 <= i < times.len() ==> (#[trigger] run_accesses(m, times).1[i]) is Refresh
                || run_accesses(m, times).1[i] is Join,
        forall|i: int|
            0 <= i < times.len() ==> {
                let a = #[trigger] run_accesses(m, times).1[i];
                (a is Refresh && a->Refresh_flight == m.next_flight) || (a is Join
                    && a->Join_flight == m.next_flight)
            },
{
    lemma_single_flight(m, times);
}

/// A credential is never handed out at or after its expiry: requests from
/// that instant on start exactly one new exchange and then join it.
pub proof fn lemma_expired_credential_refreshes_once(
    m: ProviderModel,
    credential: GCSCredential,
    times: Seq<i64>,
)
    requires
        m.state == (CredentialState::Valid { credential }),
        times.len() > 0,
        times[0] >= credential.expiration_time,
    ensures
        exchanges_started(run_accesses(m, times).1) == 1,
        run_accesses(m, times).1[0] is Refresh,
        forall|i: int| 0 <= i < times.len() ==> !(#[trigger] run_accesses(m, times).1[i] is Ready),
{
    lemma_single_flight(m, times);
}

/// Requests while a credential is valid are served from it without any
/// exchange, and leave the slot as it was.
pub proof fn lemma_valid_credential_no_exchange(
    m: ProviderModel,
    credential: GCSCredential,
    times: Seq<i64>,
)
    requires
        m.state == (CredentialState::Valid { credential }),
        forall|i: int| 0 <= i < times.len() ==> #[trigger] times[i] < credential.expiration_time,
    ensures
        exchanges_started(run_accesses(m, times).1) == 0,
        run_accesses(m, times).0 == m,
        run_accesses(m, times).1.len() == times.len(),
        forall|i: int|
            0 <= i < times.len() ==> #[trigger] run_accesses(m, times).1[i] == (Access::Ready {
                credential,
            }),
    decreases times.len(),
{
    if times.len() > 0 {
        let rest = times.drop_first();
        assert forall|i: int| 0 <= i < rest.len() implies #[trigger] rest[i]
            < credential.expiration_time by {
            assert(rest[i] == times[i + 1]);
        }
        lemma_valid_credential_no_exchange(m, credential, rest);
        assert(run_accesses(m, times).1.drop_first() =~= run_accesses(m, rest).1);
        assert forall|i: int| 0 <= i < times.len() implies #[trigger] run_accesses(m, times).1[i]
            == (Access::Ready { credential }) by {
            if i > 0 {
                assert(run_accesses(m, times).1[i] == run_accesses(m, rest).1[i - 1]);
            }
        }
    }
}

/// One outcome for all: requests that find the slot needing a refill, and all
/// that follow before the exchange ends, wait on one exchange. When it ends
/// with a credential, every later request before that credential's expiry is
/// served with that same credential and no new exchange; when it fails, the
/// slot is empty again and the next request starts a fresh exchange.
pub proof fn lemma_single_flight_shared_outcome<E>(
    m: ProviderModel,
    times: Seq<i64>,
    outcome: Result<GCSCredential, E>,
    later: Seq<i64>,
)
    requires
        times.len() > 0,
        needs_refresh(m.state, times[0]),
    ensures
        forall|i: int|
            0 <= i < times.len() ==> {
                let a = #[trigger] run_accesses(m, times).1[i];
                (a is Refresh && a->Refresh_flight == m.next_flight) || (a is Join
                    && a->Join_flight == m.next_flight)
            },
        ({
            let done = ProviderModel {
                state: completion_step(run_accesses(m, times).0.state, m.next_flight, outcome),
                ..run_accesses(m, times).0
            };
            &&& outcome is Ok ==> done.state == (CredentialState::Valid {
                credential: outcome->Ok_0,
            })
            &&& (outcome is Ok && forall|j: int|
                0 <= j < later.len() ==> #[trigger] later[j] < outcome->Ok_0.expiration_time)
                ==> exchanges_started(run_accesses(done, later).1) == 0 && forall|j: int|
                0 <= j < later.len() ==> #[trigger] run_accesses(done, later).1[j] == (
                Access::Ready { credential: outcome->Ok_0 })
            &&& outcome is Err ==> done.state is Empty && (later.len() > 0 ==> exchanges_started(
                run_accesses(done, later).1,
            ) == 1)
        }),
{
    lemma_single_flight(m, times);
    let done = ProviderModel {
        state: completion_step(run_accesses(m, times).0.state, m.next_flight, outcome),
        ..run_accesses(m, times).0
    };
    match outcome {
        Ok(c) => {
            if forall|j: int| 0 <= j < later.len() ==> #[trigger] later[j] < c.expiration_time {
                lemma_valid_credential_no_exchange(done, c, later);
            }
        },
        Err(_) => {
            if later.len() > 0 {
                lemma_single_flight(done, later);
            }
        },
    }
}

/// Hands out bearer credentials for a service account, minting a new one only
/// when none is held or the one held has expired, and never running two
/// exchanges at once.
pub struct GCSCredentialProvider {
    read_only: bool,
    credentials_path: String,
    state: CredentialState,
    next_flight: u64,
}

impl View for GCSCredentialProvider {
    type V = ProviderModel;

    closed spec fn view(&self) -> ProviderModel {
        ProviderModel {
            read_only: self.read_only,
            credentials_path: self.credentials_path@,
            state: self.state,
            next_flight: self.next_flight,
        }
    }
}

impl GCSCredentialProvider {
    /// A provider with an empty slot, reading the service-account key at
    /// `credentials_path` and asking for read-only access if `read_only`.
    pub fn new(read_only: bool, credentials_path: String) -> (r: GCSCredentialProvider)
        ensures
            r@.read_only == read_only,
            r@.credentials_path == credentials_path@,
            r@.state is Empty,
            r@.next_flight == 0,
    {
        GCSCredentialProvider {
            read_only,
            credentials_path,
            state: CredentialState::Empty,
            next_flight: 0,
        }
    }

    /// Whether the provider asks for read-only access.
    pub fn read_only(&self) -> (r: bool)
        ensures
            r == self@.read_only,
    {
        self.read_only
    }

    /// Where the service-account key is read from.
    pub fn credentials_path(&self) -> (r: &String)
        ensures
            r@ == self@.credentials_path,
    {
        &self.credentials_path
    }

    /// The state of the slot.
    pub fn state(&self) -> (r: &CredentialState)
        ensures
            *r == self@.state,
    {
        &self.state
    }

    /// A request for credentials at `now`. A held credential is handed out only
    /// while `now` is before its expiry; while an exchange is under way every
    /// request joins it; otherwise exactly this request starts a new one.
    pub fn credentials(&mut self, now: i64) -> (r: Access)
        ensures
            (final(self)@, r) == access_step(old(self)@, now),
            r is Ready ==> r->Ready_credential.valid_at(now),
            r is Refresh <==> needs_refresh(old(self)@.state, now),
    {
        match &self.state {
            CredentialState::Refreshing { flight } => {
                return Access::Join { flight: *flight };
            },
            CredentialState::Valid { credential } => {
                if credential.is_valid_at(now) {
                    return Access::Ready { credential: credential.duplicate() };
                }
            },
            CredentialState::Empty => {},
        }
        let flight = self.next_flight;
        self.next_flight = if flight == u64::MAX {
            0
        } else {
            flight + 1
        };
        self.state = CredentialState::Refreshing { flight };
        let expires_at = if now <= i64::MAX - TOKEN_LIFETIME_SECS {
            now + TOKEN_LIFETIME_SECS
        } else {
            i64::MAX
        };
        Access::Refresh { flight, expires_at }
    }

    /// Records how the exchange `flight` ended: a credential fills the slot, a
    /// failure empties it so that the next request tries again.
    pub fn complete<E>(&mut self, flight: u64, outcome: Result<GCSCredential, E>)
        ensures
            final(self)@ == (ProviderModel {
                state: completion_step(old(self)@.state, flight, outcome),
                ..old(self)@
            }),
    {
        let current = match &self.state {
            CredentialState::Refreshing { flight: f } => *f == flight,
            _ => false,
        };
        if current {
            self.state = match outcome {
                Ok(credential) => CredentialState::Valid { credential },
                Err(_) => CredentialState::Empty,
            };
        }
    }
}

} // verus!
