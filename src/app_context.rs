use vstd::prelude::*;

use crate::token_key::{
    generate_random_token_secret_key, get_token_secret_key_from_settings, is_random_token_key,
    token_key_of,
};

verus! {

/// Buffer size and timeouts that every upstream connection uses.
#[derive(Clone, Copy, Debug, PartialEq, Eq, Structural)]
pub struct ConnectionsSettings {
    pub buffer_size: usize,
    pub remote_connect_timeout_ms: u64,
    pub request_timeout_ms: u64,
}

/// Lifecycle of the process.
#[derive(Clone, Copy, Debug, PartialEq, Eq, Structural)]
pub enum AppState {
    Initialized,
    Running,
    ShuttingDown,
}

/// Source of per-request identifiers: it hands out 0, 1, 2, ... and remembers,
/// as ghost state, every value it has handed out.
pub struct IdGenerator {
    next: i64,
    issued: Ghost<Seq<i64>>,
}

impl IdGenerator {
    pub closed spec fn next_id(&self) -> int {
        self.next as int
    }

    /// The identifiers handed out so far, in the order of the calls.
    pub closed spec fn issued(&self) -> Seq<i64> {
        self.issued@
    }

    pub closed spec fn wf(&self) -> bool {
        &&& self.next >= 0
        &&& forall|i: int| 0 <= i < self.issued@.len() ==> #[trigger] self.issued@[i] < self.next
        &&& forall|i: int, j: int|
            0 <= i < j < self.issued@.len() ==> self.issued@[i] < self.issued@[j]
    }

    pub fn new() -> (r: IdGenerator)
        ensures
            r.wf(),
            r.next_id() == 0,
            r.issued() == Seq::<i64>::empty(),
    {
        IdGenerator { next: 0, issued: Ghost(Seq::empty()) }
    }

    /// Whether another identifier can be handed out.
    pub fn has_next_id(&self) -> (r: bool)
        ensures
            r == (self.next_id() < i64::MAX),
    {
        self.next < i64::MAX
    }

    /// Hands out the next identifier.
    pub fn get_id(&mut self) -> (r: i64)
        requires
            old(self).wf(),
            old(self).next_id() < i64::MAX,
        ensures
            final(self).wf(),
            r == old(self).next_id(),
            final(self).next_id() == old(self).next_id() + 1,
            final(self).issued() == old(self).issued().push(r),
    {
        let r = self.next;
        self.next = self.next + 1;
        self.issued = Ghost(self.issued@.push(r));
        r
    }
}

/// Identifiers come out strictly increasing: of any two calls of `get_id`
/// on one generator, the later one returned the larger value.
pub proof fn lemma_ids_strictly_increasing(g: &IdGenerator, i: int, j: int)
    requires
        g.wf(),
        0 <= i < j < g.issued().len(),
    ensures
        g.issued()[i] < g.issued()[j],
        g.issued()[j] < g.next_id(),
{
}

/// Process-wide state shared by every listener and connection.
pub struct AppContext {
    pub http_connections: isize,
    pub id: IdGenerator,
    pub connection_settings: ConnectionsSettings,
    pub token_secret_key: Vec<u8>,
    pub states: AppState,
}

impl AppContext {
    pub closed spec fn wf(&self) -> bool {
        self.id.wf()
    }

    pub closed spec fn next_id(&self) -> int {
        self.id.next_id()
    }

    /// The request identifiers handed out so far, in the order of the calls.
    pub closed spec fn issued_ids(&self) -> Seq<i64> {
        self.id.issued()
    }

    /// Builds the context; the token key is derived from the configured
    /// session key, or drawn at random where none is configured.
    pub fn new(connection_settings: ConnectionsSettings, session_key: Option<&[u8]>) -> (r: Self)
        requires
            session_key matches Some(k) ==> k@.len() > 0,
        ensures
            r.wf(),
            r.http_connections == 0,
            r.next_id() == 0,
            r.issued_ids() == Seq::<i64>::empty(),
            r.connection_settings == connection_settings,
            r.states == AppState::Initialized,
            session_key matches Some(k) ==> r.token_secret_key@ == token_key_of(k@),
            session_key is None ==> is_random_token_key(r.token_secret_key@),
    {
        let token_secret_key = match session_key {
            Some(k) => get_token_secret_key_from_settings(k),
            None => generate_random_token_secret_key(),
        };
        AppContext {
            http_connections: 0,
            id: IdGenerator::new(),
            connection_settings,
            token_secret_key,
            states: AppState::Initialized,
        }
    }

    /// Whether another request identifier can be handed out.
    pub fn has_next_id(&self) -> (r: bool)
        ensures
            r == (self.next_id() < i64::MAX),
    {
        self.id.has_next_id()
    }

    /// Hands out the next per-request identifier.
    pub fn get_id(&mut self) -> (r: i64)
        requires
            old(self).wf(),
            old(self).next_id() < i64::MAX,
        ensures
            final(self).wf(),
            r == old(self).next_id(),
            final(self).next_id() == old(self).next_id() + 1,
            final(self).issued_ids() == old(self).issued_ids().push(r),
            final(self).token_secret_key == old(self).token_secret_key,
            final(self).connection_settings == old(self).connection_settings,
            final(self).http_connections == old(self).http_connections,
            final(self).states == old(self).states,
    {
        self.id.get_id()
    }
}

/// Identifiers handed out by a context come out strictly increasing.
pub proof fn lemma_app_ids_strictly_increasing(app: &AppContext, i: int, j: int)
    requires
        app.wf(),
        0 <= i < j < app.issued_ids().len(),
    ensures
        app.issued_ids()[i] < app.issued_ids()[j],
{
    lemma_ids_strictly_increasing(&app.id, i, j);
}

} // verus!
