//! The pool actor: a state machine that owns at most one resource handle,
//! retains its parsed configuration across supervised restarts, and decides
//! how each submitted one-shot task is dispatched.

use crate::driver::config_parse_ok;
use crate::driver::parse_config;
use vstd::prelude::*;

verus! {

/// The actor's view of the live connection pool: the identity (generation)
/// of the build attempt that produced it. The pool object itself is owned by
/// the runtime shell that drives this state machine; cloning a handle shares
/// the pool, so a handle is a cheap tag.
#[derive(Clone, Copy, PartialEq, Eq, Structural, Debug)]
pub struct ResourceHandle {
    generation: u64,
}

impl ResourceHandle {
    /// Which build attempt produced this handle.
    pub closed spec fn id(self) -> u64 {
        self.generation
    }

    pub fn generation(&self) -> (g: u64)
        ensures
            g == self.id(),
    {
        self.generation
    }
}

/// The mathematical state of a pool actor.
pub ghost struct ActorView {
    /// The connection string the retained configuration was parsed from.
    pub config_src: Seq<char>,
    /// The identity of the live handle, when one is present.
    pub current: Option<u64>,
    /// The identity the next successful build will be given.
    pub next_generation: u64,
}

/// Every handle the actor ever produced is tagged below `next_generation`;
/// this is what makes a post-restart handle distinguishable from every
/// pre-failure one.
pub open spec fn wf(v: ActorView) -> bool {
    v.current matches Some(g) ==> g < v.next_generation
}

/// The supervisor's restart hook: the held handle (if any) is discarded,
/// while the retained configuration and the generation counter survive.
pub open spec fn restart_step(pre: ActorView, post: ActorView) -> bool {
    &&& post.current is None
    &&& post.config_src == pre.config_src
    &&& post.next_generation == pre.next_generation
}

/// A successful handle build: the actor becomes ready with a handle tagged
/// with the next free generation.
pub open spec fn build_ok_step(pre: ActorView, post: ActorView) -> bool {
    &&& post.current == Some(pre.next_generation)
    &&& post.next_generation == pre.next_generation + 1
    &&& post.config_src == pre.config_src
}

/// What dispatching a task with payload `q` against an actor in state `pre`
/// must produce: with a live handle, an invocation of exactly that payload
/// with exactly that handle; without one, a refusal that never touches the
/// payload.
pub open spec fn dispatch_result<F>(pre: ActorView, q: F, r: TaskDispatch<F>) -> bool {
    match pre.current {
        Some(g) => r matches TaskDispatch::Invoke { handle, query } && handle.id() == g
            && query == q,
        None => r is Absent,
    }
}

/// What the runtime shell must do once the asynchronous handle build
/// resolves.
pub enum StartupDirective {
    /// Store the built pool beside the actor and resume the mailbox.
    Resume,
    /// Abort this incarnation: the build itself failed, and the supervisor
    /// is expected to restart the actor from its retained configuration.
    Escalate(tokio_postgres::error::Error),
}

/// A one-shot unit of work. The payload is opaque to the actor: it is never
/// invoked here, only handed out (at most once) by `PostgresActor::handle`.
/// A task is consumed by value when dispatched, so a task value cannot be
/// submitted twice.
pub struct PostgresTask<F> {
    query: F,
}

impl<F> PostgresTask<F> {
    /// The query value the task carries.
    pub closed spec fn payload(self) -> F {
        self.query
    }

    pub fn new(query: F) -> (t: Self)
        ensures
            t.payload() == query,
    {
        PostgresTask { query }
    }
}

/// The dispatch decision for one submitted task.
pub enum TaskDispatch<F> {
    /// Invoke the task's payload with this clone of the live handle.
    Invoke { handle: ResourceHandle, query: F },
    /// No live handle: the payload has been discarded un-invoked, and the
    /// caller is owed the handle-absent envelope.
    Absent,
}

/// The supervised actor's own state: the retained configuration and
/// transport capability, and at most one live resource handle.
pub struct PostgresActor<Tls> {
    config: tokio_postgres::config::Config,
    tls: Tls,
    pool: Option<ResourceHandle>,
    next_generation: u64,
    source: Ghost<Seq<char>>,
}

impl<Tls> View for PostgresActor<Tls> {
    type V = ActorView;

    closed spec fn view(&self) -> ActorView {
        ActorView {
            config_src: self.source@,
            current: match self.pool {
                Some(h) => Some(h.generation),
                None => None,
            },
            next_generation: self.next_generation,
        }
    }
}

impl<Tls> PostgresActor<Tls> {
    /// The retained configuration value (parsed once, never re-parsed).
    pub closed spec fn config_value(self) -> tokio_postgres::config::Config {
        self.config
    }

    /// The retained transport capability.
    pub closed spec fn transport_value(self) -> Tls {
        self.tls
    }

    /// Parse the connection string and construct the actor in its starting
    /// state: no handle, the parsed configuration and the transport
    /// capability retained. A malformed string fails here, synchronously,
    /// before any actor state or handle build exists.
    pub fn start(path: &str, tls: Tls) -> (r: Result<Self, tokio_postgres::error::Error>)
        ensures
            r is Ok <==> config_parse_ok(path@),
            r matches Ok(a) ==> a@.config_src == path@ && a@.current is None
                && a@.next_generation == 0 && wf(a@),
    {
        let config = match parse_config(path) {
            Ok(c) => c,
            Err(e) => {
                return Err(e);
            },
        };
        Ok(PostgresActor {
            config,
            tls,
            pool: None,
            next_generation: 0,
            source: Ghost(path@),
        })
    }

    /// The retained configuration, for the shell that performs the build.
    pub fn config(&self) -> (c: &tokio_postgres::config::Config)
        ensures
            *c == self.config_value(),
    {
        &self.config
    }

    /// The retained transport capability, for the shell that performs the
    /// build.
    pub fn transport(&self) -> (t: &Tls)
        ensures
            *t == self.transport_value(),
    {
        &self.tls
    }

    /// The identity the next successful build will be given; the shell tests
    /// this against the counter's ceiling before recording a build outcome.
    pub fn next_generation(&self) -> (g: u64)
        ensures
            g == self@.next_generation,
    {
        self.next_generation
    }

    /// Whether a live handle is present.
    pub fn is_ready(&self) -> (b: bool)
        ensures
            b == (self@.current is Some),
    {
        self.pool.is_some()
    }

    /// Record the outcome of the asynchronous handle build. On success the
    /// actor becomes ready, holding a handle tagged with a generation no
    /// earlier handle ever carried, and the mailbox may resume. On failure
    /// the state is untouched and the incarnation escalates: the supervisor
    /// restarts the actor rather than this actor retrying the build.
    pub fn build_complete(&mut self, outcome: Result<(), tokio_postgres::error::Error>) -> (d:
        StartupDirective)
        requires
            old(self)@.next_generation < u64::MAX,
        ensures
            outcome is Ok ==> build_ok_step(old(self)@, final(self)@) && d is Resume && wf(
                final(self)@,
            ),
            outcome matches Err(e) ==> *final(self) == *old(self) && d == StartupDirective::Escalate(
                e,
            ),
            final(self).config_value() == old(self).config_value(),
            final(self).transport_value() == old(self).transport_value(),
    {
        match outcome {
            Ok(()) => {
                let g = self.next_generation;
                self.pool = Some(ResourceHandle { generation: g });
                self.next_generation = g + 1;
                StartupDirective::Resume
            },
            Err(e) => StartupDirective::Escalate(e),
        }
    }

    /// The supervisor's restart hook. Its sole effect is to discard any held
    /// handle, so a restart never reuses a possibly-corrupt handle; the
    /// retained configuration, transport and generation counter survive.
    pub fn restarting(&mut self)
        ensures
            restart_step(old(self)@, final(self)@),
            final(self).config_value() == old(self).config_value(),
            final(self).transport_value() == old(self).transport_value(),
            wf(final(self)@),
    {
        self.pool = None;
    }

    /// Dispatch one submitted task. With a live handle the task's payload is
    /// handed out exactly once together with a clone of that handle; without
    /// one the payload is discarded un-invoked and the caller is owed the
    /// handle-absent envelope. Either way the actor's state is unchanged.
    pub fn handle<F>(&mut self, msg: PostgresTask<F>) -> (r: TaskDispatch<F>)
        ensures
            *final(self) == *old(self),
            dispatch_result(old(self)@, msg.payload(), r),
    {
        match &self.pool {
            Some(h) => {
                let pool2 = h.clone();
                TaskDispatch::Invoke { handle: pool2, query: msg.query }
            },
            None => TaskDispatch::Absent,
        }
    }
}

/// After a forced failure, the first handle the restarted actor builds is
/// never a handle instance that predates the failure: the restart keeps the
/// retained configuration and the generation counter, so the rebuilt handle
/// carries a tag strictly above every tag handed out before.
pub proof fn lemma_restart_yields_fresh_handle(
    v0: ActorView,
    v1: ActorView,
    v2: ActorView,
    g0: u64,
)
    requires
        wf(v0),
        v0.current == Some(g0),
        restart_step(v0, v1),
        build_ok_step(v1, v2),
    ensures
        v1.current is None,
        v2.current matches Some(g2) && g2 != g0,
        v2.config_src == v0.config_src,
{
}

/// Dispatch isolation: two tasks submitted against the same ready state are
/// both invoked, each with its own payload, against the same live handle;
/// neither dispatch disturbs the other or the actor.
pub proof fn lemma_dispatch_isolation<F>(
    v: ActorView,
    q1: F,
    q2: F,
    r1: TaskDispatch<F>,
    r2: TaskDispatch<F>,
)
    requires
        v.current is Some,
        dispatch_result(v, q1, r1),
        dispatch_result(v, q2, r2),
    ensures
        r1 matches TaskDispatch::Invoke { handle: h1, query: p1 } && p1 == q1 && (
        r2 matches TaskDispatch::Invoke { handle: h2, query: p2 } && p2 == q2 && h1 == h2),
{
}

} // verus!
