//! The provider-neutral side of the runner: which provider serves a session, and the
//! universal events providers hand to the runner.
use vstd::prelude::*;
use crate::acp::AgentCapabilities;
use crate::events::opt_s;
use crate::model::{SessionId, TurnId, ItemId, SessionStatus, NativeRef, NativeRefView, UtcTimestamp};
use crate::text::{owned, str_eq};
use crate::universal::{UniversalEventKind, UniversalView, TurnState, opt_native};

verus! {

// ---------------------------------------------------------------------------
// Association lists
// ---------------------------------------------------------------------------

/// The value of the last entry for `k`: later entries shadow earlier ones.
pub open spec fn assoc_get<K, V>(s: Seq<(K, V)>, k: K) -> Option<V>
    decreases s.len(),
{
    if s.len() == 0 {
        None
    } else if s.last().0 == k {
        Some(s.last().1)
    } else {
        assoc_get(s.drop_last(), k)
    }
}

// ---------------------------------------------------------------------------
// The registry
// ---------------------------------------------------------------------------

/// A provider the runner can route sessions to, with what it can do.
#[derive(Clone, Debug, PartialEq)]
pub struct AdapterProviderRegistration {
    pub provider_id: String,
    pub capabilities: AgentCapabilities,
}

/// The registered providers, and the provider each session is bound to.
#[derive(Debug, Default)]
pub struct AdapterRegistry {
    providers: Vec<AdapterProviderRegistration>,
    session_providers: Vec<(SessionId, String)>,
}

pub open spec fn providers_view(v: Seq<AdapterProviderRegistration>) -> Seq<(Seq<char>, AgentCapabilities)> {
    v.map_values(|r: AdapterProviderRegistration| (r.provider_id@, r.capabilities))
}

pub open spec fn bindings_view(v: Seq<(SessionId, String)>) -> Seq<(SessionId, Seq<char>)> {
    v.map_values(|b: (SessionId, String)| (b.0, b.1@))
}

impl AdapterRegistry {
    /// The capabilities registered for a provider, if it is registered.
    pub closed spec fn provider(&self, provider_id: Seq<char>) -> Option<AgentCapabilities> {
        assoc_get(providers_view(self.providers@), provider_id)
    }

    /// The provider a session is bound to, if it is bound.
    pub closed spec fn binding(&self, session: SessionId) -> Option<Seq<char>> {
        assoc_get(bindings_view(self.session_providers@), session)
    }

    /// The registration that serves a session: that of the provider it is bound to,
    /// when that provider is registered.
    pub open spec fn session_provider(&self, session: SessionId) -> Option<(Seq<char>, AgentCapabilities)> {
        match self.binding(session) {
            Some(p) => match self.provider(p) {
                Some(c) => Some((p, c)),
                None => None,
            },
            None => None,
        }
    }

    /// The registration a request resolves to: the session's provider first, else the
    /// provider it names.
    pub open spec fn resolved(&self, session: Option<SessionId>, provider_id: Option<Seq<char>>) -> Option<(Seq<char>, AgentCapabilities)> {
        let by_session = match session {
            Some(s) => self.session_provider(s),
            None => None,
        };
        match by_session {
            Some(r) => Some(r),
            None => match provider_id {
                Some(p) => match self.provider(p) {
                    Some(c) => Some((p, c)),
                    None => None,
                },
                None => None,
            },
        }
    }

    /// No providers and no bindings.
    pub fn new() -> (r: Self)
        ensures
            forall|p: Seq<char>| r.provider(p) is None,
            forall|s: SessionId| r.binding(s) is None,
    {
        AdapterRegistry { providers: Vec::new(), session_providers: Vec::new() }
    }

    /// Registers a provider, replacing an earlier registration of the same id.
    pub fn register_provider(&mut self, registration: AdapterProviderRegistration)
        ensures
            forall|p: Seq<char>| #[trigger]
                final(self).provider(p) == if p == registration.provider_id@ {
                    Some(registration.capabilities)
                } else {
                    old(self).provider(p)
                },
            forall|s: SessionId| #[trigger] final(self).binding(s) == old(self).binding(s),
    {
        let ghost before = self.providers@;
        let ghost rv = (registration.provider_id@, registration.capabilities);
        self.providers.push(registration);
        proof {
            assert(providers_view(self.providers@) =~= providers_view(before).push(rv));
            assert forall|p: Seq<char>| #[trigger] self.provider(p) == if p == rv.0 {
                Some(rv.1)
            } else {
                old(self).provider(p)
            } by {
                assert(providers_view(self.providers@).drop_last() =~= providers_view(before));
            }
        }
    }

    /// Binds a session to a provider, replacing an earlier binding.
    pub fn bind_session(&mut self, session_id: SessionId, provider_id: String)
        ensures
            forall|s: SessionId| #[trigger]
                final(self).binding(s) == if s == session_id {
                    Some(provider_id@)
                } else {
                    old(self).binding(s)
                },
            forall|p: Seq<char>| #[trigger] final(self).provider(p) == old(self).provider(p),
    {
        let ghost before = self.session_providers@;
        let ghost bv = (session_id, provider_id@);
        self.session_providers.push((session_id, provider_id));
        proof {
            assert(bindings_view(self.session_providers@) =~= bindings_view(before).push(bv));
            assert forall|s: SessionId| #[trigger] self.binding(s) == if s == session_id {
                Some(bv.1)
            } else {
                old(self).binding(s)
            } by {
                assert(bindings_view(self.session_providers@).drop_last() =~= bindings_view(before));
            }
        }
    }

    /// Forgets a session's binding.
    pub fn unbind_session(&mut self, session_id: SessionId)
        ensures
            forall|s: SessionId| #[trigger]
                final(self).binding(s) == if s == session_id {
                    None
                } else {
                    old(self).binding(s)
                },
            forall|p: Seq<char>| #[trigger] final(self).provider(p) == old(self).provider(p),
    {
        let ghost old_b = bindings_view(self.session_providers@);
        let mut kept: Vec<(SessionId, String)> = Vec::new();
        let mut i: usize = 0;
        while i < self.session_providers.len()
            invariant
                i <= self.session_providers.len(),
                old_b == bindings_view(self.session_providers@),
                forall|s: SessionId| #[trigger]
                    assoc_get(bindings_view(kept@), s) == if s == session_id {
                        None
                    } else {
                        assoc_get(old_b.subrange(0, i as int), s)
                    },
            decreases self.session_providers.len() - i,
        {
            let ghost before = kept@;
            proof {
                assert(old_b.subrange(0, i + 1).drop_last() =~= old_b.subrange(0, i as int));
                assert(old_b.subrange(0, i + 1).last() == old_b[i as int]);
            }
            let entry_session = self.session_providers[i].0;
            if entry_session != session_id {
                let provider = self.session_providers[i].1.clone();
                let ghost ev = (entry_session, provider@);
                kept.push((entry_session, provider));
                proof {
                    assert(bindings_view(kept@) =~= bindings_view(before).push(ev));
                    assert forall|s: SessionId| #[trigger]
                        assoc_get(bindings_view(kept@), s) == if s == session_id {
                            None
                        } else {
                            assoc_get(old_b.subrange(0, i + 1), s)
                        } by {
                        assert(bindings_view(kept@).drop_last() =~= bindings_view(before));
                        assert(bindings_view(kept@).last() == ev);
                        assert(ev == old_b[i as int]);
                        assert(assoc_get(bindings_view(before), s) == if s == session_id {
                            None
                        } else {
                            assoc_get(old_b.subrange(0, i as int), s)
                        });
                    }
                }
            }
            i = i + 1;
        }
        proof {
            assert(old_b.subrange(0, old_b.len() as int) =~= old_b);
        }
        self.session_providers = kept;
    }

    fn find_provider(&self, provider_id: &str) -> (r: Option<&AdapterProviderRegistration>)
        ensures
            match r {
                Some(reg) => self.provider(provider_id@) == Some(reg.capabilities) && reg.provider_id@
                    == provider_id@,
                None => self.provider(provider_id@) is None,
            },
    {
        let ghost pv = providers_view(self.providers@);
        let mut i = self.providers.len();
        proof {
            assert(pv.subrange(0, pv.len() as int) =~= pv);
        }
        while i > 0
            invariant
                i <= self.providers.len(),
                pv == providers_view(self.providers@),
                assoc_get(pv, provider_id@) == assoc_get(pv.subrange(0, i as int), provider_id@),
            decreases i,
        {
            proof {
                assert(pv.subrange(0, i as int).drop_last() =~= pv.subrange(0, i - 1));
                assert(pv.subrange(0, i as int).last() == pv[i - 1]);
            }
            if str_eq(self.providers[i - 1].provider_id.as_str(), provider_id) {
                return Some(&self.providers[i - 1]);
            }
            i = i - 1;
        }
        proof {
            assert(pv.subrange(0, 0) =~= Seq::<(Seq<char>, AgentCapabilities)>::empty());
        }
        None
    }

    fn find_binding(&self, session_id: SessionId) -> (r: Option<&str>)
        ensures
            crate::json::opt_str(r) == self.binding(session_id),
    {
        let ghost bv = bindings_view(self.session_providers@);
        let mut i = self.session_providers.len();
        proof {
            assert(bv.subrange(0, bv.len() as int) =~= bv);
        }
        while i > 0
            invariant
                i <= self.session_providers.len(),
                bv == bindings_view(self.session_providers@),
                assoc_get(bv, session_id) == assoc_get(bv.subrange(0, i as int), session_id),
            decreases i,
        {
            proof {
                assert(bv.subrange(0, i as int).drop_last() =~= bv.subrange(0, i - 1));
                assert(bv.subrange(0, i as int).last() == bv[i - 1]);
            }
            if self.session_providers[i - 1].0 == session_id {
                return Some(self.session_providers[i - 1].1.as_str());
            }
            i = i - 1;
        }
        proof {
            assert(bv.subrange(0, 0) =~= Seq::<(SessionId, Seq<char>)>::empty());
        }
        None
    }

    /// The registration of the provider a session is bound to.
    pub fn provider_for_session(&self, session_id: SessionId) -> (r: Option<&AdapterProviderRegistration>)
        ensures
            match r {
                Some(reg) => self.session_provider(session_id) == Some((reg.provider_id@, reg.capabilities)),
                None => self.session_provider(session_id) is None,
            },
    {
        match self.find_binding(session_id) {
            Some(p) => self.find_provider(p),
            None => None,
        }
    }

    /// The registration a request resolves to: the session's provider first, else the
    /// provider it names.
    pub fn resolve_provider(&self, session_id: Option<SessionId>, provider_id: Option<&str>) -> (r: Option<
        &AdapterProviderRegistration,
    >)
        ensures
            match r {
                Some(reg) => self.resolved(session_id, crate::json::opt_str(provider_id)) == Some(
                    (reg.provider_id@, reg.capabilities),
                ),
                None => self.resolved(session_id, crate::json::opt_str(provider_id)) is None,
            },
    {
        let by_session = match session_id {
            Some(s) => self.provider_for_session(s),
            None => None,
        };
        match by_session {
            Some(r) => Some(r),
            None => match provider_id {
                Some(p) => self.find_provider(p),
                None => None,
            },
        }
    }
}

/// Binding a session to a registered provider routes the session there, whatever
/// provider a request names; unbinding it routes by the named provider again.
pub proof fn law_session_binding_wins(
    r: AdapterRegistry,
    session: SessionId,
    named: Option<Seq<char>>,
)
    ensures
        r.binding(session) matches Some(p) && r.provider(p) is Some ==> r.resolved(Some(session), named)
            == r.session_provider(session),
        r.binding(session) is None ==> r.resolved(Some(session), named) == r.resolved(None, named),
{
}

/// The registry inside the runner's adapter runtime.
#[derive(Debug, Default)]
pub struct AdapterRuntime {
    registry: AdapterRegistry,
}

impl AdapterRuntime {
    pub closed spec fn registry(&self) -> AdapterRegistry {
        self.registry
    }

    pub fn new() -> (r: Self)
        ensures
            forall|p: Seq<char>| r.registry().provider(p) is None,
            forall|s: SessionId| r.registry().binding(s) is None,
    {
        AdapterRuntime { registry: AdapterRegistry::new() }
    }

    pub fn register_provider(&mut self, registration: AdapterProviderRegistration)
        ensures
            forall|p: Seq<char>| #[trigger]
                final(self).registry().provider(p) == if p == registration.provider_id@ {
                    Some(registration.capabilities)
                } else {
                    old(self).registry().provider(p)
                },
            forall|s: SessionId| #[trigger] final(self).registry().binding(s) == old(self).registry().binding(s),
    {
        self.registry.register_provider(registration);
    }

    pub fn bind_session(&mut self, session_id: SessionId, provider_id: String)
        ensures
            forall|s: SessionId| #[trigger]
                final(self).registry().binding(s) == if s == session_id {
                    Some(provider_id@)
                } else {
                    old(self).registry().binding(s)
                },
            forall|p: Seq<char>| #[trigger] final(self).registry().provider(p) == old(self).registry().provider(p),
    {
        self.registry.bind_session(session_id, provider_id);
    }

    pub fn unbind_session(&mut self, session_id: SessionId)
        ensures
            forall|s: SessionId| #[trigger]
                final(self).registry().binding(s) == if s == session_id {
                    None
                } else {
                    old(self).registry().binding(s)
                },
            forall|p: Seq<char>| #[trigger] final(self).registry().provider(p) == old(self).registry().provider(p),
    {
        self.registry.unbind_session(session_id);
    }

    pub fn resolve_provider(&self, session_id: Option<SessionId>, provider_id: Option<&str>) -> (r: Option<
        &AdapterProviderRegistration,
    >)
        ensures
            match r {
                Some(reg) => self.registry().resolved(session_id, crate::json::opt_str(provider_id)) == Some(
                    (reg.provider_id@, reg.capabilities),
                ),
                None => self.registry().resolved(session_id, crate::json::opt_str(provider_id)) is None,
            },
    {
        self.registry.resolve_provider(session_id, provider_id)
    }
}

// ---------------------------------------------------------------------------
// Adapter events
// ---------------------------------------------------------------------------

/// The version of the universal protocol the runner writes.
pub const UNIVERSAL_PROTOCOL_VERSION: &'static str = "1";

/// Where a universal event came from.
#[derive(Clone, Copy, Debug, PartialEq, Eq, Structural)]
pub enum UniversalEventSource {
    Native,
}

/// A universal event as a provider hands it to the runner.
#[derive(Debug, PartialEq)]
pub struct AdapterUniversalEvent {
    pub session_id: Option<SessionId>,
    pub turn_id: Option<TurnId>,
    pub item_id: Option<ItemId>,
    pub source: UniversalEventSource,
    pub native: Option<NativeRef>,
    pub event: UniversalEventKind,
}

pub struct AdapterEventView {
    pub session_id: Option<SessionId>,
    pub turn_id: Option<TurnId>,
    pub item_id: Option<ItemId>,
    pub source: UniversalEventSource,
    pub native: Option<NativeRefView>,
    pub event: UniversalView,
}

/// An event a provider adapter emits.
#[derive(Debug, PartialEq)]
pub struct AdapterEvent {
    pub universal: AdapterUniversalEvent,
}

impl View for AdapterEvent {
    type V = AdapterEventView;

    open spec fn view(&self) -> AdapterEventView {
        AdapterEventView {
            session_id: self.universal.session_id,
            turn_id: self.universal.turn_id,
            item_id: self.universal.item_id,
            source: self.universal.source,
            native: opt_native(self.universal.native),
            event: self.universal.event@,
        }
    }
}

/// A universal event as the runner writes it to its log.
#[derive(Debug, PartialEq)]
pub struct AgentUniversalEvent {
    pub protocol_version: String,
    pub session_id: SessionId,
    pub event_id: Option<String>,
    pub turn_id: Option<TurnId>,
    pub item_id: Option<ItemId>,
    pub ts: Option<UtcTimestamp>,
    pub source: UniversalEventSource,
    pub native: Option<NativeRef>,
    pub event: UniversalEventKind,
}

/// The event with every turn it names set to `turn`: the event's own turn, and the
/// turn of the turn, item, approval, question, plan or diff it carries.
pub open spec fn event_in_turn(event: UniversalView, turn: TurnId) -> UniversalView {
    match event {
        UniversalView::TurnStarted { turn: t } => UniversalView::TurnStarted { turn: TurnState { turn_id: turn, ..t } },
        UniversalView::TurnStatusChanged { turn: t } => UniversalView::TurnStatusChanged {
            turn: TurnState { turn_id: turn, ..t },
        },
        UniversalView::TurnCompleted { turn: t } => UniversalView::TurnCompleted { turn: TurnState { turn_id: turn, ..t } },
        UniversalView::TurnFailed { turn: t } => UniversalView::TurnFailed { turn: TurnState { turn_id: turn, ..t } },
        UniversalView::TurnInterrupted { turn: t } => UniversalView::TurnInterrupted {
            turn: TurnState { turn_id: turn, ..t },
        },
        UniversalView::TurnCancelled { turn: t } => UniversalView::TurnCancelled { turn: TurnState { turn_id: turn, ..t } },
        UniversalView::TurnDetached { turn: t } => UniversalView::TurnDetached { turn: TurnState { turn_id: turn, ..t } },
        UniversalView::ItemCreated { item } => UniversalView::ItemCreated {
            item: crate::universal::ItemView { turn_id: Some(turn), ..item },
        },
        UniversalView::ApprovalRequested { approval } => UniversalView::ApprovalRequested {
            approval: crate::codex_mapper::ApprovalView { turn_id: Some(turn), ..approval },
        },
        UniversalView::QuestionRequested { question } => UniversalView::QuestionRequested {
            question: crate::codex_mapper::QuestionView { turn_id: Some(turn), ..question },
        },
        UniversalView::QuestionAnswered { question } => UniversalView::QuestionAnswered {
            question: crate::codex_mapper::QuestionView { turn_id: Some(turn), ..question },
        },
        UniversalView::PlanUpdated { plan } => UniversalView::PlanUpdated {
            plan: crate::universal::PlanView { turn_id: Some(turn), ..plan },
        },
        UniversalView::DiffUpdated { diff } => UniversalView::DiffUpdated {
            diff: crate::universal::DiffView { turn_id: Some(turn), ..diff },
        },
        _ => event,
    }
}

impl AdapterEvent {
    pub fn new(
        session_id: Option<SessionId>,
        turn_id: Option<TurnId>,
        item_id: Option<ItemId>,
        source: UniversalEventSource,
        native: Option<NativeRef>,
        event: UniversalEventKind,
    ) -> (r: Self)
        ensures
            r@ == (AdapterEventView {
                session_id,
                turn_id,
                item_id,
                source,
                native: opt_native(native),
                event: event@,
            }),
    {
        AdapterEvent { universal: AdapterUniversalEvent { session_id, turn_id, item_id, source, native, event } }
    }

    /// A native event of a session.
    pub fn from_universal(
        session_id: SessionId,
        turn_id: Option<TurnId>,
        item_id: Option<ItemId>,
        native: Option<NativeRef>,
        event: UniversalEventKind,
    ) -> (r: Self)
        ensures
            r@ == (AdapterEventView {
                session_id: Some(session_id),
                turn_id,
                item_id,
                source: UniversalEventSource::Native,
                native: opt_native(native),
                event: event@,
            }),
    {
        Self::new(Some(session_id), turn_id, item_id, UniversalEventSource::Native, native, event)
    }

    /// A session status change a provider reports.
    pub fn session_status(
        provider_id: &str,
        protocol: &str,
        method: Option<&str>,
        session_id: SessionId,
        status: SessionStatus,
        reason: Option<String>,
    ) -> (r: Self)
        ensures
            r@ == (AdapterEventView {
                session_id: Some(session_id),
                turn_id: None,
                item_id: None,
                source: UniversalEventSource::Native,
                native: Some(
                    NativeRefView {
                        protocol: protocol@,
                        method: crate::json::opt_str(method),
                        kind: Some(provider_id@),
                        native_id: None,
                        summary: Some("session status changed"@),
                        hash: None,
                        pointer: None,
                        raw_payload: None,
                    },
                ),
                event: UniversalView::SessionStatusChanged { status, reason: opt_s(reason) },
            }),
    {
        let native = NativeRef {
            protocol: owned(protocol),
            method: match method {
                Some(m) => Some(owned(m)),
                None => None,
            },
            kind: Some(owned(provider_id)),
            native_id: None,
            summary: Some(owned("session status changed")),
            hash: None,
            pointer: None,
            raw_payload: None,
        };
        Self::new(
            Some(session_id),
            None,
            None,
            UniversalEventSource::Native,
            Some(native),
            UniversalEventKind::SessionStatusChanged { status, reason },
        )
    }

    /// An error a provider reports for a session.
    pub fn error(
        provider_id: &str,
        protocol: &str,
        method: Option<&str>,
        session_id: SessionId,
        code: Option<String>,
        message: String,
    ) -> (r: Self)
        ensures
            r@ == (AdapterEventView {
                session_id: Some(session_id),
                turn_id: None,
                item_id: None,
                source: UniversalEventSource::Native,
                native: Some(
                    NativeRefView {
                        protocol: protocol@,
                        method: crate::json::opt_str(method),
                        kind: Some(provider_id@),
                        native_id: None,
                        summary: Some("error reported"@),
                        hash: None,
                        pointer: None,
                        raw_payload: None,
                    },
                ),
                event: UniversalView::ErrorReported { code: opt_s(code), message: message@ },
            }),
    {
        let native = NativeRef {
            protocol: owned(protocol),
            method: match method {
                Some(m) => Some(owned(m)),
                None => None,
            },
            kind: Some(owned(provider_id)),
            native_id: None,
            summary: Some(owned("error reported")),
            hash: None,
            pointer: None,
            raw_payload: None,
        };
        Self::new(
            Some(session_id),
            None,
            None,
            UniversalEventSource::Native,
            Some(native),
            UniversalEventKind::ErrorReported { code, message },
        )
    }

    /// The event as the runner logs it, when it belongs to a session; an event of no
    /// session is not logged.
    pub fn universal_projection_for_wal(self) -> (r: Option<AgentUniversalEvent>)
        ensures
            match r {
                Some(w) => self@.session_id == Some(w.session_id) && w.protocol_version@
                    == UNIVERSAL_PROTOCOL_VERSION@ && w.event_id is None && w.ts is None && w.turn_id
                    == self@.turn_id && w.item_id == self@.item_id && w.source == self@.source && opt_native(w.native)
                    == self@.native && w.event@ == self@.event,
                None => self@.session_id is None,
            },
    {
        let AdapterEvent { universal } = self;
        let AdapterUniversalEvent { session_id, turn_id, item_id, source, native, event } = universal;
        match session_id {
            Some(session_id) => Some(AgentUniversalEvent {
                protocol_version: owned(UNIVERSAL_PROTOCOL_VERSION),
                session_id,
                event_id: None,
                turn_id,
                item_id,
                ts: None,
                source,
                native,
                event,
            }),
            None => None,
        }
    }

    /// The event moved into `turn_id`: its own turn and every turn it carries.
    pub fn with_turn_id(self, turn_id: TurnId) -> (r: Self)
        ensures
            r@ == (AdapterEventView { turn_id: Some(turn_id), event: event_in_turn(self@.event, turn_id), ..self@ }),
    {
        let AdapterEvent { universal } = self;
        let AdapterUniversalEvent { session_id, turn_id: _, item_id, source, native, event } = universal;
        let event = match event {
            UniversalEventKind::TurnStarted { turn } => UniversalEventKind::TurnStarted {
                turn: TurnState { turn_id, ..turn },
            },
            UniversalEventKind::TurnStatusChanged { turn } => UniversalEventKind::TurnStatusChanged {
                turn: TurnState { turn_id, ..turn },
            },
            UniversalEventKind::TurnCompleted { turn } => UniversalEventKind::TurnCompleted {
                turn: TurnState { turn_id, ..turn },
            },
            UniversalEventKind::TurnFailed { turn } => UniversalEventKind::TurnFailed {
                turn: TurnState { turn_id, ..turn },
            },
            UniversalEventKind::TurnInterrupted { turn } => UniversalEventKind::TurnInterrupted {
                turn: TurnState { turn_id, ..turn },
            },
            UniversalEventKind::TurnCancelled { turn } => UniversalEventKind::TurnCancelled {
                turn: TurnState { turn_id, ..turn },
            },
            UniversalEventKind::TurnDetached { turn } => UniversalEventKind::TurnDetached {
                turn: TurnState { turn_id, ..turn },
            },
            UniversalEventKind::ItemCreated { item } => {
                let mut item = item;
                item.turn_id = Some(turn_id);
                UniversalEventKind::ItemCreated { item }
            },
            UniversalEventKind::ApprovalRequested { approval } => {
                let mut approval = approval;
                approval.turn_id = Some(turn_id);
                UniversalEventKind::ApprovalRequested { approval }
            },
            UniversalEventKind::QuestionRequested { question } => {
                let mut question = question;
                question.turn_id = Some(turn_id);
                UniversalEventKind::QuestionRequested { question }
            },
            UniversalEventKind::QuestionAnswered { question } => {
                let mut question = question;
                question.turn_id = Some(turn_id);
                UniversalEventKind::QuestionAnswered { question }
            },
            UniversalEventKind::PlanUpdated { plan } => {
                let mut plan = plan;
                plan.turn_id = Some(turn_id);
                UniversalEventKind::PlanUpdated { plan }
            },
            UniversalEventKind::DiffUpdated { diff } => {
                let mut diff = diff;
                diff.turn_id = Some(turn_id);
                UniversalEventKind::DiffUpdated { diff }
            },
            other => other,
        };
        AdapterEvent {
            universal: AdapterUniversalEvent { session_id, turn_id: Some(turn_id), item_id, source, native, event },
        }
    }
}

/// Moving an event into a turn twice is moving it into the second turn: the last
/// move wins, and nothing of the first remains.
pub proof fn law_turn_moves_compose(event: UniversalView, t1: TurnId, t2: TurnId)
    ensures
        event_in_turn(event_in_turn(event, t1), t2) == event_in_turn(event, t2),
{
}


// ---------------------------------------------------------------------------
// Command outcomes
// ---------------------------------------------------------------------------

/// What an adapter command produced.
#[derive(Debug, PartialEq)]
pub enum AdapterCommandOutcome {
    Accepted,
    AgentOptions(crate::codex_options::AgentOptions),
    ProviderCommands(Vec<crate::codex_commands::SlashCommandDefinition>),
    ProviderCommandExecuted(crate::codex_commands::SlashCommandResult),
    SessionCreated { session_id: SessionId, external_session_id: String },
    SessionLoaded { session_id: SessionId, external_session_id: String },
}

/// What the runner reports for a command.
#[derive(Debug, PartialEq)]
pub enum RunnerCommandResult {
    Accepted,
    AgentOptions { options: crate::codex_options::AgentOptions },
    ProviderCommands { commands: Vec<crate::codex_commands::SlashCommandDefinition> },
    ProviderCommandExecuted { result: crate::codex_commands::SlashCommandResult },
    SessionCreated { session_id: SessionId, external_session_id: String },
    SessionResumed { session_id: SessionId, external_session_id: String },
}

/// The runner's report of an adapter outcome: the same content, a loaded session
/// reported as resumed.
pub open spec fn runner_result_of(value: AdapterCommandOutcome) -> RunnerCommandResult {
    match value {
        AdapterCommandOutcome::Accepted => RunnerCommandResult::Accepted,
        AdapterCommandOutcome::AgentOptions(options) => RunnerCommandResult::AgentOptions { options },
        AdapterCommandOutcome::ProviderCommands(commands) => RunnerCommandResult::ProviderCommands { commands },
        AdapterCommandOutcome::ProviderCommandExecuted(result) => RunnerCommandResult::ProviderCommandExecuted { result },
        AdapterCommandOutcome::SessionCreated { session_id, external_session_id } => RunnerCommandResult::SessionCreated {
            session_id,
            external_session_id,
        },
        AdapterCommandOutcome::SessionLoaded { session_id, external_session_id } => RunnerCommandResult::SessionResumed {
            session_id,
            external_session_id,
        },
    }
}

impl From<AdapterCommandOutcome> for RunnerCommandResult {
    fn from(value: AdapterCommandOutcome) -> (r: Self) {
        match value {
            AdapterCommandOutcome::Accepted => RunnerCommandResult::Accepted,
            AdapterCommandOutcome::AgentOptions(options) => RunnerCommandResult::AgentOptions { options },
            AdapterCommandOutcome::ProviderCommands(commands) => RunnerCommandResult::ProviderCommands { commands },
            AdapterCommandOutcome::ProviderCommandExecuted(result) => RunnerCommandResult::ProviderCommandExecuted {
                result,
            },
            AdapterCommandOutcome::SessionCreated { session_id, external_session_id } => RunnerCommandResult::SessionCreated {
                session_id,
                external_session_id,
            },
            AdapterCommandOutcome::SessionLoaded { session_id, external_session_id } => RunnerCommandResult::SessionResumed {
                session_id,
                external_session_id,
            },
        }
    }
}

impl vstd::std_specs::convert::FromSpecImpl<AdapterCommandOutcome> for RunnerCommandResult {
    open spec fn obeys_from_spec() -> bool {
        true
    }

    open spec fn from_spec(v: AdapterCommandOutcome) -> Self {
        runner_result_of(v)
    }
}

} // verus!
