//! The prompt turns of an ACP session: each prompt starts a universal turn whose id is
//! derived from the provider, the session and the prompt, and its response ends it.
use vstd::prelude::*;
use crate::adapter::{AdapterEvent, AdapterEventView, UniversalEventSource};
use crate::id_map::NAMESPACE_URL;
use crate::model::{NativeRef, NativeRefView, SessionId, TurnId, TurnStatus};
use crate::outside::{new_v5, uuid_text, uuid_to_text, uuid_v5};
use crate::text::owned;
use crate::universal::{TurnState, UniversalEventKind, UniversalView};

verus! {

/// The universal turns of one ACP session.
#[derive(Clone, Debug)]
pub struct AcpReducerState {
    session_id: SessionId,
    provider_id: String,
    active_turn_id: Option<TurnId>,
}

/// The turn id of a prompt: the name-based UUID of
/// `agenter:acp:turn:{provider}:{session}:{prompt}` in the URL namespace.
pub open spec fn prompt_turn_uuid(provider: Seq<char>, session: SessionId, prompt: Seq<char>) -> u128 {
    uuid_v5(NAMESPACE_URL, "agenter:acp:turn:"@ + provider + ":"@ + uuid_text(session.0) + ":"@ + prompt)
}

/// The native reference of a prompt's start or end.
pub open spec fn prompt_native_of(provider: Seq<char>, prompt: Seq<char>, summary: Seq<char>) -> NativeRefView {
    NativeRefView {
        protocol: "acp-stdio"@,
        method: Some("session/prompt"@),
        kind: Some(provider),
        native_id: Some(prompt),
        summary: Some(summary),
        hash: None,
        pointer: None,
        raw_payload: None,
    }
}

/// The event of a prompt turn starting (`started`) or completing.
pub open spec fn prompt_event_of(session: SessionId, provider: Seq<char>, turn: TurnId, prompt: Seq<char>, started: bool) -> AdapterEventView {
    AdapterEventView {
        session_id: Some(session),
        turn_id: Some(turn),
        item_id: None,
        source: UniversalEventSource::Native,
        native: Some(
            prompt_native_of(
                provider,
                prompt,
                if started {
                    "ACP prompt started"@
                } else {
                    "ACP prompt completed"@
                },
            ),
        ),
        event: if started {
            UniversalView::TurnStarted {
                turn: TurnState {
                    turn_id: turn,
                    session_id: session,
                    status: TurnStatus::Running,
                    started_at: None,
                    completed_at: None,
                },
            }
        } else {
            UniversalView::TurnCompleted {
                turn: TurnState {
                    turn_id: turn,
                    session_id: session,
                    status: TurnStatus::Completed,
                    started_at: None,
                    completed_at: None,
                },
            }
        },
    }
}

fn prompt_native(provider: &str, prompt: &str, summary: &str) -> (r: NativeRef)
    ensures
        r@ == prompt_native_of(provider@, prompt@, summary@),
{
    NativeRef {
        protocol: owned("acp-stdio"),
        method: Some(owned("session/prompt")),
        kind: Some(owned(provider)),
        native_id: Some(owned(prompt)),
        summary: Some(owned(summary)),
        hash: None,
        pointer: None,
        raw_payload: None,
    }
}

impl AcpReducerState {
    pub closed spec fn session(&self) -> SessionId {
        self.session_id
    }

    pub closed spec fn provider(&self) -> Seq<char> {
        self.provider_id@
    }

    /// The turn of the prompt that is running, if one is.
    pub closed spec fn active_turn(&self) -> Option<TurnId> {
        self.active_turn_id
    }

    /// A session with no prompt running.
    pub fn new(session_id: SessionId, provider_id: String) -> (r: Self)
        ensures
            r.session() == session_id,
            r.provider() == provider_id@,
            r.active_turn() is None,
    {
        AcpReducerState { session_id, provider_id, active_turn_id: None }
    }

    /// The turn id of a prompt of this session.
    pub fn prompt_turn_id(&self, native_prompt_id: &str) -> (r: TurnId)
        ensures
            r.0 == prompt_turn_uuid(self.provider(), self.session(), native_prompt_id@),
    {
        let session = uuid_to_text(self.session_id.0);
        let mut name = owned("agenter:acp:turn:");
        name.append(self.provider_id.as_str());
        name.append(":");
        name.append(session.as_str());
        name.append(":");
        name.append(native_prompt_id);
        TurnId(new_v5(NAMESPACE_URL, name.as_str()))
    }

    /// A prompt starts: its turn becomes the running one.
    pub fn start_prompt(&mut self, native_prompt_id: &str) -> (r: AdapterEvent)
        ensures
            final(self).session() == old(self).session(),
            final(self).provider() == old(self).provider(),
            final(self).active_turn() == Some(
                TurnId(prompt_turn_uuid(old(self).provider(), old(self).session(), native_prompt_id@)),
            ),
            r@ == prompt_event_of(
                old(self).session(),
                old(self).provider(),
                TurnId(prompt_turn_uuid(old(self).provider(), old(self).session(), native_prompt_id@)),
                native_prompt_id@,
                true,
            ),
    {
        let turn_id = self.prompt_turn_id(native_prompt_id);
        self.active_turn_id = Some(turn_id);
        AdapterEvent::new(
            Some(self.session_id),
            Some(turn_id),
            None,
            UniversalEventSource::Native,
            Some(prompt_native(self.provider_id.as_str(), native_prompt_id, "ACP prompt started")),
            UniversalEventKind::TurnStarted {
                turn: TurnState {
                    turn_id,
                    session_id: self.session_id,
                    status: TurnStatus::Running,
                    started_at: None,
                    completed_at: None,
                },
            },
        )
    }

    /// The running prompt completes: its turn ends and none runs; nothing when no
    /// prompt runs.
    pub fn complete_prompt(&mut self, native_prompt_id: &str) -> (r: Option<AdapterEvent>)
        ensures
            final(self).session() == old(self).session(),
            final(self).provider() == old(self).provider(),
            final(self).active_turn() is None,
            match old(self).active_turn() {
                Some(turn) => r matches Some(e) && e@ == prompt_event_of(
                    old(self).session(),
                    old(self).provider(),
                    turn,
                    native_prompt_id@,
                    false,
                ),
                None => r is None,
            },
    {
        let turn_id = match self.active_turn_id {
            Some(t) => t,
            None => return None,
        };
        self.active_turn_id = None;
        Some(
            AdapterEvent::new(
                Some(self.session_id),
                Some(turn_id),
                None,
                UniversalEventSource::Native,
                Some(prompt_native(self.provider_id.as_str(), native_prompt_id, "ACP prompt completed")),
                UniversalEventKind::TurnCompleted {
                    turn: TurnState {
                        turn_id,
                        session_id: self.session_id,
                        status: TurnStatus::Completed,
                        started_at: None,
                        completed_at: None,
                    },
                },
            ),
        )
    }
}

} // verus!
