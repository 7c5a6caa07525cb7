//! The dispatcher: it takes each message of the input-method protocol, keeps
//! the records of the input contexts, and says what the engine is to be asked
//! and what the client is to be sent.

use vstd::prelude::*;
use crate::action::{action_views, commit_ch, Action, ActionView};
use crate::context::{ContextView, KimeInputContext};
use crate::encode::encoded_char;
use crate::modifiers::{modifiers_of, translate_modifiers, Modifiers};
use crate::preedit::Phase;
use crate::registry::{ContextRegistry, NULL_HANDLE};
use crate::result::{map_result, result_actions, result_phase, EngineResult};

verus! {

/// The key press that a forwarded event carries.
#[derive(Clone, Copy, Debug, PartialEq, Eq, Structural)]
pub struct KeyEvent {
    /// The native key code.
    pub detail: u8,
    /// The native modifier bitmask.
    pub state: u16,
}

/// One message of the protocol, for one input context. A message that
/// creates a context brings the engine that the new context will own.
pub enum Message<E> {
    CreateContext(E),
    DestroyContext,
    SetContextValues,
    GetContextValues,
    SetContextFocus,
    ResetContext,
    UnsetContextFocus,
    ForwardEvent(KeyEvent),
    /// Any other message, with its opcode.
    Unknown(u8),
}

/// What the engine of a context is to be asked.
#[derive(Clone, Copy, Debug, PartialEq, Eq, Structural)]
pub enum EngineRequest {
    /// Refresh the composition-mode state. There is nothing to answer.
    UpdateHangulState,
    /// Flush the pending composition; the answer is `EngineReply::Flushed`.
    Reset,
    /// Press a key; the answer is `EngineReply::Key`.
    PressKey { keycode: u16, modifiers: Modifiers },
}

/// What became of a message.
#[derive(Clone, Copy, Debug, PartialEq, Eq, Structural)]
pub enum Dispatch {
    /// The handle is null or has no record: the message was dropped.
    Dropped,
    /// A record was created and bound to the handle.
    Created,
    /// The record of the handle was released.
    Destroyed,
    /// The message asks for nothing.
    Ignored,
    /// The engine of the context is to be asked.
    Engine(EngineRequest),
    /// The message is not known; it was passed over.
    Unhandled(u8),
}

/// What the engine answered.
#[derive(Clone, Copy, Debug, PartialEq, Eq)]
pub enum EngineReply {
    /// The answer to `EngineRequest::Reset`: the character that the flush
    /// made final, if any.
    Flushed(Option<char>),
    /// The answer to `EngineRequest::PressKey`.
    Key(EngineResult),
}

/// The request that a key press makes of the engine: the key code as it is,
/// and the modifiers that the native bitmask stands for.
pub open spec fn press_of(key: KeyEvent) -> EngineRequest {
    EngineRequest::PressKey { keycode: key.detail as u16, modifiers: modifiers_of(key.state) }
}

/// What becomes of `message` for `handle` when the live contexts are
/// `contexts`.
pub open spec fn dispatch_of<E>(
    contexts: Map<u64, ContextView<E>>,
    handle: u64,
    message: Message<E>,
) -> Dispatch {
    if handle == 0 {
        Dispatch::Dropped
    } else if message is CreateContext {
        Dispatch::Created
    } else if !contexts.contains_key(handle) {
        Dispatch::Dropped
    } else {
        match message {
            Message::CreateContext(_) => Dispatch::Created,
            Message::DestroyContext => Dispatch::Destroyed,
            Message::SetContextValues => Dispatch::Ignored,
            Message::GetContextValues => Dispatch::Ignored,
            Message::SetContextFocus => Dispatch::Engine(EngineRequest::UpdateHangulState),
            Message::ResetContext => Dispatch::Engine(EngineRequest::Reset),
            Message::UnsetContextFocus => Dispatch::Engine(EngineRequest::Reset),
            Message::ForwardEvent(key) => Dispatch::Engine(press_of(key)),
            Message::Unknown(opcode) => Dispatch::Unhandled(opcode),
        }
    }
}

/// The live contexts after `message` for `handle` was handled.
pub open spec fn contexts_after<E>(
    contexts: Map<u64, ContextView<E>>,
    handle: u64,
    message: Message<E>,
) -> Map<u64, ContextView<E>> {
    if handle == 0 {
        contexts
    } else {
        match message {
            Message::CreateContext(engine) => contexts.insert(
                handle,
                ContextView { engine, phase: Phase::Idle },
            ),
            Message::DestroyContext => contexts.remove(handle),
            _ => contexts,
        }
    }
}

/// The actions that the engine's answer stands for, for the context of
/// `handle`. An answer for a handle without a record stands for none.
pub open spec fn reply_actions<E>(
    contexts: Map<u64, ContextView<E>>,
    handle: u64,
    reply: EngineReply,
    preedit_callbacks: bool,
) -> Seq<ActionView> {
    if !contexts.contains_key(handle) {
        Seq::<ActionView>::empty()
    } else {
        match reply {
            EngineReply::Flushed(Some(ch)) => seq![ActionView::Commit(encoded_char(ch))],
            EngineReply::Flushed(None) => Seq::<ActionView>::empty(),
            EngineReply::Key(result) => result_actions(
                contexts[handle].phase,
                result,
                preedit_callbacks,
            ),
        }
    }
}

/// The live contexts after the engine's answer was acted on: only the
/// preedit state of the context of `handle` can differ.
pub open spec fn contexts_after_reply<E>(
    contexts: Map<u64, ContextView<E>>,
    handle: u64,
    reply: EngineReply,
    preedit_callbacks: bool,
) -> Map<u64, ContextView<E>> {
    if !contexts.contains_key(handle) {
        contexts
    } else {
        match reply {
            EngineReply::Flushed(_) => contexts,
            EngineReply::Key(result) => contexts.insert(
                handle,
                ContextView {
                    engine: contexts[handle].engine,
                    phase: result_phase(contexts[handle].phase, result, preedit_callbacks),
                },
            ),
        }
    }
}

/// The translation of a key press into the request that the engine gets.
pub fn translate_key(key: KeyEvent) -> (request: EngineRequest)
    ensures
        request == press_of(key),
{
    EngineRequest::PressKey { keycode: key.detail as u16, modifiers: translate_modifiers(key.state) }
}

/// The server: the configuration that every engine call reads, and the
/// records of the live input contexts.
pub struct KimeServer<C, E> {
    pub config: C,
    pub contexts: ContextRegistry<E>,
}

impl<C, E> KimeServer<C, E> {
    /// A server with `config` and no input context.
    pub fn new(config: C) -> (server: Self)
        ensures
            server.config == config,
            server.contexts@ == Map::<u64, ContextView<E>>::empty(),
    {
        KimeServer { config, contexts: ContextRegistry::new() }
    }

    /// Handles one message of the protocol for the context of `handle`. What
    /// the answer names is still to be done by the caller: an engine request
    /// is made of that context's engine, and what a reset or a key press
    /// answers goes to `on_engine_reply`.
    pub fn on_message(&mut self, handle: u64, message: Message<E>) -> (dispatch: Dispatch)
        ensures
            dispatch == dispatch_of(old(self).contexts@, handle, message),
            final(self).contexts@ == contexts_after(old(self).contexts@, handle, message),
            final(self).config == old(self).config,
            message is Unknown ==> final(self).contexts@ == old(self).contexts@,
    {
        if handle == NULL_HANDLE {
            return Dispatch::Dropped;
        }
        if let Message::CreateContext(engine) = message {
            self.contexts.create(handle, KimeInputContext::new(engine));
            return Dispatch::Created;
        }
        if self.contexts.lookup(handle).is_none() {
            proof {
                assert(old(self).contexts@.remove(handle) =~= old(self).contexts@);
            }
            return Dispatch::Dropped;
        }
        match message {
            Message::CreateContext(_) => Dispatch::Created,
            Message::DestroyContext => {
                self.contexts.destroy(handle);
                Dispatch::Destroyed
            },
            Message::SetContextValues => Dispatch::Ignored,
            Message::GetContextValues => Dispatch::Ignored,
            Message::SetContextFocus => Dispatch::Engine(EngineRequest::UpdateHangulState),
            Message::ResetContext => Dispatch::Engine(EngineRequest::Reset),
            Message::UnsetContextFocus => Dispatch::Engine(EngineRequest::Reset),
            Message::ForwardEvent(key) => Dispatch::Engine(translate_key(key)),
            Message::Unknown(opcode) => Dispatch::Unhandled(opcode),
        }
    }

    /// Acts on what the engine of the context of `handle` answered: brings
    /// the context's preedit state up to date and returns the actions to
    /// take, in order. `preedit_callbacks` says whether the context
    /// negotiated preedit callbacks.
    pub fn on_engine_reply(&mut self, handle: u64, reply: EngineReply, preedit_callbacks: bool) -> (actions:
        Vec<Action>)
        ensures
            action_views(actions@) == reply_actions(
                old(self).contexts@,
                handle,
                reply,
                preedit_callbacks,
            ),
            final(self).contexts@ == contexts_after_reply(
                old(self).contexts@,
                handle,
                reply,
                preedit_callbacks,
            ),
            final(self).config == old(self).config,
    {
        let mut actions: Vec<Action> = Vec::new();
        match self.contexts.lookup_mut(handle) {
            Some(context) => {
                match reply {
                    EngineReply::Flushed(Some(ch)) => {
                        actions.push(commit_ch(ch));
                    },
                    EngineReply::Flushed(None) => {},
                    EngineReply::Key(result) => {
                        actions = map_result(&mut context.preedit, result, preedit_callbacks);
                    },
                }
            },
            None => {},
        }
        assert(action_views(actions@) =~= reply_actions(
            old(self).contexts@,
            handle,
            reply,
            preedit_callbacks,
        ));
        assert(self.contexts@ =~= contexts_after_reply(
            old(self).contexts@,
            handle,
            reply,
            preedit_callbacks,
        ));
        actions
    }
}

/// A message that is not known is passed over: no record is created,
/// released or changed by it, whatever the handle.
pub proof fn lemma_unknown_message_keeps_contexts<E>(
    contexts: Map<u64, ContextView<E>>,
    handle: u64,
    opcode: u8,
)
    ensures
        contexts_after(contexts, handle, Message::<E>::Unknown(opcode)) == contexts,
        dispatch_of(contexts, handle, Message::<E>::Unknown(opcode)) == (if handle != 0
            && contexts.contains_key(handle) {
            Dispatch::Unhandled(opcode)
        } else {
            Dispatch::Dropped
        }),
{
}

} // verus!
