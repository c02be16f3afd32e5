//! The event bridge: which Tabby events become memories.
use std::sync::Arc;

use vstd::prelude::*;

use crate::memory_bridge::{MemoryBridge, completion_memory_spec, selection_memory_spec, share};
use crate::models::{HubFeatures, RememberRequest};

verus! {

/// A Tabby event, with the parts of it that the bridge reads.
#[derive(Debug, Clone)]
pub enum HubEvent {
    /// Completions were offered; `choices` holds their texts in order.
    Completion { completion_id: String, language: String, prompt: String, choices: Vec<String> },
    /// The user selected a completion.
    Select { completion_id: String },
    /// A completion was shown.
    View { completion_id: String },
    /// A completion was dismissed.
    Dismiss { completion_id: String },
    /// A chat completion took place.
    ChatCompletion,
}

/// The memory that is stored for an event, if any, under the given features.
pub open spec fn event_memory_spec(features: HubFeatures, event: HubEvent, r: Option<RememberRequest>) -> bool {
    match event {
        HubEvent::Completion { language, prompt, choices, .. } => if !features.log_completions {
            r is None
        } else {
            r matches Some(req) && completion_memory_spec(
                language@,
                prompt@,
                if choices@.len() > 0 {
                    choices@[0]@
                } else {
                    ""@
                },
                "tabby"@,
                choices@.len() > 0,
                req,
            )
        },
        HubEvent::Select { completion_id } => if !features.log_user_events {
            r is None
        } else {
            r matches Some(req) && selection_memory_spec(completion_id@, "Selected"@, None, req)
        },
        _ => r is None,
    }
}

/// Event logger that bridges Tabby events to Love-Unlimited memories.
pub struct HubEventLogger {
    bridge: Arc<MemoryBridge>,
}

impl HubEventLogger {
    /// The bridge the logger stores memories through.
    pub closed spec fn spec_bridge(&self) -> MemoryBridge {
        *self.bridge
    }

    /// Create a new hub event logger.
    pub fn new(bridge: MemoryBridge) -> (l: Self)
        ensures
            l.spec_bridge() == bridge,
    {
        HubEventLogger { bridge: Arc::new(bridge) }
    }

    /// Create a new hub event logger whose writes run as spawned tasks.
    pub fn new_with_spawn(bridge: MemoryBridge) -> (l: Self)
        ensures
            l.spec_bridge() == bridge,
    {
        HubEventLogger { bridge: Arc::new(bridge) }
    }

    /// The bridge the logger stores memories through.
    pub fn bridge(&self) -> (b: &MemoryBridge)
        ensures
            *b == self.spec_bridge(),
    {
        &self.bridge
    }

    /// A shared handle on the bridge, for work that outlives this borrow.
    pub fn shared_bridge(&self) -> (b: Arc<MemoryBridge>)
        ensures
            *b == self.spec_bridge(),
    {
        share(&self.bridge)
    }

    /// The memory stored for an event: a completion becomes a learning about
    /// its first choice, a selection becomes a decision, each only where the
    /// configuration's features log it; views, dismissals and chat
    /// completions are not stored.
    pub fn memory_for(&self, event: &HubEvent) -> (r: Option<RememberRequest>)
        ensures
            event_memory_spec(self.spec_bridge().spec_features(), *event, r),
    {
        match event {
            HubEvent::Completion { language, prompt, choices, .. } => {
                let completion_text = if choices.len() > 0 {
                    choices[0].clone()
                } else {
                    let t = String::new();
                    proof {
                        reveal_strlit("");
                        assert(t@ =~= ""@);
                    }
                    t
                };
                let snippet_used = choices.len() > 0;
                self.bridge.store_completion(
                    language.clone(),
                    prompt.clone(),
                    completion_text,
                    "tabby".to_string(),
                    snippet_used,
                )
            },
            HubEvent::Select { completion_id } => {
                self.bridge.store_user_selection(
                    completion_id.clone(),
                    "Selected".to_string(),
                    None,
                )
            },
            HubEvent::View { .. } => None,
            HubEvent::Dismiss { .. } => None,
            HubEvent::ChatCompletion => None,
        }
    }
}

} // verus!
