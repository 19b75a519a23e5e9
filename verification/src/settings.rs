//! Per-conversation settings: which quality each conversation prefers.

use std::collections::HashMap;
use vstd::prelude::*;
use crate::quality::QualityPreference;

verus! {

broadcast use vstd::std_specs::hash::group_hash_axioms;

/// Identifies one conversation. Settings are keyed by it and replies are
/// addressed to it.
#[derive(Clone, Copy, Debug, PartialEq, Eq, Hash, Structural)]
pub struct ConversationId(pub i64);

/// The preference that `settings` gives for `conversation`: the stored one,
/// or [`QualityPreference::Best`] where none is stored.
pub open spec fn preference_in(
    settings: Map<ConversationId, QualityPreference>,
    conversation: ConversationId,
) -> QualityPreference {
    if settings.contains_key(conversation) {
        settings[conversation]
    } else {
        QualityPreference::Best
    }
}

/// The settings that result from applying `writes` to `settings`, oldest
/// first. Each write is a conversation and the preference stored for it.
pub open spec fn after_writes(
    settings: Map<ConversationId, QualityPreference>,
    writes: Seq<(ConversationId, QualityPreference)>,
) -> Map<ConversationId, QualityPreference>
    decreases writes.len(),
{
    if writes.len() == 0 {
        settings
    } else {
        after_writes(settings, writes.drop_last()).insert(writes.last().0, writes.last().1)
    }
}

/// The table of stored preferences. It starts empty and lives as long as its
/// owner keeps it; a conversation has at most one entry.
pub struct SettingsStore {
    table: HashMap<i64, QualityPreference>,
}

impl View for SettingsStore {
    type V = Map<ConversationId, QualityPreference>;

    closed spec fn view(&self) -> Map<ConversationId, QualityPreference> {
        Map::new(
            |conversation: ConversationId| self.table@.contains_key(conversation.0),
            |conversation: ConversationId| self.table@[conversation.0],
        )
    }
}

impl SettingsStore {
    /// A store in which no conversation has a preference yet.
    pub fn new() -> (store: Self)
        ensures
            store@ == Map::<ConversationId, QualityPreference>::empty(),
    {
        SettingsStore { table: HashMap::new() }
    }

    /// The preference of `conversation`, or [`QualityPreference::Best`] if it
    /// never stored one.
    pub fn get(&self, conversation: ConversationId) -> (preference: QualityPreference)
        ensures
            preference == preference_in(self@, conversation),
            !self@.contains_key(conversation) ==> preference == QualityPreference::Best,
    {
        match self.table.get(&conversation.0) {
            Some(stored) => *stored,
            None => QualityPreference::Best,
        }
    }

    /// Stores `preference` for `conversation`, replacing what was stored for
    /// it. No other conversation's entry changes.
    pub fn set(&mut self, conversation: ConversationId, preference: QualityPreference)
        ensures
            final(self)@ == old(self)@.insert(conversation, preference),
    {
        self.table.insert(conversation.0, preference);
    }
}

/// A conversation that no write names reads as
/// [`QualityPreference::Best`], whatever was written for others.
pub proof fn lemma_never_set_reads_best(
    writes: Seq<(ConversationId, QualityPreference)>,
    conversation: ConversationId,
)
    requires
        forall|i: int| 0 <= i < writes.len() ==> (#[trigger] writes[i]).0 != conversation,
    ensures
        preference_in(
            after_writes(Map::<ConversationId, QualityPreference>::empty(), writes),
            conversation,
        ) == QualityPreference::Best,
    decreases writes.len(),
{
    if writes.len() > 0 {
        lemma_never_set_reads_best(writes.drop_last(), conversation);
    }
}

/// The last write wins: after `preference` is stored for `conversation`, it
/// is what the conversation reads, through any later writes that name other
/// conversations.
pub proof fn lemma_last_write_wins(
    settings: Map<ConversationId, QualityPreference>,
    conversation: ConversationId,
    preference: QualityPreference,
    later: Seq<(ConversationId, QualityPreference)>,
)
    requires
        forall|i: int| 0 <= i < later.len() ==> (#[trigger] later[i]).0 != conversation,
    ensures
        preference_in(
            after_writes(settings.insert(conversation, preference), later),
            conversation,
        ) == preference,
    decreases later.len(),
{
    if later.len() > 0 {
        lemma_last_write_wins(settings, conversation, preference, later.drop_last());
    }
}

/// A write for one conversation is invisible to every other.
pub proof fn lemma_write_leaves_others(
    settings: Map<ConversationId, QualityPreference>,
    written: ConversationId,
    preference: QualityPreference,
    other: ConversationId,
)
    requires
        other != written,
    ensures
        preference_in(settings.insert(written, preference), other) == preference_in(
            settings,
            other,
        ),
{
}

} // verus!
