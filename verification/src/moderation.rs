//! The moderation overlay: an append-only, per-(group, subject) trail of
//! moderation decisions with a deterministic fold-to-latest.
//!
//! A group records decisions about content subjects without deleting the
//! underlying records.  Each (group, subject) pair owns one update chain;
//! posting a decision appends to that chain's tip, or starts a new chain
//! (ensuring the group's anchor exists first — idempotent, so racing first
//! writers converge).  A subject is hidden from the group's viewpoint iff
//! the *last* entry of its chain carries the metadata flag `remove = true`.
//! No entry is ever removed, so the fold is always well defined.

use vstd::prelude::*;

use crate::store::Record;
use crate::types::{
    ActionId, AgentKey, AppEntry, EntityId, GroupRef, Metadata, MetaValue, ModeratorActionEntry,
};

verus! {

/// One (group, subject) moderation chain, oldest decision first.
pub struct ModerationThread {
    pub subject: EntityId,
    pub actions: Vec<ModeratorActionEntry>,
}

/// One group's moderation overlay: whether the group's anchor record has
/// been published, and the chains attached to it.
pub struct GroupModeration {
    pub group_id: ActionId,
    pub anchor_exists: bool,
    pub threads: Vec<ModerationThread>,
}

/// Names a (group, subject) pair for the read path.
pub struct GetModeratorActionsInput {
    pub group_id: ActionId,
    pub app_id: EntityId,
}

/// A new moderation decision for a (group, subject) pair.
pub struct UpdateModeratorActionInput {
    pub group_id: ActionId,
    pub app_id: EntityId,
    pub message: String,
    pub metadata: Metadata,
}

/// Whether one decision marks its subject as removed: its metadata binds
/// the key `remove` to the boolean true.
pub open spec fn marks_removal(action: ModeratorActionEntry) -> bool {
    action.metadata.spec_get("remove"@) == Some(MetaValue::Boolean(true))
}

/// The abstract state of an overlay: each chain as a (subject, decisions)
/// pair, in chain-creation order.
pub type ModerationState = Seq<(EntityId, Seq<ModeratorActionEntry>)>;

/// The decisions recorded for `subject`: the first chain carrying it, or
/// the empty sequence.
pub open spec fn state_chain(state: ModerationState, subject: EntityId) -> Seq<
    ModeratorActionEntry,
>
    decreases state.len(),
{
    if state.len() == 0 {
        Seq::empty()
    } else if state[0].0 == subject {
        state[0].1
    } else {
        state_chain(state.drop_first(), subject)
    }
}

/// Whether `subject` is hidden: its chain is non-empty and the chain's last
/// decision marks removal.
pub open spec fn state_hidden(state: ModerationState, subject: EntityId) -> bool {
    let chain = state_chain(state, subject);
    chain.len() > 0 && marks_removal(chain.last())
}

/// One decision applied to the abstract state: appended to the first chain
/// carrying its subject, or opening a new chain at the end.
pub open spec fn state_apply(state: ModerationState, action: ModeratorActionEntry)
    -> ModerationState
    decreases state.len(),
{
    if state.len() == 0 {
        seq![(action.subject_id, seq![action])]
    } else if state[0].0 == action.subject_id {
        seq![(state[0].0, state[0].1.push(action))] + state.drop_first()
    } else {
        seq![state[0]] + state_apply(state.drop_first(), action)
    }
}

/// A whole sequence of decisions applied in order.
pub open spec fn state_apply_all(state: ModerationState, actions: Seq<ModeratorActionEntry>)
    -> ModerationState
    decreases actions.len(),
{
    if actions.len() == 0 {
        state
    } else {
        state_apply_all(state_apply(state, actions[0]), actions.drop_first())
    }
}

/// The subsequence of `actions` aimed at `subject`, in their given order.
pub open spec fn actions_for_subject(actions: Seq<ModeratorActionEntry>, subject: EntityId) -> Seq<
    ModeratorActionEntry,
>
    decreases actions.len(),
{
    if actions.len() == 0 {
        Seq::empty()
    } else if actions[0].subject_id == subject {
        seq![actions[0]] + actions_for_subject(actions.drop_first(), subject)
    } else {
        actions_for_subject(actions.drop_first(), subject)
    }
}

/// Applying one decision touches exactly its subject's chain, appending the
/// decision to it.
pub proof fn lemma_state_apply_chain(
    state: ModerationState,
    action: ModeratorActionEntry,
    subject: EntityId,
)
    ensures
        subject == action.subject_id ==> state_chain(state_apply(state, action), subject)
            == state_chain(state, subject).push(action),
        subject != action.subject_id ==> state_chain(state_apply(state, action), subject)
            == state_chain(state, subject),
    decreases state.len(),
{
    if state.len() == 0 {
        let applied = state_apply(state, action);
        assert(applied == seq![(action.subject_id, seq![action])]);
        assert(applied.drop_first() =~= Seq::<(EntityId, Seq<ModeratorActionEntry>)>::empty());
        if subject == action.subject_id {
            assert(state_chain(applied, subject) == seq![action]);
            assert(state_chain(state, subject).push(action) =~= seq![action]);
        } else {
            assert(state_chain(applied, subject) == state_chain(applied.drop_first(), subject));
        }
    } else if state[0].0 == action.subject_id {
        let updated = seq![(state[0].0, state[0].1.push(action))] + state.drop_first();
        assert(state_apply(state, action) == updated);
        assert(updated[0] == (state[0].0, state[0].1.push(action)));
        assert(updated.drop_first() =~= state.drop_first());
    } else {
        let applied = seq![state[0]] + state_apply(state.drop_first(), action);
        assert(state_apply(state, action) == applied);
        assert(applied[0] == state[0]);
        assert(applied.drop_first() =~= state_apply(state.drop_first(), action));
        lemma_state_apply_chain(state.drop_first(), action, subject);
    }
}

/// After replaying a sequence of decisions, each subject's chain is its
/// prior chain extended by exactly the decisions aimed at it, in order:
/// the fold's result depends only on each chain's own update ordering.
pub proof fn lemma_state_apply_all_chain(
    state: ModerationState,
    actions: Seq<ModeratorActionEntry>,
    subject: EntityId,
)
    ensures
        state_chain(state_apply_all(state, actions), subject) == state_chain(state, subject)
            + actions_for_subject(actions, subject),
    decreases actions.len(),
{
    if actions.len() == 0 {
        assert(state_chain(state, subject) + actions_for_subject(actions, subject) =~= state_chain(
            state,
            subject,
        ));
    } else {
        let first = actions[0];
        lemma_state_apply_chain(state, first, subject);
        lemma_state_apply_all_chain(state_apply(state, first), actions.drop_first(), subject);
        if first.subject_id == subject {
            assert(state_chain(state, subject).push(first) + actions_for_subject(
                actions.drop_first(),
                subject,
            ) =~= state_chain(state, subject) + actions_for_subject(actions, subject));
        } else {
            assert(actions_for_subject(actions, subject) == actions_for_subject(
                actions.drop_first(),
                subject,
            ));
        }
    }
}

/// Moderation fold idempotence: two replays of the same decisions, each in
/// an order that respects every chain's own update ordering (their
/// per-subject subsequences agree), hide exactly the same subjects.
pub proof fn lemma_moderation_replay_agnostic(
    state: ModerationState,
    replay_a: Seq<ModeratorActionEntry>,
    replay_b: Seq<ModeratorActionEntry>,
)
    requires
        forall|subject: EntityId|
            actions_for_subject(replay_a, subject) == actions_for_subject(replay_b, subject),
    ensures
        forall|subject: EntityId|
            state_hidden(state_apply_all(state, replay_a), subject) == state_hidden(
                state_apply_all(state, replay_b),
                subject,
            ),
{
    assert forall|subject: EntityId|
        state_hidden(state_apply_all(state, replay_a), subject) == state_hidden(
            state_apply_all(state, replay_b),
            subject,
        ) by {
        lemma_state_apply_all_chain(state, replay_a, subject);
        lemma_state_apply_all_chain(state, replay_b, subject);
    }
}

impl GroupModeration {
    /// The abstract state this overlay holds.
    pub open spec fn spec_state(self) -> ModerationState {
        self.threads@.map_values(|t: ModerationThread| (t.subject, t.actions@))
    }

    /// The decisions recorded for `subject`, oldest first.
    pub open spec fn spec_chain(self, subject: EntityId) -> Seq<ModeratorActionEntry> {
        state_chain(self.spec_state(), subject)
    }

    /// Whether `subject` is hidden from this group's viewpoint.
    pub open spec fn spec_hidden(self, subject: EntityId) -> bool {
        state_hidden(self.spec_state(), subject)
    }

    /// An overlay for a group with no published anchor or decisions yet.
    pub fn new(group_id: ActionId) -> (r: GroupModeration)
        ensures
            r.group_id == group_id,
            !r.anchor_exists,
            r.spec_state() == Seq::<(EntityId, Seq<ModeratorActionEntry>)>::empty(),
    {
        let r = GroupModeration { group_id, anchor_exists: false, threads: Vec::new() };
        proof {
            assert(r.spec_state() =~= Seq::<(EntityId, Seq<ModeratorActionEntry>)>::empty());
        }
        r
    }

    /// Index of the chain for `subject`, if one exists.
    fn find_thread(&self, subject: EntityId) -> (r: Option<usize>)
        ensures
            match r {
                Some(i) => {
                    &&& i < self.threads@.len()
                    &&& self.threads@[i as int].subject == subject
                    &&& forall|j: int| 0 <= j < i ==> self.threads@[j].subject != subject
                },
                None => forall|j: int|
                    0 <= j < self.threads@.len() ==> self.threads@[j].subject != subject,
            },
    {
        let n = self.threads.len();
        for i in 0..n
            invariant
                n == self.threads@.len(),
                forall|j: int| 0 <= j < i ==> self.threads@[j].subject != subject,
        {
            if self.threads[i].subject == subject {
                return Some(i);
            }
        }
        None
    }

    /// The chain of decisions for the given (group, subject) pair, oldest
    /// first, if any decision has been posted.
    pub fn get_moderator_actions(&self, input: &GetModeratorActionsInput) -> (r: Option<
        &Vec<ModeratorActionEntry>,
    >)
        requires
            input.group_id == self.group_id,
        ensures
            match r {
                Some(actions) => actions@ == self.spec_chain(input.app_id),
                None => self.spec_chain(input.app_id).len() == 0,
            },
    {
        let found = self.find_thread(input.app_id);
        match found {
            Some(i) => {
                proof {
                    lemma_chain_at_index(self.spec_state(), input.app_id, i as int);
                }
                Some(&self.threads[i].actions)
            },
            None => {
                proof {
                    lemma_chain_absent(self.spec_state(), input.app_id);
                }
                None
            },
        }
    }

    /// The current moderated state of a subject: the last decision of its
    /// chain, if any.
    pub fn get_moderated_state(&self, input: &GetModeratorActionsInput) -> (r: Option<
        &ModeratorActionEntry,
    >)
        requires
            input.group_id == self.group_id,
        ensures
            match r {
                Some(action) => self.spec_chain(input.app_id).len() > 0 && *action
                    == self.spec_chain(input.app_id).last(),
                None => self.spec_chain(input.app_id).len() == 0,
            },
    {
        match self.get_moderator_actions(input) {
            Some(actions) => {
                if actions.len() > 0 {
                    Some(&actions[actions.len() - 1])
                } else {
                    None
                }
            },
            None => None,
        }
    }

    /// Posts a new decision for (group, subject): appends to the existing
    /// chain's tip, or ensures the group anchor exists and opens a new
    /// chain.  `group_rev` is the group's current tip (the new entry pins
    /// it) and `now` the advisory timestamp.
    pub fn update_moderated_state(
        &mut self,
        input: UpdateModeratorActionInput,
        author: AgentKey,
        group_rev: ActionId,
        now: u64,
    )
        requires
            input.group_id == old(self).group_id,
        ensures
            final(self).group_id == old(self).group_id,
            final(self).anchor_exists,
            final(self).spec_state() == state_apply(
                old(self).spec_state(),
                (ModeratorActionEntry {
                    group_id: GroupRef { group_id: input.group_id, pinned_revision: group_rev },
                    author,
                    published_at: now,
                    message: input.message,
                    subject_id: input.app_id,
                    metadata: input.metadata,
                }),
            ),
    {
        let subject = input.app_id;
        let entry = ModeratorActionEntry {
            group_id: GroupRef { group_id: input.group_id, pinned_revision: group_rev },
            author,
            published_at: now,
            message: input.message,
            subject_id: subject,
            metadata: input.metadata,
        };
        let ghost posted = entry;
        match self.find_thread(subject) {
            Some(i) => {
                let ghost prior = self.spec_state();
                let mut thread = self.threads.remove(i);
                thread.actions.push(entry);
                let ghost grown = thread;
                self.threads.insert(i, thread);
                self.anchor_exists = true;
                proof {
                    assert(self.threads@ =~= old(self).threads@.update(i as int, grown));
                    assert(self.spec_state() =~~= prior.update(
                        i as int,
                        (subject, prior[i as int].1.push(posted)),
                    ));
                    lemma_apply_at_first_index(prior, posted, i as int);
                }
            },
            None => {
                let ghost prior = self.spec_state();
                self.threads.push(ModerationThread { subject, actions: vec![entry] });
                self.anchor_exists = true;
                proof {
                    assert(self.spec_state() =~~= prior.push((subject, seq![posted])));
                    lemma_apply_fresh_subject(prior, posted);
                }
            },
        }
    }

    /// Whether `subject` is currently hidden from this group's viewpoint.
    pub fn is_hidden(&self, subject: EntityId) -> (r: bool)
        ensures
            r == self.spec_hidden(subject),
    {
        let input = GetModeratorActionsInput { group_id: self.group_id, app_id: subject };
        match self.get_moderated_state(&input) {
            Some(action) => {
                let key = String::from_str("remove");
                match action.metadata.get(&key) {
                    Some(value) => match value {
                        MetaValue::Boolean(flag) => *flag,
                        _ => false,
                    },
                    None => false,
                }
            },
            None => false,
        }
    }

    /// The ids of `apps` still visible from this group's viewpoint, in
    /// their given order: every app whose id is not hidden.
    pub fn viewpoint_get_all_apps(&self, apps: &Vec<Record<AppEntry>>) -> (r: Vec<EntityId>)
        ensures
            r@ == spec_visible_ids(self.spec_state(), apps@),
    {
        let mut visible: Vec<EntityId> = Vec::new();
        let n = apps.len();
        assert(apps@.skip(0) =~= apps@);
        for i in 0..n
            invariant
                n == apps@.len(),
                spec_visible_ids(self.spec_state(), apps@) == visible@ + spec_visible_ids(
                    self.spec_state(),
                    apps@.skip(i as int),
                ),
        {
            assert(apps@.skip(i as int).drop_first() =~= apps@.skip(i + 1));
            let ghost before = visible@;
            if !self.is_hidden(apps[i].id) {
                visible.push(apps[i].id);
                assert(before + spec_visible_ids(self.spec_state(), apps@.skip(i as int))
                    =~= visible@ + spec_visible_ids(self.spec_state(), apps@.skip(i + 1)));
            }
        }
        assert(spec_visible_ids(self.spec_state(), apps@.skip(n as int)) =~= Seq::<
            EntityId,
        >::empty());
        assert(visible@ + spec_visible_ids(self.spec_state(), apps@.skip(n as int)) =~= visible@);
        visible
    }

    /// The ids of `apps` hidden from this group's viewpoint, in their given
    /// order.
    pub fn viewpoint_get_all_removed_apps(&self, apps: &Vec<Record<AppEntry>>) -> (r: Vec<
        EntityId,
    >)
        ensures
            r@ == spec_removed_ids(self.spec_state(), apps@),
    {
        let mut removed: Vec<EntityId> = Vec::new();
        let n = apps.len();
        assert(apps@.skip(0) =~= apps@);
        for i in 0..n
            invariant
                n == apps@.len(),
                spec_removed_ids(self.spec_state(), apps@) == removed@ + spec_removed_ids(
                    self.spec_state(),
                    apps@.skip(i as int),
                ),
        {
            assert(apps@.skip(i as int).drop_first() =~= apps@.skip(i + 1));
            let ghost before = removed@;
            if self.is_hidden(apps[i].id) {
                removed.push(apps[i].id);
                assert(before + spec_removed_ids(self.spec_state(), apps@.skip(i as int))
                    =~= removed@ + spec_removed_ids(self.spec_state(), apps@.skip(i + 1)));
            }
        }
        assert(spec_removed_ids(self.spec_state(), apps@.skip(n as int)) =~= Seq::<
            EntityId,
        >::empty());
        assert(removed@ + spec_removed_ids(self.spec_state(), apps@.skip(n as int)) =~= removed@);
        removed
    }
}

/// The ids of the apps not hidden in `state`, in order.
pub open spec fn spec_visible_ids(state: ModerationState, apps: Seq<Record<AppEntry>>) -> Seq<
    EntityId,
>
    decreases apps.len(),
{
    if apps.len() == 0 {
        Seq::empty()
    } else {
        let rest = spec_visible_ids(state, apps.drop_first());
        if state_hidden(state, apps[0].id) {
            rest
        } else {
            seq![apps[0].id] + rest
        }
    }
}

/// The ids of the apps hidden in `state`, in order.
pub open spec fn spec_removed_ids(state: ModerationState, apps: Seq<Record<AppEntry>>) -> Seq<
    EntityId,
>
    decreases apps.len(),
{
    if apps.len() == 0 {
        Seq::empty()
    } else {
        let rest = spec_removed_ids(state, apps.drop_first());
        if state_hidden(state, apps[0].id) {
            seq![apps[0].id] + rest
        } else {
            rest
        }
    }
}

/// At the first index whose subject matches, `state_chain` is exactly that
/// chain.
proof fn lemma_chain_at_index(state: ModerationState, subject: EntityId, i: int)
    requires
        0 <= i < state.len(),
        state[i].0 == subject,
        forall|j: int| 0 <= j < i ==> state[j].0 != subject,
    ensures
        state_chain(state, subject) == state[i].1,
    decreases state.len(),
{
    if i > 0 {
        assert(forall|j: int|
            1 <= j < state.len() ==> state[j] == state.drop_first()[j - 1]);
        lemma_chain_at_index(state.drop_first(), subject, i - 1);
    }
}

/// When no chain's subject matches, `state_chain` is empty.
proof fn lemma_chain_absent(state: ModerationState, subject: EntityId)
    requires
        forall|j: int| 0 <= j < state.len() ==> state[j].0 != subject,
    ensures
        state_chain(state, subject) == Seq::<ModeratorActionEntry>::empty(),
    decreases state.len(),
{
    if state.len() > 0 {
        assert(forall|j: int|
            1 <= j < state.len() ==> state[j] == state.drop_first()[j - 1]);
        lemma_chain_absent(state.drop_first(), subject);
    }
}

/// When `i` is the first index whose subject matches the decision,
/// `state_apply` is an update at `i` that appends the decision.
proof fn lemma_apply_at_first_index(state: ModerationState, action: ModeratorActionEntry, i: int)
    requires
        0 <= i < state.len(),
        state[i].0 == action.subject_id,
        forall|j: int| 0 <= j < i ==> state[j].0 != action.subject_id,
    ensures
        state_apply(state, action) == state.update(i, (state[i].0, state[i].1.push(action))),
    decreases state.len(),
{
    if i == 0 {
        assert(state_apply(state, action) =~= state.update(
            0,
            (state[0].0, state[0].1.push(action)),
        ));
    } else {
        lemma_apply_at_first_index(state.drop_first(), action, i - 1);
        assert(forall|j: int|
            1 <= j < state.len() ==> state[j] == state.drop_first()[j - 1]);
        assert(state_apply(state, action) =~= state.update(
            i,
            (state[i].0, state[i].1.push(action)),
        ));
    }
}

/// When no chain carries the decision's subject, `state_apply` opens a new
/// chain at the end.
proof fn lemma_apply_fresh_subject(state: ModerationState, action: ModeratorActionEntry)
    requires
        forall|j: int| 0 <= j < state.len() ==> state[j].0 != action.subject_id,
    ensures
        state_apply(state, action) == state.push((action.subject_id, seq![action])),
    decreases state.len(),
{
    if state.len() == 0 {
        assert(state_apply(state, action) =~= state.push((action.subject_id, seq![action])));
    } else {
        lemma_apply_fresh_subject(state.drop_first(), action);
        assert(forall|j: int|
            1 <= j < state.len() ==> state[j] == state.drop_first()[j - 1]);
        assert(state_apply(state, action) =~= state.push((action.subject_id, seq![action])));
    }
}

} // verus!
