//! The status registry: one message per account, written only by its owner.
//!
//! A registry starts empty. An account writes its own status with
//! [`Registry::set_status`]; anybody reads anybody's status with
//! [`Registry::get_status`]. There is no way to delete a status and no way to
//! write under another account's name. An account that never wrote has no
//! status at all, which is not the same as an empty one.

use crate::identity::Identity;
use crate::table::Table;
use vstd::prelude::*;

verus! {

/// The statuses that a registry holds, by account name.
pub type Statuses = Map<Seq<char>, Seq<char>>;

/// What reading `account` gives in `statuses`: its message, or nothing.
pub open spec fn lookup(statuses: Statuses, account: Seq<char>) -> Option<Seq<char>> {
    if statuses.contains_key(account) {
        Some(statuses[account])
    } else {
        None
    }
}

/// The statuses after `caller` has written `message`.
pub open spec fn record(statuses: Statuses, caller: Seq<char>, message: Seq<char>) -> Statuses {
    statuses.insert(caller, message)
}

/// One write: who wrote, and what.
pub struct Write {
    pub caller: Seq<char>,
    pub message: Seq<char>,
}

/// The statuses of a registry that started empty and took `writes` in order.
pub open spec fn replay(writes: Seq<Write>) -> Statuses
    decreases writes.len(),
{
    if writes.len() == 0 {
        Map::empty()
    } else {
        record(replay(writes.drop_last()), writes.last().caller, writes.last().message)
    }
}

/// The view of an optional string.
pub open spec fn message_view(message: Option<String>) -> Option<Seq<char>> {
    match message {
        Some(text) => Some(text@),
        None => None,
    }
}

/// One deployed status registry.
pub struct Registry {
    statuses: Table<String>,
}

impl View for Registry {
    type V = Statuses;

    closed spec fn view(&self) -> Statuses {
        self.statuses.contents().map_values(|message: String| message@)
    }
}

impl Registry {
    /// A registry as it is right after deployment: nobody has a status.
    pub fn new() -> (registry: Registry)
        ensures
            registry@ == Map::<Seq<char>, Seq<char>>::empty(),
    {
        let registry = Registry { statuses: Table::new() };
        assert(registry@ =~= Map::<Seq<char>, Seq<char>>::empty());
        registry
    }

    /// Stores `message` as the status of `caller`, in place of any status that
    /// `caller` had. Every string is a legal message, the empty one too.
    ///
    /// The entry written is always the caller's own: no other account's status
    /// changes.
    pub fn set_status(&mut self, caller: &Identity, message: String)
        ensures
            final(self)@ == record(old(self)@, caller@, message@),
    {
        self.statuses.put(caller.name(), message);
        assert(self@ =~= record(old(self)@, caller@, message@));
    }

    /// The status of `account_id`, or `None` where that account has never
    /// written one. Any account may be asked about.
    pub fn get_status(&self, account_id: &Identity) -> (status: Option<String>)
        ensures
            message_view(status) == lookup(self@, account_id@),
    {
        match self.statuses.get(account_id.name()) {
            Some(message) => Some(message.clone()),
            None => None,
        }
    }
}

/// An account that has written nothing has no status: after any writes of
/// which none is by `account`, reading `account` gives nothing.
pub proof fn lemma_silent_account_is_absent(writes: Seq<Write>, account: Seq<char>)
    requires
        forall|k: int| 0 <= k < writes.len() ==> (#[trigger] writes[k]).caller != account,
    ensures
        lookup(replay(writes), account) is None,
    decreases writes.len(),
{
    if writes.len() > 0 {
        let earlier = writes.drop_last();
        assert forall|k: int| 0 <= k < earlier.len() implies (#[trigger] earlier[k]).caller
            != account by {
            assert(earlier[k] == writes[k]);
        }
        lemma_silent_account_is_absent(earlier, account);
        assert(writes.last() == writes[writes.len() - 1]);
    }
}

/// What an account wrote is what anybody reads for it.
pub proof fn lemma_read_after_write(statuses: Statuses, caller: Seq<char>, message: Seq<char>)
    ensures
        lookup(record(statuses, caller, message), caller) == Some(message),
{
}

/// A write changes the writer's status and nobody else's.
pub proof fn lemma_write_is_self_only(
    statuses: Statuses,
    caller: Seq<char>,
    message: Seq<char>,
    other: Seq<char>,
)
    requires
        other != caller,
    ensures
        lookup(record(statuses, caller, message), other) == lookup(statuses, other),
{
}

/// Two accounts do not interfere: after `first` wrote `m1` and then `second`
/// wrote `m2`, each reads back its own message.
pub proof fn lemma_non_interference(
    statuses: Statuses,
    first: Seq<char>,
    second: Seq<char>,
    m1: Seq<char>,
    m2: Seq<char>,
)
    requires
        first != second,
    ensures
        lookup(record(record(statuses, first, m1), second, m2), first) == Some(m1),
        lookup(record(record(statuses, first, m1), second, m2), second) == Some(m2),
{
}

/// Writing the same message twice in a row leaves the registry as writing it
/// once does.
pub proof fn lemma_write_is_idempotent(statuses: Statuses, caller: Seq<char>, message: Seq<char>)
    ensures
        record(record(statuses, caller, message), caller, message) == record(
            statuses,
            caller,
            message,
        ),
{
    assert(record(record(statuses, caller, message), caller, message) =~= record(
        statuses,
        caller,
        message,
    ));
}

/// A status stays until its owner writes again: after `caller` wrote
/// `message`, and then others wrote whatever they wrote, `caller` still reads
/// `message`.
pub proof fn lemma_status_lasts_until_rewritten(
    earlier: Seq<Write>,
    caller: Seq<char>,
    message: Seq<char>,
    later: Seq<Write>,
)
    requires
        forall|k: int| 0 <= k < later.len() ==> (#[trigger] later[k]).caller != caller,
    ensures
        lookup(replay(earlier.push(Write { caller, message }) + later), caller) == Some(message),
    decreases later.len(),
{
    let written = earlier.push(Write { caller, message });
    if later.len() == 0 {
        assert(written + later =~= written);
        assert(written.drop_last() =~= earlier);
    } else {
        let all = written + later;
        assert(all.drop_last() =~= written + later.drop_last());
        assert(all.last() == later[later.len() - 1]);
        assert forall|k: int| 0 <= k < later.drop_last().len() implies (
        #[trigger] later.drop_last()[k]).caller != caller by {
            assert(later.drop_last()[k] == later[k]);
        }
        lemma_status_lasts_until_rewritten(earlier, caller, message, later.drop_last());
    }
}

} // verus!
