use std::collections::HashMap;
use vstd::prelude::*;

verus! {

broadcast use vstd::std_specs::hash::group_hash_axioms;

/// Saturating addition on `usize`, the arithmetic of the cumulative
/// token counters.
pub open spec fn sat_add(a: int, b: int) -> int {
    if a + b <= usize::MAX {
        a + b
    } else {
        usize::MAX as int
    }
}

/// Per-user record: an enablement flag and cumulative token counters.
#[derive(Clone, Copy, PartialEq, Eq, Structural, Debug)]
pub struct UserRecord {
    pub enabled: bool,
    pub completion_tokens: usize,
    pub prompt_tokens: usize,
}

impl UserRecord {
    /// The record of a user the store has never seen.
    pub open spec fn absent() -> UserRecord {
        UserRecord { enabled: false, completion_tokens: 0, prompt_tokens: 0 }
    }
}

/// In-memory conversation store: per-chat ordered message history and
/// per-user records.  History entries are appended, never rewritten in
/// place; a chat or user that was never written reads as empty.
pub struct Store {
    histories: HashMap<i64, Vec<String>>,
    users: HashMap<u64, UserRecord>,
}

impl Store {
    /// The stored history of one chat, oldest entry first.
    pub closed spec fn history(self, chat_id: i64) -> Seq<Seq<char>> {
        if self.histories@.contains_key(chat_id) {
            self.histories@[chat_id].deep_view()
        } else {
            Seq::empty()
        }
    }

    /// The record of one user.
    pub closed spec fn user(self, user_id: u64) -> UserRecord {
        if self.users@.contains_key(user_id) {
            self.users@[user_id]
        } else {
            UserRecord::absent()
        }
    }

    /// An empty store: every chat history is empty and every user is
    /// unknown.
    pub fn new() -> (s: Store)
        ensures
            forall|c: i64| s.history(c) == Seq::<Seq<char>>::empty(),
            forall|u: u64| s.user(u) == UserRecord::absent(),
    {
        Store { histories: HashMap::new(), users: HashMap::new() }
    }

    /// Reads the full history of one chat (empty if the chat was never
    /// written).
    pub fn get_messages(&self, chat_id: i64) -> (r: Vec<String>)
        ensures
            r.deep_view() == self.history(chat_id),
    {
        match self.histories.get(&chat_id) {
            Some(v) => v.clone(),
            None => Vec::new(),
        }
    }

    /// Appends one entry at the end of a chat's history.
    pub fn add_message(&mut self, chat_id: i64, message: String)
        ensures
            final(self).history(chat_id) == old(self).history(chat_id).push(message@),
            forall|c: i64| c != chat_id ==> final(self).history(c) == old(self).history(c),
            forall|u: u64| final(self).user(u) == old(self).user(u),
    {
        let mut entries: Vec<String> = match self.histories.remove(&chat_id) {
            Some(v) => v,
            None => Vec::new(),
        };
        entries.push(message);
        let ghost expected: Seq<Seq<char>> = old(self).history(chat_id).push(message@);
        proof {
            assert(entries.deep_view() =~= expected);
        }
        self.histories.insert(chat_id, entries);
    }

    /// Removes and returns the most recent entry of a chat's history; a
    /// pop on an empty history is a no-op.
    pub fn pop_message(&mut self, chat_id: i64) -> (r: Option<String>)
        ensures
            old(self).history(chat_id).len() == 0 ==> r is None && final(self).history(chat_id)
                == old(self).history(chat_id),
            old(self).history(chat_id).len() > 0 ==> {
                &&& r matches Some(e) && e@ == old(self).history(chat_id).last()
                &&& final(self).history(chat_id) == old(self).history(chat_id).drop_last()
            },
            forall|c: i64| c != chat_id ==> final(self).history(c) == old(self).history(c),
            forall|u: u64| final(self).user(u) == old(self).user(u),
    {
        let mut entries: Vec<String> = match self.histories.remove(&chat_id) {
            Some(v) => v,
            None => Vec::new(),
        };
        let popped = entries.pop();
        let ghost remaining: Seq<Seq<char>> = if old(self).history(chat_id).len() == 0 {
            old(self).history(chat_id)
        } else {
            old(self).history(chat_id).drop_last()
        };
        proof {
            assert(entries.deep_view() =~= remaining);
        }
        self.histories.insert(chat_id, entries);
        popped
    }

    /// Clears the whole stored history of one chat.
    pub fn clear_messages(&mut self, chat_id: i64)
        ensures
            final(self).history(chat_id) == Seq::<Seq<char>>::empty(),
            forall|c: i64| c != chat_id ==> final(self).history(c) == old(self).history(c),
            forall|u: u64| final(self).user(u) == old(self).user(u),
    {
        self.histories.remove(&chat_id);
    }

    /// Whether a user has been enabled.
    pub fn check_user(&self, user_id: u64) -> (r: bool)
        ensures
            r == self.user(user_id).enabled,
    {
        match self.users.get(&user_id) {
            Some(rec) => rec.enabled,
            None => false,
        }
    }

    /// Reads a user's whole record (the absent record for a user the
    /// store has never seen).
    pub fn get_user(&self, user_id: u64) -> (r: UserRecord)
        ensures
            r == self.user(user_id),
    {
        match self.users.get(&user_id) {
            Some(rec) => *rec,
            None => UserRecord { enabled: false, completion_tokens: 0, prompt_tokens: 0 },
        }
    }

    /// Marks a user as enabled, keeping the token counters.
    pub fn enable_user(&mut self, user_id: u64)
        ensures
            final(self).user(user_id) == (UserRecord {
                enabled: true,
                ..old(self).user(user_id)
            }),
            forall|u: u64| u != user_id ==> final(self).user(u) == old(self).user(u),
            forall|c: i64| final(self).history(c) == old(self).history(c),
    {
        let rec = match self.users.get(&user_id) {
            Some(rec) => *rec,
            None => UserRecord { enabled: false, completion_tokens: 0, prompt_tokens: 0 },
        };
        self.users.insert(user_id, UserRecord { enabled: true, ..rec });
    }

    /// Adds a provider call's token usage to a user's cumulative
    /// counters, saturating at the machine limit.
    pub fn increase_token(&mut self, user_id: u64, completion_tokens: usize, prompt_tokens: usize)
        ensures
            final(self).user(user_id).enabled == old(self).user(user_id).enabled,
            final(self).user(user_id).completion_tokens == sat_add(
                old(self).user(user_id).completion_tokens as int,
                completion_tokens as int,
            ),
            final(self).user(user_id).prompt_tokens == sat_add(
                old(self).user(user_id).prompt_tokens as int,
                prompt_tokens as int,
            ),
            forall|u: u64| u != user_id ==> final(self).user(u) == old(self).user(u),
            forall|c: i64| final(self).history(c) == old(self).history(c),
    {
        let rec = match self.users.get(&user_id) {
            Some(rec) => *rec,
            None => UserRecord { enabled: false, completion_tokens: 0, prompt_tokens: 0 },
        };
        let new_completion: usize = if rec.completion_tokens <= usize::MAX - completion_tokens {
            rec.completion_tokens + completion_tokens
        } else {
            usize::MAX
        };
        let new_prompt: usize = if rec.prompt_tokens <= usize::MAX - prompt_tokens {
            rec.prompt_tokens + prompt_tokens
        } else {
            usize::MAX
        };
        self.users.insert(
            user_id,
            UserRecord {
                enabled: rec.enabled,
                completion_tokens: new_completion,
                prompt_tokens: new_prompt,
            },
        );
    }
}

} // verus!
