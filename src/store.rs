use std::collections::HashMap;
use vstd::prelude::*;
use crate::decimal::{i64_to_decimal, lemma_decimal_digits_nonempty, signed_decimal};

verus! {

broadcast use vstd::std_specs::hash::group_hash_axioms;

/// Per-chat session record: the continuity token, assigned on first use.
#[derive(Debug, Default)]
pub struct ChatState {
    pub ref_id: Option<String>,
}

/// The token a chat is given before any reset: its identifier in decimal.
pub open spec fn default_token(chat_id: i64) -> Seq<char> {
    signed_decimal(chat_id as int)
}

/// Resolving a chat's token: the stored one, or the default one, stored from then on.
pub open spec fn resolve_spec(tokens: Map<i64, Seq<char>>, chat_id: i64) -> (Map<i64, Seq<char>>, Seq<char>) {
    if tokens.contains_key(chat_id) {
        (tokens, tokens[chat_id])
    } else {
        (tokens.insert(chat_id, default_token(chat_id)), default_token(chat_id))
    }
}

/// In-memory mapping from chat identifier to its session.
pub struct ContinuityStore {
    chat_states: HashMap<i64, ChatState>,
}

impl View for ContinuityStore {
    type V = Map<i64, Seq<char>>;

    closed spec fn view(&self) -> Map<i64, Seq<char>> {
        Map::new(
            |k: i64| self.chat_states@.contains_key(k),
            |k: i64| self.chat_states@[k].ref_id.unwrap()@,
        )
    }
}

impl ContinuityStore {
    /// Every stored session holds a token, and no token is empty.
    pub closed spec fn wf(&self) -> bool {
        forall|k: i64| #[trigger]
            self.chat_states@.contains_key(k) ==> (self.chat_states@[k].ref_id is Some
                && self.chat_states@[k].ref_id.unwrap()@.len() > 0)
    }

    pub fn new() -> (r: ContinuityStore)
        ensures
            r.wf(),
            r@ == Map::<i64, Seq<char>>::empty(),
    {
        let r = ContinuityStore { chat_states: HashMap::new() };
        assert(r@ =~= Map::<i64, Seq<char>>::empty());
        r
    }

    /// The chat's token, created from its identifier when the chat has none yet.
    pub fn resolve_or_create(&mut self, chat_id: i64) -> (r: String)
        requires
            old(self).wf(),
        ensures
            final(self).wf(),
            (final(self)@, r@) == resolve_spec(old(self)@, chat_id),
            r@.len() > 0,
    {
        let found: Option<String> = match self.chat_states.get(&chat_id) {
            Some(state) => match &state.ref_id {
                Some(token) => Some(token.clone()),
                None => None,
            },
            None => None,
        };
        match found {
            Some(token) => token,
            None => {
                let token = i64_to_decimal(chat_id);
                proof {
                    lemma_decimal_digits_nonempty(if chat_id < 0 { (-chat_id) as nat } else { chat_id as nat });
                }
                let _ = self.chat_states.insert(chat_id, ChatState { ref_id: Some(token.clone()) });
                assert(self@ =~= old(self)@.insert(chat_id, token@));
                token
            },
        }
    }

    /// Sets the chat's token, creating the session when needed.
    pub fn replace_token(&mut self, chat_id: i64, token: String)
        requires
            old(self).wf(),
            token@.len() > 0,
        ensures
            final(self).wf(),
            final(self)@ == old(self)@.insert(chat_id, token@),
    {
        let ghost t = token@;
        let _ = self.chat_states.insert(chat_id, ChatState { ref_id: Some(token) });
        assert(self@ =~= old(self)@.insert(chat_id, t));
    }
}

/// A chat seen for the first time gets its identifier in decimal, and resolving it again
/// gives the same token and leaves the sessions as they were.
pub proof fn lemma_first_token_is_identifier(tokens: Map<i64, Seq<char>>, chat_id: i64)
    requires
        !tokens.contains_key(chat_id),
    ensures
        resolve_spec(tokens, chat_id).1 == signed_decimal(chat_id as int),
        resolve_spec(resolve_spec(tokens, chat_id).0, chat_id) == resolve_spec(tokens, chat_id),
{
}

/// Resolving never changes a token that is already stored.
pub proof fn lemma_resolve_keeps_existing(tokens: Map<i64, Seq<char>>, chat_id: i64)
    requires
        tokens.contains_key(chat_id),
    ensures
        resolve_spec(tokens, chat_id) == (tokens, tokens[chat_id]),
{
}

} // verus!
