use vstd::prelude::*;
use crate::command::{extract_prompt, prompt_of};
use crate::config::Config;
use crate::nova::{create_request, option_view, NovaRequest};
use crate::reply::BotError;
use crate::store::{resolve_spec, ContinuityStore};

verus! {

/// The decisions of one chat session: which token a call uses, what is sent, what is kept.
pub struct SessionBridge {
    store: ContinuityStore,
    config: Config,
}

impl View for SessionBridge {
    type V = Map<i64, Seq<char>>;

    closed spec fn view(&self) -> Map<i64, Seq<char>> {
        self.store@
    }
}

impl SessionBridge {
    pub closed spec fn wf(&self) -> bool {
        self.store.wf()
    }

    pub closed spec fn config_spec(&self) -> Config {
        self.config
    }

    pub fn new(config: Config) -> (r: SessionBridge)
        ensures
            r.wf(),
            r@ == Map::<i64, Seq<char>>::empty(),
            r.config_spec() == config,
    {
        SessionBridge { store: ContinuityStore::new(), config }
    }

    pub fn config(&self) -> (r: &Config)
        ensures
            *r == self.config_spec(),
    {
        &self.config
    }

    /// Builds the gateway request for a chat command, resolving the chat's token; a command
    /// without a prompt is refused before any session is touched.
    pub fn prepare_chat(&mut self, chat_id: i64, text: &str) -> (r: Result<NovaRequest, BotError>)
        requires
            old(self).wf(),
        ensures
            final(self).wf(),
            final(self).config_spec() == old(self).config_spec(),
            match prompt_of(text@) {
                None => final(self)@ == old(self)@ && r matches Err(BotError::MissingMessageText),
                Some(p) => {
                    let (tokens, token) = resolve_spec(old(self)@, chat_id);
                    let c = old(self).config_spec();
                    &&& final(self)@ == tokens
                    &&& r is Ok
                    &&& option_view(r->Ok_0.ref_id) == Some(token)
                    &&& r->Ok_0.input@ == p
                    &&& r->Ok_0.model@ == c.nova_model_spec()
                    &&& r->Ok_0.verbosity@ == c.nova_verbosity_spec()
                    &&& r->Ok_0.max_tokens == c.nova_max_tokens_spec()
                    &&& r->Ok_0.reasoning == c.reasoning_spec().enabled
                    &&& (c.reasoning_spec().enabled ==> r->Ok_0.reasoning_params is Some
                        && option_view(r->Ok_0.reasoning_params.unwrap().effort) == option_view(
                        c.reasoning_spec().effort,
                    ))
                    &&& (!c.reasoning_spec().enabled ==> r->Ok_0.reasoning_params is None)
                    &&& r->Ok_0.image_urls is None
                },
            },
    {
        let prompt = match extract_prompt(text) {
            Some(p) => p,
            None => return Err(BotError::MissingMessageText),
        };
        let token = self.store.resolve_or_create(chat_id);
        Ok(
            create_request(
                Some(token),
                prompt,
                self.config.nova_model(),
                self.config.nova_verbosity(),
                self.config.nova_max_tokens(),
                self.config.reasoning(),
            ),
        )
    }

    /// The token whose history a reset clears (created when the chat has none yet).
    pub fn prepare_reset(&mut self, chat_id: i64) -> (r: String)
        requires
            old(self).wf(),
        ensures
            final(self).wf(),
            final(self).config_spec() == old(self).config_spec(),
            (final(self)@, r@) == resolve_spec(old(self)@, chat_id),
            r@.len() > 0,
    {
        self.store.resolve_or_create(chat_id)
    }

    /// Writes the token back once the gateway has cleared its history.
    pub fn confirm_reset(&mut self, chat_id: i64, token: String)
        requires
            old(self).wf(),
            token@.len() > 0,
        ensures
            final(self).wf(),
            final(self).config_spec() == old(self).config_spec(),
            final(self)@ == old(self)@.insert(chat_id, token@),
    {
        self.store.replace_token(chat_id, token);
    }
}

/// A reset clears the history of the token the chat resolves to, and writing that token back
/// leaves every session as resolving left it: the chat resolves to the same token afterwards.
pub proof fn lemma_reset_keeps_token(tokens: Map<i64, Seq<char>>, chat_id: i64)
    ensures
        ({
            let (resolved, token) = resolve_spec(tokens, chat_id);
            &&& resolved.insert(chat_id, token) == resolved
            &&& resolve_spec(resolved.insert(chat_id, token), chat_id) == (resolved, token)
        }),
{
    let (resolved, token) = resolve_spec(tokens, chat_id);
    assert(resolved.insert(chat_id, token) =~= resolved);
}

} // verus!
