use vstd::prelude::*;
use crate::events::TokenState;

verus! {

/// Token state as the rest of the application observes it. `Init` is only the
/// seed of the observable stream, before any real event.
#[derive(Clone, Debug)]
pub enum UserTokenState {
    Init,
    Refresh { token: String },
    Invalid,
}

/// The observable form of a raw token event. A refresh is reported with the
/// token that the auth client returned when asked; when it could not return
/// one (`fetched_token` is `None`) nothing is reported for that event.
pub open spec fn user_token_state(
    state: TokenState,
    fetched_token: Option<String>,
) -> Option<UserTokenState> {
    match state {
        TokenState::Refresh => match fetched_token {
            Some(token) => Some(UserTokenState::Refresh { token }),
            None => None,
        },
        TokenState::Invalid => Some(UserTokenState::Invalid),
    }
}

/// Converts a raw token event into its observable form; `fetched_token` is
/// what the auth client returned for the current token, if anything.
pub fn observe_token_state(state: TokenState, fetched_token: Option<String>) -> (r: Option<
    UserTokenState,
>)
    ensures
        r == user_token_state(state, fetched_token),
        r matches Some(u) ==> !(u is Init),
{
    match state {
        TokenState::Refresh => match fetched_token {
            Some(token) => Some(UserTokenState::Refresh { token }),
            None => None,
        },
        TokenState::Invalid => Some(UserTokenState::Invalid),
    }
}

/// Present value plus history of the observable token-state stream.
pub struct TokenStateWatch {
    current: UserTokenState,
    history: Ghost<Seq<UserTokenState>>,
}

impl TokenStateWatch {
    /// Every value the stream has held, oldest first; the last is the current
    /// one.
    pub closed spec fn view(&self) -> Seq<UserTokenState> {
        self.history@
    }

    /// The stream starts at `Init`, never holds `Init` again, and its present
    /// value is the last one in its history.
    pub closed spec fn wf(&self) -> bool {
        &&& self.history@.len() >= 1
        &&& self.history@[0] is Init
        &&& forall|i: int| 1 <= i < self.history@.len() ==> !(#[trigger] self.history@[i] is Init)
        &&& self.current == self.history@.last()
    }

    /// A stream seeded with `Init`.
    pub fn new() -> (r: TokenStateWatch)
        ensures
            r.wf(),
            r@ == seq![UserTokenState::Init],
    {
        let history = Ghost(Seq::empty().push(UserTokenState::Init));
        TokenStateWatch { current: UserTokenState::Init, history }
    }

    /// Feeds one raw token event into the stream. Returns whether a new value
    /// was emitted; when one was, it is the event's observable form.
    pub fn publish(&mut self, state: TokenState, fetched_token: Option<String>) -> (emitted: bool)
        requires
            old(self).wf(),
        ensures
            final(self).wf(),
            match user_token_state(state, fetched_token) {
                Some(u) => emitted && final(self)@ == old(self)@.push(u),
                None => !emitted && final(self)@ == old(self)@,
            },
    {
        match observe_token_state(state, fetched_token) {
            Some(u) => {
                let ghost pushed = self.history@.push(u);
                self.current = u;
                self.history = Ghost(pushed);
                assert(self.history@[self.history@.len() - 1] == self.current);
                true
            },
            None => false,
        }
    }

    /// The stream's present value.
    pub fn current(&self) -> (r: UserTokenState)
        requires
            self.wf(),
        ensures
            r == self@.last(),
    {
        match &self.current {
            UserTokenState::Init => UserTokenState::Init,
            UserTokenState::Refresh { token } => UserTokenState::Refresh { token: token.clone() },
            UserTokenState::Invalid => UserTokenState::Invalid,
        }
    }

    /// A well-formed stream begins with `Init` and holds only `Refresh` and
    /// `Invalid` values after it.
    pub proof fn lemma_init_only_first(&self)
        requires
            self.wf(),
        ensures
            self@.len() >= 1,
            self@[0] is Init,
            forall|i: int| 1 <= i < self@.len() ==> !(#[trigger] self@[i] is Init),
    {
    }
}

} // verus!
