//! Cancellation scopes.

use tokio_util::sync::CancellationToken;
use vstd::prelude::*;

verus! {

/// A token of `tokio_util` that requests for cancellation travel through.
#[verifier::external_type_specification]
#[verifier::external_body]
pub struct ExCancellationToken(CancellationToken);

/// The tokens that a token was derived from, directly or through others: those
/// whose cancellation cancels it as well.
pub uninterp spec fn token_ancestors(token: CancellationToken) -> Set<CancellationToken>;

/// `CancellationToken::new` makes a token that is derived from no other. Owners
/// of a token may cancel it at any time, so nothing is claimed of the state
/// that it is in.
pub assume_specification[ CancellationToken::new ]() -> (res: CancellationToken)
    ensures
        token_ancestors(res) == Set::<CancellationToken>::empty(),
;

/// `CancellationToken::child_token` makes a token that is cancelled whenever
/// this one is, and so whenever one that this one was derived from is. Nothing
/// is claimed of the state that it is in.
pub assume_specification[ CancellationToken::child_token ](token: &CancellationToken) -> (res:
    CancellationToken)
    ensures
        token_ancestors(res) == token_ancestors(*token).insert(*token),
;

/// `CancellationToken::cancel` cancels the token and those derived from it.
/// The effect reaches other owners of the token, and no value that this call
/// could speak of.
pub assume_specification[ CancellationToken::cancel ](token: &CancellationToken);

/// The token was told to cancel: a call of `CancellationToken::cancel` on it
/// has returned.
pub open spec fn token_told(token: CancellationToken) -> bool {
    call_ensures(CancellationToken::cancel, (&token,), ())
}

/// `CancellationToken::is_cancelled` tells whether the token is cancelled at
/// the moment of the call. Nothing is claimed of the answer.
#[verifier::external_body]
fn token_is_cancelled(token: &CancellationToken) -> bool {
    token.is_cancelled()
}

/// The token gives this answer to the question whether it is cancelled, at some
/// moment at which it is asked.
pub closed spec fn token_answers(token: CancellationToken, answer: bool) -> bool {
    call_ensures(token_is_cancelled, (&token,), answer)
}

/// `CancellationToken::clone` makes another owner of the same token: the two
/// compare equal, and each is cancelled when the other is.
pub assume_specification[ <CancellationToken as Clone>::clone ](token: &CancellationToken) -> (res:
    CancellationToken)
    ensures
        res == *token,
;

/// A scope that can be cancelled, along with the scopes derived from it.
pub struct Cancel {
    fired: bool,
    token: CancellationToken,
}

impl Cancel {
    /// The scope was cancelled by its owner, or was derived from one that had
    /// been.
    pub closed spec fn fired(&self) -> bool {
        self.fired
    }

    /// The token that the scope's cancellation travels through.
    pub closed spec fn carrier(&self) -> CancellationToken {
        self.token
    }

    /// The tokens whose cancellation cancels the scope, besides its own.
    pub open spec fn ancestors(&self) -> Set<CancellationToken> {
        token_ancestors(self.carrier())
    }

    /// This is an answer to the question whether the scope is cancelled: one
    /// that was is from then on, and of another its token says.
    pub open spec fn answers(&self, cancelled: bool) -> bool {
        &&& self.fired() ==> cancelled
        &&& !self.fired() ==> token_answers(self.carrier(), cancelled)
    }

    /// A scope of its own.
    pub fn root() -> (scope: Cancel)
        ensures
            !scope.fired(),
            scope.ancestors() == Set::<CancellationToken>::empty(),
    {
        Cancel { fired: false, token: CancellationToken::new() }
    }

    /// A scope within this one.
    pub fn child(&self) -> (scope: Cancel)
        ensures
            scope.fired() == self.fired(),
            scope.ancestors() == self.ancestors().insert(self.carrier()),
    {
        Cancel { fired: self.fired, token: self.token.child_token() }
    }

    /// The same scope, for another owner.
    pub fn share(&self) -> (scope: Cancel)
        ensures
            scope.fired() == self.fired(),
            scope.carrier() == self.carrier(),
    {
        Cancel { fired: self.fired, token: self.token.clone() }
    }

    /// Cancels the scope, and those within it: its token is told.
    pub fn cancel(&mut self)
        ensures
            final(self).fired(),
            final(self).carrier() == old(self).carrier(),
            token_told(old(self).carrier()),
    {
        self.token.cancel();
        self.fired = true;
    }

    /// Whether the scope is cancelled, given what its token says.
    pub fn is_cancelled_given(&self, token_cancelled: bool) -> (cancelled: bool)
        ensures
            cancelled == (self.fired() || token_cancelled),
    {
        self.fired || token_cancelled
    }

    /// Whether the scope is cancelled. A scope that was is from then on; one
    /// that was not may be cancelled from the scope that it lies in, so its own
    /// token is asked.
    pub fn is_cancelled(&self) -> (cancelled: bool)
        ensures
            self.answers(cancelled),
    {
        self.is_cancelled_given(token_is_cancelled(&self.token))
    }

    /// The token to wait on for the scope's cancellation.
    pub fn token(&self) -> (token: CancellationToken)
        ensures
            token == self.carrier(),
    {
        self.token.clone()
    }
}

/// A scope's answer: `true` once it was cancelled here, and before that whatever
/// its own token says. Its ancestors are those of its token.
pub proof fn law_scope_answers(scope: Cancel, cancelled: bool)
    ensures
        scope.fired() ==> (scope.answers(cancelled) <==> cancelled),
        !scope.fired() ==> (scope.answers(cancelled) <==> token_answers(
            scope.carrier(),
            cancelled,
        )),
        scope.ancestors() == token_ancestors(scope.carrier()),
{
}

/// A token was told to cancel when `CancellationToken::cancel` was called on it.
pub proof fn law_token_told(token: CancellationToken)
    ensures
        token_told(token) <==> call_ensures(CancellationToken::cancel, (&token,), ()),
{
}

/// A token's answer is that of `CancellationToken::is_cancelled`.
proof fn lemma_token_asked(token: CancellationToken, answer: bool)
    ensures
        token_answers(token, answer) <==> call_ensures(token_is_cancelled, (&token,), answer),
{
}

} // verus!
