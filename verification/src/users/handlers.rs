//! The request that creates an account on behalf of somebody else.

use crate::auth::flow::{
    out_of_turn, Effect, EffectView, Event, EventView, Moment, MomentView, Reply, ReplyView,
};
use crate::auth::handlers::{register, register_next, RegisterState, RegisterStateView};
use crate::users::dto::{public_face, FilterUserDto};
use crate::users::model::{User, UserView};
use vstd::prelude::*;

verus! {

/// What the creation of an account ends with once the record was stored:
/// the public face of the record. A record that the store hands back
/// without its times cannot be shown.
pub open spec fn account_outcome(user: UserView) -> EffectView {
    if user.created_at is Some && user.updated_at is Some {
        EffectView::Reply { reply: ReplyView::Account { account: public_face(user, Seq::empty()) } }
    } else {
        out_of_turn()
    }
}

/// Ends the creation of an account, given the record that was stored.
pub fn account_reply(user: &User) -> (r: Effect)
    ensures
        r@ == account_outcome(user@),
{
    if user.created_at.is_some() && user.updated_at.is_some() {
        Effect::Reply { reply: Reply::Account { account: FilterUserDto::filter_user(user) } }
    } else {
        Effect::unexpected()
    }
}

/// The next state and effect of the creation of an account. It goes the way
/// of a registration up to the stored record; then it answers with the
/// public face of the record, and no mail is asked for.
pub open spec fn create_user_next(state: RegisterStateView, event: EventView, moment: MomentView) -> (
    RegisterStateView,
    EffectView,
) {
    match (state, event) {
        (RegisterStateView::Saving { token }, EventView::UserStored { user }) => (
            RegisterStateView::Finished,
            account_outcome(user),
        ),
        (RegisterStateView::Mailing, _) => (RegisterStateView::Finished, out_of_turn()),
        _ => register_next(state, event, moment),
    }
}

/// One step of the creation of an account: checks the request, makes sure
/// that the address is free, stores the account and answers with its public
/// face.
pub fn create_user(state: RegisterState, event: Event, moment: &Moment) -> (r: (
    RegisterState,
    Effect,
))
    ensures
        (r.0@, r.1@) == create_user_next(state@, event@, moment@),
        r.1@ matches EffectView::InsertUser { user } ==> user.password_hash.len() > 0,
{
    match (state, event) {
        (RegisterState::Saving { token }, Event::UserStored { user }) => (
            RegisterState::Finished,
            account_reply(&user),
        ),
        (RegisterState::Mailing, _) => (RegisterState::Finished, Effect::unexpected()),
        (state, event) => register(state, event, moment),
    }
}

} // verus!
