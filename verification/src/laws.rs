//! What holds of every instance, whatever calls it receives.

use vstd::prelude::*;
use vstd::utf8::encode_utf8;
use crate::contract::executed;
use crate::contract::instantiated;
use crate::contract::secret_variables_read;
use crate::contract::secret_variables_set;
use crate::contract::viewers_set;
use crate::contract::viewing_key_generated;
use crate::contract::InstanceView;
use crate::error::ContractError;
use crate::error::Operation;
use crate::msg::CallerView;
use crate::msg::ExecuteMsgView;
use crate::state::StateView;
use crate::viewing_key::key_digest;
use crate::viewing_key::lemma_mint_records;
use crate::viewing_key::stored_digest;
use crate::viewing_key::CallContext;

verus! {

/// A call that may change an instance.
pub enum Call {
    Instantiate { info: CallerView, prng_seed: Seq<u8> },
    Execute { env: CallContext, info: CallerView, msg: ExecuteMsgView },
}

impl Call {
    /// The caller's canonical identity, where it has one.
    pub open spec fn sender(self) -> Option<Seq<u8>> {
        match self {
            Call::Instantiate { info, .. } => info.canonical,
            Call::Execute { info, .. } => info.canonical,
        }
    }
}

/// The instance after one call.
pub open spec fn stepped(pre: InstanceView, call: Call) -> InstanceView {
    match call {
        Call::Instantiate { info, prng_seed } => instantiated(pre, info, prng_seed).0,
        Call::Execute { env, info, msg } => executed(pre, env, info, msg).0,
    }
}

/// The instance after a sequence of calls, made one after the other.
pub open spec fn after(pre: InstanceView, calls: Seq<Call>) -> InstanceView
    decreases calls.len(),
{
    if calls.len() == 0 {
        pre
    } else {
        stepped(after(pre, calls.drop_last()), calls.last())
    }
}

/// Initialization succeeds exactly on an instance without a record, for a
/// caller with a canonical identity, and makes that caller the owner.
pub proof fn law_initializer_becomes_owner(pre: InstanceView, info: CallerView, prng_seed: Seq<u8>)
    ensures
        instantiated(pre, info, prng_seed).1 is Ok <==> pre.state is None && info.canonical is Some,
        instantiated(pre, info, prng_seed).1 is Ok ==> instantiated(pre, info, prng_seed).0.state
            == Some(StateView::fresh(info.canonical->0)),
        instantiated(pre, info, prng_seed).1 is Err ==> instantiated(pre, info, prng_seed).0 == pre,
{
}

/// Once an instance has an owner, no sequence of calls gives it another, and
/// none takes its record away.
pub proof fn law_owner_never_changes(pre: InstanceView, calls: Seq<Call>)
    requires
        pre.state is Some,
    ensures
        after(pre, calls).state is Some,
        after(pre, calls).state->0.owner == pre.state->0.owner,
    decreases calls.len(),
{
    if calls.len() > 0 {
        law_owner_never_changes(pre, calls.drop_last());
    }
}

/// Whatever calls follow a successful initialization, the owner is the
/// caller that initialized the instance.
pub proof fn law_owner_is_the_initializer(
    pre: InstanceView,
    info: CallerView,
    prng_seed: Seq<u8>,
    calls: Seq<Call>,
)
    requires
        instantiated(pre, info, prng_seed).1 is Ok,
    ensures
        after(instantiated(pre, info, prng_seed).0, calls).state is Some,
        Some(after(instantiated(pre, info, prng_seed).0, calls).state->0.owner) == info.canonical,
{
    law_owner_never_changes(instantiated(pre, info, prng_seed).0, calls);
}

/// Replacing the allow-list succeeds for the owner and for nobody else: the
/// owner's list replaces the old one wholesale, a stranger is told
/// `Unauthorized`, and a rejected call leaves the instance as it was.
pub proof fn law_only_owner_sets_viewers(pre: InstanceView, info: CallerView, viewers: Seq<Seq<u8>>)
    ensures
        viewers_set(pre, info, viewers).1 is Ok <==> pre.state is Some && info.canonical == Some(
            pre.state->0.owner,
        ),
        viewers_set(pre, info, viewers).1 is Ok ==> viewers_set(pre, info, viewers).0.state == Some(
            StateView { allowed_viewers: viewers, ..pre.state->0 },
        ) && viewers_set(pre, info, viewers).0.keys == pre.keys,
        viewers_set(pre, info, viewers).1 is Err ==> viewers_set(pre, info, viewers).0 == pre,
        pre.state is Some && info.canonical is Some && info.canonical->0 != pre.state->0.owner
            ==> viewers_set(pre, info, viewers).1 == Err::<Option<Seq<char>>, ContractError>(
            ContractError::Unauthorized(Operation::SetViewers),
        ),
{
}

/// Replacing the payload succeeds for the owner and for nobody else, and a
/// rejected call leaves the instance as it was.
pub proof fn law_only_owner_sets_secret_variables(
    pre: InstanceView,
    info: CallerView,
    secret_variables: Seq<char>,
)
    ensures
        secret_variables_set(pre, info, secret_variables).1 is Ok <==> pre.state is Some
            && info.canonical == Some(pre.state->0.owner),
        secret_variables_set(pre, info, secret_variables).1 is Err ==> secret_variables_set(
            pre,
            info,
            secret_variables,
        ).0 == pre,
        pre.state is Some && info.canonical is Some && info.canonical->0 != pre.state->0.owner
            ==> secret_variables_set(pre, info, secret_variables).1 == Err::<
            Option<Seq<char>>,
            ContractError,
        >(ContractError::Unauthorized(Operation::SetSecretVariables)),
{
}

/// A sequence of calls of which none comes from the owner leaves the record
/// as it was: owner, allow-list and payload.
pub proof fn law_strangers_change_no_record(pre: InstanceView, calls: Seq<Call>)
    requires
        pre.state is Some,
        forall|i: int| 0 <= i < calls.len() ==> (#[trigger] calls[i]).sender() != Some(
            pre.state->0.owner,
        ),
    ensures
        after(pre, calls).state == pre.state,
    decreases calls.len(),
{
    if calls.len() > 0 {
        law_strangers_change_no_record(pre, calls.drop_last());
        assert(calls.last() == calls[calls.len() - 1]);
    }
}

/// An account that is not on the allow-list is told `Unauthorized` when it
/// asks for a viewing key, and nothing is put on record or replaced.
pub proof fn law_unlisted_account_gets_no_key(
    pre: InstanceView,
    info: CallerView,
    env: CallContext,
    entropy: Seq<char>,
)
    requires
        pre.state is Some,
        info.canonical is Some,
        !pre.state->0.allowed_viewers.contains(info.canonical->0),
    ensures
        viewing_key_generated(pre, info, env, entropy).1 == Err::<Option<Seq<char>>, ContractError>(
            ContractError::Unauthorized(Operation::GenerateViewingKey),
        ),
        viewing_key_generated(pre, info, env, entropy).0 == pre,
{
}

/// An account on the allow-list gets a viewing key, the key verifies for the
/// account from then on, the payload is read with it, and the keys on record
/// for other accounts are untouched.
pub proof fn law_listed_account_gets_verifying_key(
    pre: InstanceView,
    info: CallerView,
    env: CallContext,
    entropy: Seq<char>,
)
    requires
        pre.state is Some,
        info.canonical is Some,
        pre.state->0.allowed_viewers.contains(info.canonical->0),
    ensures
        viewing_key_generated(pre, info, env, entropy).1 matches Ok(Some(key)) && {
            let post = viewing_key_generated(pre, info, env, entropy).0;
            &&& post.state == pre.state
            &&& stored_digest(post.keys, info.address) == Some(key_digest(key))
            &&& secret_variables_read(post, key, info.address) == Ok::<Seq<char>, ContractError>(
                pre.state->0.secret_variables,
            )
            &&& forall|other: Seq<char>|
                other != info.address ==> #[trigger] stored_digest(post.keys, other)
                    == stored_digest(pre.keys, other)
        },
{
    lemma_mint_records(
        pre.keys,
        info.address,
        env.block_height,
        env.block_time_nanos,
        info.address,
        encode_utf8(entropy),
    );
}

/// Of two viewing keys minted one after the other for one account, the later
/// one verifies, and the earlier one verifies no longer unless both have the
/// same digest.
pub proof fn law_newest_key_replaces_older(
    pre: InstanceView,
    info: CallerView,
    first_env: CallContext,
    first_entropy: Seq<char>,
    second_env: CallContext,
    second_entropy: Seq<char>,
)
    requires
        pre.state is Some,
        info.canonical is Some,
        pre.state->0.allowed_viewers.contains(info.canonical->0),
    ensures
        ({
            let middle = viewing_key_generated(pre, info, first_env, first_entropy).0;
            let post = viewing_key_generated(middle, info, second_env, second_entropy).0;
            &&& viewing_key_generated(pre, info, first_env, first_entropy).1 matches Ok(Some(first))
            &&& viewing_key_generated(middle, info, second_env, second_entropy).1 matches Ok(
                Some(second),
            )
            &&& secret_variables_read(post, second, info.address) is Ok
            &&& secret_variables_read(post, first, info.address) is Ok <==> key_digest(first)
                == key_digest(second)
        }),
{
    let middle = viewing_key_generated(pre, info, first_env, first_entropy).0;
    lemma_mint_records(
        middle.keys,
        info.address,
        second_env.block_height,
        second_env.block_time_nanos,
        info.address,
        encode_utf8(second_entropy),
    );
}

/// A payload that the owner has set is what a read returns to whoever
/// presents a viewing key that verifies.
pub proof fn law_payload_round_trip(
    pre: InstanceView,
    owner: CallerView,
    secret_variables: Seq<char>,
    viewing_key: Seq<char>,
    account: Seq<char>,
)
    requires
        secret_variables_set(pre, owner, secret_variables).1 is Ok,
        stored_digest(pre.keys, account) == Some(key_digest(viewing_key)),
    ensures
        secret_variables_read(
            secret_variables_set(pre, owner, secret_variables).0,
            viewing_key,
            account,
        ) == Ok::<Seq<char>, ContractError>(secret_variables),
{
}

/// Replacing the allow-list takes no viewing key away: a key that verified
/// before verifies after, also for an account that is no longer listed.
pub proof fn law_revocation_is_prospective(
    pre: InstanceView,
    owner: CallerView,
    viewers: Seq<Seq<u8>>,
    viewing_key: Seq<char>,
    account: Seq<char>,
)
    requires
        secret_variables_read(pre, viewing_key, account) is Ok,
    ensures
        secret_variables_read(viewers_set(pre, owner, viewers).0, viewing_key, account)
            == secret_variables_read(pre, viewing_key, account),
{
}

/// A read is refused with `Unauthorized` for an account that has no viewing
/// key on record, whatever is presented, and before initialization nothing
/// is read at all.
pub proof fn law_no_key_no_read(pre: InstanceView, viewing_key: Seq<char>, account: Seq<char>)
    ensures
        pre.state is None ==> secret_variables_read(pre, viewing_key, account) == Err::<
            Seq<char>,
            ContractError,
        >(ContractError::NotFound),
        pre.state is Some && stored_digest(pre.keys, account) is None ==> secret_variables_read(
            pre,
            viewing_key,
            account,
        ) == Err::<Seq<char>, ContractError>(
            ContractError::Unauthorized(Operation::GetSecretVariables),
        ),
{
}

} // verus!
