//! The authorization gate: which principal each operation asks for.

use vstd::prelude::*;
use vstd::utf8::encode_utf8;
use crate::error::ContractError;
use crate::error::Operation;
use crate::msg::Caller;
use crate::msg::CallerView;
use crate::msg::ExecuteAnswer;
use crate::msg::ExecuteMsg;
use crate::msg::ExecuteMsgView;
use crate::msg::InstantiateMsg;
use crate::msg::QueryMsg;
use crate::msg::Response;
use crate::state::is_listed;
use crate::state::same_identity;
use crate::state::State;
use crate::state::StateStore;
use crate::state::StateView;
use crate::digest::sha_256_digest;
use crate::viewing_key::entries_after_mint;
use crate::viewing_key::key_digest;
use crate::viewing_key::minted;
use crate::viewing_key::seed_key;
use crate::viewing_key::stored_digest;
use crate::viewing_key::CallContext;
use crate::viewing_key::Entries;
use crate::viewing_key::KeyStore;

verus! {

/// One instance of the store: its record and its viewing keys.
pub struct Instance {
    pub state: StateStore,
    pub keys: KeyStore,
}

/// An instance as plain values.
pub struct InstanceView {
    /// The record, once the instance is initialized.
    pub state: Option<StateView>,
    /// The entries of the viewing key store.
    pub keys: Entries,
}

impl View for Instance {
    type V = InstanceView;

    open spec fn view(&self) -> InstanceView {
        InstanceView { state: self.state@, keys: self.keys.entries() }
    }
}

/// How a mutating call ends: with the viewing key it minted, if it minted
/// one, or with the reason for which it was rejected.
pub type Outcome = Result<Option<Seq<char>>, ContractError>;

/// Whether a result is the given outcome.
pub open spec fn answers(result: Result<Response, ContractError>, outcome: Outcome) -> bool {
    match (result, outcome) {
        (Ok(response), Ok(key)) => response.carries(key),
        (Err(e), Err(expected)) => e == expected,
        _ => false,
    }
}

/// Initialization: the caller becomes the owner of a fresh record and the
/// digest of the raw seed becomes the seed of the viewing keys. An instance
/// that has a record stays as it is.
pub open spec fn instantiated(
    pre: InstanceView,
    info: CallerView,
    prng_seed: Seq<u8>,
) -> (InstanceView, Outcome) {
    match (info.canonical, pre.state) {
        (None, _) => (pre, Err(ContractError::Malformed)),
        (Some(_), Some(_)) => (pre, Err(ContractError::AlreadyInitialized)),
        (Some(sender), None) => (
            InstanceView {
                state: Some(StateView::fresh(sender)),
                keys: pre.keys.insert(seed_key(), sha_256_digest(prng_seed)),
            },
            Ok(None),
        ),
    }
}

/// Replacing the allow-list: the owner's call replaces it wholesale, any
/// other call changes nothing.
pub open spec fn viewers_set(
    pre: InstanceView,
    info: CallerView,
    viewers: Seq<Seq<u8>>,
) -> (InstanceView, Outcome) {
    match (info.canonical, pre.state) {
        (None, _) => (pre, Err(ContractError::Malformed)),
        (Some(_), None) => (pre, Err(ContractError::NotFound)),
        (Some(sender), Some(state)) => if sender == state.owner {
            (
                InstanceView {
                    state: Some(StateView { allowed_viewers: viewers, ..state }),
                    ..pre
                },
                Ok(None),
            )
        } else {
            (pre, Err(ContractError::Unauthorized(Operation::SetViewers)))
        },
    }
}

/// Replacing the secret payload: the owner's call overwrites it, any other
/// call changes nothing.
pub open spec fn secret_variables_set(
    pre: InstanceView,
    info: CallerView,
    secret_variables: Seq<char>,
) -> (InstanceView, Outcome) {
    match (info.canonical, pre.state) {
        (None, _) => (pre, Err(ContractError::Malformed)),
        (Some(_), None) => (pre, Err(ContractError::NotFound)),
        (Some(sender), Some(state)) => if sender == state.owner {
            (
                InstanceView { state: Some(StateView { secret_variables, ..state }), ..pre },
                Ok(None),
            )
        } else {
            (pre, Err(ContractError::Unauthorized(Operation::SetSecretVariables)))
        },
    }
}

/// Minting a viewing key: a caller on the allow-list gets a key for itself,
/// whose digest replaces the one on record; any other call changes nothing.
pub open spec fn viewing_key_generated(
    pre: InstanceView,
    info: CallerView,
    env: CallContext,
    entropy: Seq<char>,
) -> (InstanceView, Outcome) {
    match (info.canonical, pre.state) {
        (None, _) => (pre, Err(ContractError::Malformed)),
        (Some(_), None) => (pre, Err(ContractError::NotFound)),
        (Some(sender), Some(state)) => if state.allowed_viewers.contains(sender) {
            (
                InstanceView {
                    keys: entries_after_mint(
                        pre.keys,
                        info.address,
                        env.block_height,
                        env.block_time_nanos,
                        info.address,
                        encode_utf8(entropy),
                    ),
                    ..pre
                },
                Ok(
                    Some(
                        minted(
                            pre.keys,
                            info.address,
                            env.block_height,
                            env.block_time_nanos,
                            encode_utf8(entropy),
                        ).0,
                    ),
                ),
            )
        } else {
            (pre, Err(ContractError::Unauthorized(Operation::GenerateViewingKey)))
        },
    }
}

/// A mutating call, by its message.
pub open spec fn executed(
    pre: InstanceView,
    env: CallContext,
    info: CallerView,
    msg: ExecuteMsgView,
) -> (InstanceView, Outcome) {
    match msg {
        ExecuteMsgView::SetViewers { viewers } => viewers_set(pre, info, viewers),
        ExecuteMsgView::SetSecretVariables { secret_variables } => secret_variables_set(
            pre,
            info,
            secret_variables,
        ),
        ExecuteMsgView::GenerateViewingKey { entropy } => viewing_key_generated(
            pre,
            info,
            env,
            entropy,
        ),
    }
}

/// Reading the payload: it is revealed to whoever presents the viewing key
/// that is on record for the named account, and to nobody else.
pub open spec fn secret_variables_read(
    pre: InstanceView,
    viewing_key: Seq<char>,
    account: Seq<char>,
) -> Result<Seq<char>, ContractError> {
    match pre.state {
        None => Err(ContractError::NotFound),
        Some(state) => if stored_digest(pre.keys, account) == Some(key_digest(viewing_key)) {
            Ok(state.secret_variables)
        } else {
            Err(ContractError::Unauthorized(Operation::GetSecretVariables))
        },
    }
}

impl Instance {
    /// An instance that is not initialized: no record, no seed, no keys.
    pub fn new() -> (instance: Instance)
        ensures
            instance@.state is None,
            instance@.keys == Entries::empty(),
    {
        Instance { state: StateStore::new(), keys: KeyStore::new() }
    }
}

/// Initializes the instance for the caller.
pub fn instantiate(
    deps: &mut Instance,
    _env: &CallContext,
    info: &Caller,
    msg: &InstantiateMsg,
) -> (result: Result<Response, ContractError>)
    ensures
        final(deps)@ == instantiated(old(deps)@, info@, msg.prng_seed@).0,
        answers(result, instantiated(old(deps)@, info@, msg.prng_seed@).1),
{
    let owner = match &info.canonical {
        Some(sender) => sender.clone(),
        None => {
            return Err(ContractError::Malformed);
        },
    };
    match deps.state.initialize(owner) {
        Ok(_) => {},
        Err(e) => {
            return Err(e);
        },
    }
    deps.keys.set_seed(msg.prng_seed.as_slice());
    Ok(Response::new())
}

/// Replaces the allow-list, for the owner.
pub fn try_set_viewers(
    deps: &mut Instance,
    info: &Caller,
    viewers: Vec<Vec<u8>>,
) -> (result: Result<Response, ContractError>)
    ensures
        final(deps)@ == viewers_set(old(deps)@, info@, viewers.deep_view()).0,
        answers(result, viewers_set(old(deps)@, info@, viewers.deep_view()).1),
{
    let sender = match &info.canonical {
        Some(sender) => sender,
        None => {
            return Err(ContractError::Malformed);
        },
    };
    let ghost replacement = viewers.deep_view();
    let transform = |state: State| -> (out: Result<State, ContractError>)
        ensures
            match out {
                Ok(next) => sender@ == state@.owner && next@ == (StateView {
                    allowed_viewers: replacement,
                    ..state@
                }),
                Err(e) => sender@ != state@.owner && e == ContractError::Unauthorized(
                    Operation::SetViewers,
                ),
            },
        {
            if same_identity(sender, &state.owner) {
                let mut state = state;
                state.allowed_viewers = viewers;
                Ok(state)
            } else {
                Err(ContractError::Unauthorized(Operation::SetViewers))
            }
        };
    match deps.state.update(transform) {
        Ok(_) => Ok(Response::new()),
        Err(e) => Err(e),
    }
}

/// Replaces the secret payload, for the owner.
pub fn try_set_secret_variables(
    deps: &mut Instance,
    info: &Caller,
    secret_variables: String,
) -> (result: Result<Response, ContractError>)
    ensures
        final(deps)@ == secret_variables_set(old(deps)@, info@, secret_variables@).0,
        answers(result, secret_variables_set(old(deps)@, info@, secret_variables@).1),
{
    let sender = match &info.canonical {
        Some(sender) => sender,
        None => {
            return Err(ContractError::Malformed);
        },
    };
    let state = match deps.state.load() {
        Ok(state) => state,
        Err(e) => {
            return Err(e);
        },
    };
    if !same_identity(sender, &state.owner) {
        return Err(ContractError::Unauthorized(Operation::SetSecretVariables));
    }
    let ghost replacement = secret_variables@;
    let transform = |state: State| -> (out: Result<State, ContractError>)
        ensures
            out matches Ok(next) && next@ == (StateView {
                secret_variables: replacement,
                ..state@
            }),
        {
            let mut state = state;
            state.secret_variables = secret_variables;
            Ok(state)
        };
    match deps.state.update(transform) {
        Ok(_) => Ok(Response::new()),
        Err(e) => Err(e),
    }
}

/// Mints a viewing key for the caller, if the caller is on the allow-list.
pub fn try_generate_viewing_key(
    deps: &mut Instance,
    info: &Caller,
    env: &CallContext,
    entropy: String,
) -> (result: Result<Response, ContractError>)
    ensures
        final(deps)@ == viewing_key_generated(old(deps)@, info@, *env, entropy@).0,
        answers(result, viewing_key_generated(old(deps)@, info@, *env, entropy@).1),
{
    let sender = match &info.canonical {
        Some(sender) => sender,
        None => {
            return Err(ContractError::Malformed);
        },
    };
    let state = match deps.state.load() {
        Ok(state) => state,
        Err(e) => {
            return Err(e);
        },
    };
    if !is_listed(&state.allowed_viewers, sender) {
        return Err(ContractError::Unauthorized(Operation::GenerateViewingKey));
    }
    let key = deps.keys.create(info.address.as_str(), entropy.as_str(), env);
    Ok(Response::new().set_data(ExecuteAnswer::ViewingKeyResponse { key }))
}

/// Runs a mutating call.
pub fn execute(
    deps: &mut Instance,
    env: &CallContext,
    info: &Caller,
    msg: ExecuteMsg,
) -> (result: Result<Response, ContractError>)
    ensures
        final(deps)@ == executed(old(deps)@, *env, info@, msg@).0,
        answers(result, executed(old(deps)@, *env, info@, msg@).1),
{
    match msg {
        ExecuteMsg::SetViewers { viewers } => try_set_viewers(deps, info, viewers),
        ExecuteMsg::SetSecretVariables { secret_variables } => try_set_secret_variables(
            deps,
            info,
            secret_variables,
        ),
        ExecuteMsg::GenerateViewingKey { entropy } => try_generate_viewing_key(
            deps,
            info,
            env,
            entropy,
        ),
    }
}

/// Reads the secret payload with the viewing key of `account`.
pub fn query_secret_variables(
    deps: &Instance,
    viewing_key: String,
    account: String,
) -> (result: Result<String, ContractError>)
    ensures
        match (result, secret_variables_read(deps@, viewing_key@, account@)) {
            (Ok(payload), Ok(expected)) => payload@ == expected,
            (Err(e), Err(expected)) => e == expected,
            _ => false,
        },
{
    let state = match deps.state.load() {
        Ok(state) => state,
        Err(e) => {
            return Err(e);
        },
    };
    let checked = deps.keys.check(account.as_str(), viewing_key.as_str());
    if !checked.is_ok() {
        return Err(ContractError::Unauthorized(Operation::GetSecretVariables));
    }
    Ok(state.secret_variables)
}

/// Runs a read-only call.
pub fn query(
    deps: &Instance,
    _env: &CallContext,
    msg: QueryMsg,
) -> (result: Result<String, ContractError>)
    ensures
        match msg {
            QueryMsg::GetSecretVariables { viewing_key, account } => match (
                result,
                secret_variables_read(deps@, viewing_key@, account@),
            ) {
                (Ok(payload), Ok(expected)) => payload@ == expected,
                (Err(e), Err(expected)) => e == expected,
                _ => false,
            },
        },
{
    match msg {
        QueryMsg::GetSecretVariables { viewing_key, account } => query_secret_variables(
            deps,
            viewing_key,
            account,
        ),
    }
}

} // verus!
