//! What a call carries in, and what it hands back.

use vstd::prelude::*;

verus! {

/// The caller of a mutating call, as the platform has authenticated it.
#[derive(Debug)]
pub struct Caller {
    /// The caller's address as the platform writes it. Viewing keys are
    /// kept under this name.
    pub address: String,
    /// The address in canonical form, or `None` where the platform could not
    /// bring it into that form.
    pub canonical: Option<Vec<u8>>,
}

/// A caller as plain values.
pub struct CallerView {
    pub address: Seq<char>,
    pub canonical: Option<Seq<u8>>,
}

impl View for Caller {
    type V = CallerView;

    open spec fn view(&self) -> CallerView {
        CallerView {
            address: self.address@,
            canonical: match self.canonical {
                Some(bytes) => Some(bytes@),
                None => None,
            },
        }
    }
}

/// The message that initializes an instance.
#[derive(Debug)]
pub struct InstantiateMsg {
    /// The raw seed of the viewing keys. Only its digest is kept.
    pub prng_seed: Vec<u8>,
}

/// The mutating operations.
#[derive(Debug)]
pub enum ExecuteMsg {
    /// Replace the allow-list by these principals, given in canonical form.
    SetViewers { viewers: Vec<Vec<u8>> },
    /// Replace the secret payload.
    SetSecretVariables { secret_variables: String },
    /// Mint a viewing key for the caller.
    GenerateViewingKey { entropy: String },
}

/// A mutating operation as plain values.
pub enum ExecuteMsgView {
    SetViewers { viewers: Seq<Seq<u8>> },
    SetSecretVariables { secret_variables: Seq<char> },
    GenerateViewingKey { entropy: Seq<char> },
}

impl View for ExecuteMsg {
    type V = ExecuteMsgView;

    open spec fn view(&self) -> ExecuteMsgView {
        match self {
            ExecuteMsg::SetViewers { viewers } => ExecuteMsgView::SetViewers {
                viewers: viewers.deep_view(),
            },
            ExecuteMsg::SetSecretVariables { secret_variables } => {
                ExecuteMsgView::SetSecretVariables { secret_variables: secret_variables@ }
            },
            ExecuteMsg::GenerateViewingKey { entropy } => ExecuteMsgView::GenerateViewingKey {
                entropy: entropy@,
            },
        }
    }
}

/// The read-only operations.
#[derive(Debug)]
pub enum QueryMsg {
    /// Read the secret payload with the viewing key of `account`.
    GetSecretVariables { viewing_key: String, account: String },
}

/// What a mutating operation answers with.
#[derive(Debug)]
pub enum ExecuteAnswer {
    /// The viewing key that was minted.
    ViewingKeyResponse { key: String },
}

/// What a successful call hands back to the platform.
#[derive(Debug)]
pub struct Response {
    /// Messages for the platform to dispatch. No operation of this store
    /// sends any.
    pub messages: Vec<Vec<u8>>,
    /// The answer of the operation, if it has one.
    pub data: Option<ExecuteAnswer>,
}

impl Response {
    /// The viewing key that the response carries, if it carries one.
    pub open spec fn minted_key(&self) -> Option<Seq<char>> {
        match self.data {
            Some(ExecuteAnswer::ViewingKeyResponse { key }) => Some(key@),
            None => None,
        }
    }

    /// The response as plain values: no messages, and the key if there is one.
    pub open spec fn carries(&self, key: Option<Seq<char>>) -> bool {
        self.messages@.len() == 0 && self.minted_key() == key
    }

    /// A response without messages and without an answer.
    pub fn new() -> (response: Response)
        ensures
            response.carries(None),
    {
        Response { messages: Vec::new(), data: None }
    }

    /// The response with `answer` as its answer.
    pub fn set_data(self, answer: ExecuteAnswer) -> (response: Response)
        ensures
            response.messages == self.messages,
            response.data == Some(answer),
    {
        Response { messages: self.messages, data: Some(answer) }
    }
}

} // verus!
