//! Dispatch of commands against a storage handle.

use vstd::prelude::*;

verus! {

/// Something that executes commands.
pub trait CommandHandler {
    type Props;

    type Response;

    type Error;

    fn execute(&mut self, props: Self::Props) -> Result<Self::Response, Self::Error>;
}

/// A contract module over a storage handle of type `S`. Commands do not touch
/// the storage.
pub struct ContractModule<S> {
    pub storage: S,
}

#[derive(Debug, PartialEq, Eq, Structural)]
pub enum CommandResponse {
    ExampleUpdateResponse { is_active: bool },
}

#[derive(Debug, PartialEq, Eq, Structural)]
pub enum CommandError {
    ExampleUpdateError {  },
}

pub enum CommandMsg {
    ExampleUpdate { is_active: bool },
    ExampleFailingUpdate { is_active: bool },
}

impl CommandMsg {
    /// What executing the command gives: an update answers with the flag it
    /// was sent, a failing update fails.
    pub open spec fn outcome(self) -> Result<CommandResponse, CommandError> {
        match self {
            CommandMsg::ExampleUpdate { is_active } => Ok(
                CommandResponse::ExampleUpdateResponse { is_active },
            ),
            CommandMsg::ExampleFailingUpdate { is_active: _ } => Err(
                CommandError::ExampleUpdateError {  },
            ),
        }
    }
}

impl<S> CommandHandler for ContractModule<S> {
    type Props = CommandMsg;

    type Response = CommandResponse;

    type Error = CommandError;

    fn execute(&mut self, props: CommandMsg) -> (r: Result<CommandResponse, CommandError>)
        ensures
            r == props.outcome(),
            final(self).storage == old(self).storage,
    {
        match props {
            CommandMsg::ExampleUpdate { is_active } => {
                Ok(CommandResponse::ExampleUpdateResponse { is_active })
            },
            CommandMsg::ExampleFailingUpdate { is_active: _ } => {
                Err(CommandError::ExampleUpdateError {  })
            },
        }
    }
}

} // verus!
