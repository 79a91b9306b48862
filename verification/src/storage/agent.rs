//! Whether the agent may run: its record must say it is activated.

use vstd::prelude::*;
use crate::errors::{Code, MiruError, INTERNAL_SERVER_ERROR};
use crate::models::agent::Agent;

verus! {

/// The agent's record says it is not activated.
#[derive(Debug)]
pub struct AgentNotActivatedErr {
    pub msg: String,
}

impl MiruError for AgentNotActivatedErr {
    open spec fn spec_code(&self) -> Code {
        Code::InternalServerError
    }

    open spec fn spec_http_status(&self) -> u16 {
        INTERNAL_SERVER_ERROR
    }

    open spec fn spec_is_network_connection_error(&self) -> bool {
        false
    }

    fn code(&self) -> (r: Code) {
        Code::InternalServerError
    }

    fn http_status(&self) -> (r: u16) {
        INTERNAL_SERVER_ERROR
    }

    fn is_network_connection_error(&self) -> (r: bool) {
        false
    }
}

/// Checks the agent's record (read from its file): an error unless it is activated.
pub fn assert_activated(agent: &Agent) -> (r: Result<(), AgentNotActivatedErr>)
    ensures
        agent.activated <==> r is Ok,
        r matches Err(e) ==> e.msg@ == "agent is not activated"@,
{
    if !agent.activated {
        return Err(AgentNotActivatedErr { msg: "agent is not activated".to_string() });
    }
    Ok(())
}

} // verus!
