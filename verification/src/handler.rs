//! The handler: a total, stateless map from a request to its response.

use crate::greeting::{greeting, GREETING_PREFIX};
use crate::message::{Request, Response};
use vstd::prelude::*;
use vstd::string::StringExecFns;

verus! {

/// Answers one invocation.
///
/// Every request is answered: there is no input on which the handler fails.
/// The response is the greeting for the request's command and depends on
/// nothing else.
pub fn function_handler(request: Request) -> (response: Response)
    ensures
        response@ == greeting(request@),
{
    let message = String::from_str(GREETING_PREFIX).concat(request.command.as_str());
    Response { message }
}

/// Invoking the handler twice on identical input gives identical output:
/// whatever two invocations on requests with the same command return, the
/// two responses agree. Nothing carries over from one invocation to the next.
pub proof fn lemma_handler_is_deterministic(
    first_request: Request,
    second_request: Request,
    first_response: Response,
    second_response: Response,
)
    requires
        first_request@ == second_request@,
        first_response@ == greeting(first_request@),
        second_response@ == greeting(second_request@),
    ensures
        first_response@ == second_response@,
{
}

} // verus!
