//! The library's error taxonomy. `Api` is a failure reported by the remote
//! service, qualified by the endpoint that was called; `Custom` is a local
//! precondition failure.

use vstd::prelude::*;
use vstd::string::StringExecFns;

use crate::text::spec_dec_str;
use crate::text::u64_to_dec_string;

verus! {

#[derive(Clone, Debug)]
pub enum SubqueryError {
    /// A failure the server reported: endpoint, status code, message.
    Api(String, u64, String),
    /// A local precondition failure, described in the message.
    Custom(String),
}

impl SubqueryError {
    /// How the error reads when surfaced to the user.
    pub open spec fn spec_message(self) -> Seq<char> {
        match self {
            SubqueryError::Api(endpoint, code, msg) => "Failed to request: ["@ + endpoint@ + "] ["@
                + spec_dec_str(code as nat) + "]: "@ + msg@,
            SubqueryError::Custom(msg) => "Custom: "@ + msg@,
        }
    }

    /// Renders the error for the user.
    pub fn message(&self) -> (r: String)
        ensures
            r@ == self.spec_message(),
    {
        match self {
            SubqueryError::Api(endpoint, code, msg) => {
                let mut s = String::from_str("Failed to request: [");
                s.append(endpoint.as_str());
                s.append("] [");
                let code_str = u64_to_dec_string(*code);
                s.append(code_str.as_str());
                s.append("]: ");
                s.append(msg.as_str());
                assert(s@ =~= self.spec_message());
                s
            },
            SubqueryError::Custom(msg) => {
                let mut s = String::from_str("Custom: ");
                s.append(msg.as_str());
                assert(s@ =~= self.spec_message());
                s
            },
        }
    }
}

} // verus!
