//! The four requests that the service answers: where each one goes and
//! what a submission carries.

use crate::parameters::Parameter;
use vstd::prelude::*;
use vstd::string::StringExecFns;

verus! {

/// HTTP method of a request.
#[derive(Debug, Clone, Copy, PartialEq, Eq, Structural)]
pub enum Method {
    /// Reads without changing anything.
    Get,
    /// Creates or changes an execution.
    Post,
}

/// One of the four requests of the service.
#[derive(Debug)]
pub enum Endpoint {
    /// Submits a query for execution.
    Execute {
        /// Query to execute.
        query_id: u32,
    },
    /// Checks the status of an execution.
    Status {
        /// Execution to check.
        execution_id: String,
    },
    /// Fetches the results of an execution.
    Results {
        /// Execution to fetch.
        execution_id: String,
    },
    /// Asks for an execution to be cancelled.
    Cancel {
        /// Execution to cancel.
        execution_id: String,
    },
}

/// The character of one decimal digit.
pub open spec fn digit(value: nat) -> char {
    if value == 0 {
        '0'
    } else if value == 1 {
        '1'
    } else if value == 2 {
        '2'
    } else if value == 3 {
        '3'
    } else if value == 4 {
        '4'
    } else if value == 5 {
        '5'
    } else if value == 6 {
        '6'
    } else if value == 7 {
        '7'
    } else if value == 8 {
        '8'
    } else {
        '9'
    }
}

/// A number written in decimal, without sign or leading zeros.
pub open spec fn decimal(value: nat) -> Seq<char>
    decreases value,
{
    if value < 10 {
        seq![digit(value)]
    } else {
        decimal(value / 10).push(digit(value % 10))
    }
}

/// The path of the request that submits `query_id`.
pub open spec fn execute_path(query_id: nat) -> Seq<char> {
    "/queries/"@ + decimal(query_id) + "/execute"@
}

/// The path of a request about an execution: `/execution/`, the
/// identifier, a slash and the action.
pub open spec fn execution_path(execution_id: Seq<char>, action: Seq<char>) -> Seq<char> {
    "/execution/"@ + execution_id + "/"@ + action
}

fn digit_text(value: u32) -> (text: &'static str)
    requires
        value < 10,
    ensures
        text@ == seq![digit(value as nat)],
{
    proof {
        reveal_strlit("0");
        reveal_strlit("1");
        reveal_strlit("2");
        reveal_strlit("3");
        reveal_strlit("4");
        reveal_strlit("5");
        reveal_strlit("6");
        reveal_strlit("7");
        reveal_strlit("8");
        reveal_strlit("9");
    }
    let text = if value == 0 {
        "0"
    } else if value == 1 {
        "1"
    } else if value == 2 {
        "2"
    } else if value == 3 {
        "3"
    } else if value == 4 {
        "4"
    } else if value == 5 {
        "5"
    } else if value == 6 {
        "6"
    } else if value == 7 {
        "7"
    } else if value == 8 {
        "8"
    } else {
        "9"
    };
    assert(text@ =~= seq![digit(value as nat)]);
    text
}

/// Writes a number in decimal.
pub fn decimal_text(value: u32) -> (text: String)
    ensures
        text@ == decimal(value as nat),
    decreases value,
{
    if value < 10 {
        digit_text(value).to_owned()
    } else {
        let higher = decimal_text(value / 10);
        let text = higher.concat(digit_text(value % 10));
        assert(text@ =~= decimal(value as nat));
        text
    }
}

impl Endpoint {
    /// The method that the service expects for this request.
    pub open spec fn spec_method(self) -> Method {
        match self {
            Endpoint::Execute { .. } => Method::Post,
            Endpoint::Status { .. } => Method::Get,
            Endpoint::Results { .. } => Method::Get,
            Endpoint::Cancel { .. } => Method::Post,
        }
    }

    /// The path of this request below the root of the service.
    pub open spec fn spec_path(self) -> Seq<char> {
        match self {
            Endpoint::Execute { query_id } => execute_path(query_id as nat),
            Endpoint::Status { execution_id } => execution_path(execution_id@, "status"@),
            Endpoint::Results { execution_id } => execution_path(execution_id@, "results"@),
            Endpoint::Cancel { execution_id } => execution_path(execution_id@, "cancel"@),
        }
    }

    /// The method that the service expects for this request.
    pub fn method(&self) -> (method: Method)
        ensures
            method == self.spec_method(),
    {
        match self {
            Endpoint::Execute { .. } => Method::Post,
            Endpoint::Status { .. } => Method::Get,
            Endpoint::Results { .. } => Method::Get,
            Endpoint::Cancel { .. } => Method::Post,
        }
    }

    /// The path of this request below the root of the service.
    pub fn path(&self) -> (path: String)
        ensures
            path@ == self.spec_path(),
    {
        match self {
            Endpoint::Execute { query_id } => {
                let number = decimal_text(*query_id);
                "/queries/".to_owned().concat(number.as_str()).concat("/execute")
            },
            Endpoint::Status { execution_id } => "/execution/".to_owned().concat(
                execution_id.as_str(),
            ).concat("/").concat("status"),
            Endpoint::Results { execution_id } => "/execution/".to_owned().concat(
                execution_id.as_str(),
            ).concat("/").concat("results"),
            Endpoint::Cancel { execution_id } => "/execution/".to_owned().concat(
                execution_id.as_str(),
            ).concat("/").concat("cancel"),
        }
    }
}

/// The pairs of name and value that a submission carries for its
/// parameters, in the order of the parameters.
pub open spec fn parameter_pairs(parameters: Seq<Parameter>) -> Seq<(Seq<char>, Seq<char>)> {
    Seq::new(parameters.len(), |index: int| (parameters[index].key@, parameters[index].value@))
}

/// The content of a sequence of pairs of strings.
pub open spec fn pairs_view(pairs: Seq<(String, String)>) -> Seq<(Seq<char>, Seq<char>)> {
    Seq::new(pairs.len(), |index: int| (pairs[index].0@, pairs[index].1@))
}

/// Lists what a submission sends for its parameters: for each one its name
/// and its value, whatever its kind, in the order given.
pub fn query_parameters(parameters: &Vec<Parameter>) -> (pairs: Vec<(String, String)>)
    ensures
        pairs_view(pairs@) == parameter_pairs(parameters@),
{
    let mut pairs: Vec<(String, String)> = Vec::new();
    let mut index: usize = 0;
    while index < parameters.len()
        invariant
            index <= parameters.len(),
            pairs_view(pairs@) == parameter_pairs(parameters@.subrange(0, index as int)),
        decreases parameters.len() - index,
    {
        let ghost before = pairs@;
        let parameter = &parameters[index];
        pairs.push((parameter.key.clone(), parameter.value.clone()));
        index = index + 1;
        proof {
            let sent = pairs_view(pairs@);
            let wanted = parameter_pairs(parameters@.subrange(0, index as int));
            let earlier = parameter_pairs(parameters@.subrange(0, index - 1));
            assert(pairs_view(before) == earlier);
            assert forall|at: int| 0 <= at < sent.len() implies sent[at] == wanted[at] by {
                if at < index - 1 {
                    assert(pairs@[at] == before[at]);
                    assert(sent[at] == pairs_view(before)[at]);
                    assert(earlier[at] == wanted[at]);
                }
            }
            assert(sent =~= wanted);
        }
    }
    assert(parameters@.subrange(0, index as int) =~= parameters@);
    pairs
}

} // verus!
