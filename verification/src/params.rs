//! Validation of the `connect` endpoint's request parameters.
//!
//! The HTTP layer decodes the request's parameters and hands each one
//! over as absent, text, or a value of some other type. A missing or
//! mistyped parameter is caller error: it fails the request locally,
//! before any command is sent to the network controller, and never
//! escalates.

use vstd::prelude::*;
use crate::network::NetworkCommand;

verus! {

/// One request parameter as the HTTP layer hands it over: a text
/// value, or a value of some other type that does not convert to text.
#[derive(Debug, Clone, PartialEq, Eq)]
pub enum ParamInput {
    Text(String),
    NonText,
}

/// The three parameters of the `connect` endpoint, in the order they
/// are checked.
#[derive(Debug, Clone, Copy, PartialEq, Eq, Structural)]
pub enum ParamName {
    Ssid,
    Identity,
    Passphrase,
}

/// Why a request parameter was rejected.
#[derive(Debug, Clone, Copy, PartialEq, Eq, Structural)]
pub enum ParamError {
    /// The parameter was absent from the request.
    Missing(ParamName),
    /// The parameter was present but not of string type.
    WrongType(ParamName),
}

impl ParamError {
    /// The classification shown to the client in place of the request's
    /// result. It names the parameter and the fault, nothing more.
    pub open spec fn spec_description(self) -> Seq<char> {
        match self {
            ParamError::Missing(ParamName::Ssid) => "'ssid' not found in request params"@,
            ParamError::Missing(ParamName::Identity) => "'identity' not found in request params"@,
            ParamError::Missing(ParamName::Passphrase) => {
                "'passphrase' not found in request params"@
            },
            ParamError::WrongType(ParamName::Ssid) => "Unexpected type for 'ssid'"@,
            ParamError::WrongType(ParamName::Identity) => "Unexpected type for 'identity'"@,
            ParamError::WrongType(ParamName::Passphrase) => "Unexpected type for 'passphrase'"@,
        }
    }

    /// Returns the classification as text.
    pub fn description(&self) -> (s: String)
        ensures
            s@ == self.spec_description(),
    {
        match self {
            ParamError::Missing(ParamName::Ssid) => "'ssid' not found in request params".to_owned(),
            ParamError::Missing(ParamName::Identity) => {
                "'identity' not found in request params".to_owned()
            },
            ParamError::Missing(ParamName::Passphrase) => {
                "'passphrase' not found in request params".to_owned()
            },
            ParamError::WrongType(ParamName::Ssid) => "Unexpected type for 'ssid'".to_owned(),
            ParamError::WrongType(ParamName::Identity) => {
                "Unexpected type for 'identity'".to_owned()
            },
            ParamError::WrongType(ParamName::Passphrase) => {
                "Unexpected type for 'passphrase'".to_owned()
            },
        }
    }
}

/// The fault of one parameter, if it has one.
pub open spec fn spec_param_fault(p: Option<ParamInput>, name: ParamName) -> Option<ParamError> {
    match p {
        Option::None => Option::Some(ParamError::Missing(name)),
        Option::Some(ParamInput::NonText) => Option::Some(ParamError::WrongType(name)),
        Option::Some(ParamInput::Text(_)) => Option::None,
    }
}

/// What validating a `connect` request yields: the command to send, or
/// the fault of the first bad parameter in the order ssid, identity,
/// passphrase.
pub open spec fn spec_validate_connect(
    ssid: Option<ParamInput>,
    identity: Option<ParamInput>,
    passphrase: Option<ParamInput>,
) -> Result<NetworkCommand, ParamError> {
    if spec_param_fault(ssid, ParamName::Ssid) is Some {
        Result::Err(spec_param_fault(ssid, ParamName::Ssid)->Some_0)
    } else if spec_param_fault(identity, ParamName::Identity) is Some {
        Result::Err(spec_param_fault(identity, ParamName::Identity)->Some_0)
    } else if spec_param_fault(passphrase, ParamName::Passphrase) is Some {
        Result::Err(spec_param_fault(passphrase, ParamName::Passphrase)->Some_0)
    } else {
        Result::Ok(
            NetworkCommand::Connect {
                ssid: ssid->Some_0->Text_0,
                identity: identity->Some_0->Text_0,
                passphrase: passphrase->Some_0->Text_0,
            },
        )
    }
}

/// Law: validation rejects exactly the requests in which some
/// parameter is absent or not text; when all three are text, the
/// `Connect` command carries the three values unchanged.
pub proof fn lemma_validate_connect_complete(
    ssid: Option<ParamInput>,
    identity: Option<ParamInput>,
    passphrase: Option<ParamInput>,
)
    ensures
        spec_validate_connect(ssid, identity, passphrase) is Err <==> !{
            &&& ssid matches Option::Some(ParamInput::Text(_))
            &&& identity matches Option::Some(ParamInput::Text(_))
            &&& passphrase matches Option::Some(ParamInput::Text(_))
        },
        (ssid matches Option::Some(ParamInput::Text(_)) && identity matches Option::Some(
            ParamInput::Text(_),
        ) && passphrase matches Option::Some(ParamInput::Text(_))) ==> spec_validate_connect(
            ssid,
            identity,
            passphrase,
        ) == Result::<NetworkCommand, ParamError>::Ok(
            NetworkCommand::Connect {
                ssid: ssid->Some_0->Text_0,
                identity: identity->Some_0->Text_0,
                passphrase: passphrase->Some_0->Text_0,
            },
        ),
{
}

/// Extracts one parameter's text, or its fault.
fn param_text(p: Option<ParamInput>, name: ParamName) -> (r: Result<String, ParamError>)
    ensures
        match spec_param_fault(p, name) {
            Option::Some(e) => r == Result::<String, ParamError>::Err(e),
            Option::None => r matches Result::Ok(s) && p == Option::Some(ParamInput::Text(s)),
        },
{
    match p {
        Option::None => Result::Err(ParamError::Missing(name)),
        Option::Some(ParamInput::NonText) => Result::Err(ParamError::WrongType(name)),
        Option::Some(ParamInput::Text(s)) => Result::Ok(s),
    }
}

/// Checks the three `connect` parameters, in order, and builds the
/// `Connect` command from their text values.
pub fn validate_connect_params(
    ssid: Option<ParamInput>,
    identity: Option<ParamInput>,
    passphrase: Option<ParamInput>,
) -> (r: Result<NetworkCommand, ParamError>)
    ensures
        r == spec_validate_connect(ssid, identity, passphrase),
{
    let ssid_text = match param_text(ssid, ParamName::Ssid) {
        Result::Ok(s) => s,
        Result::Err(e) => {
            return Result::Err(e);
        },
    };
    let identity_text = match param_text(identity, ParamName::Identity) {
        Result::Ok(s) => s,
        Result::Err(e) => {
            return Result::Err(e);
        },
    };
    let passphrase_text = match param_text(passphrase, ParamName::Passphrase) {
        Result::Ok(s) => s,
        Result::Err(e) => {
            return Result::Err(e);
        },
    };
    Result::Ok(
        NetworkCommand::Connect {
            ssid: ssid_text,
            identity: identity_text,
            passphrase: passphrase_text,
        },
    )
}

} // verus!
