//! Replies from the control socket, and their decoding by expected shape.
use vstd::prelude::*;

verus! {

#[verifier::external_type_specification]
#[verifier::external_body]
pub struct ExValue(serde_json::Value);

/// One entry of a `qom-list` reply.
#[derive(Debug)]
pub struct Item {
    pub name: String,
    pub kind: String,
}

/// The reply to `qom-list`: the properties of an object.
#[derive(Debug)]
pub struct QomList {
    pub items: Vec<Item>,
}

/// The reply to `query-commands`, kept as raw JSON values.
#[derive(Debug)]
pub struct QueryCommand {
    pub items: Vec<serde_json::Value>,
}

/// The value under `"return"` in a reply, by shape.
#[derive(Debug)]
pub enum ReturnValue {
    Bool(bool),
    Str(String),
    Items(Vec<Item>),
    Other,
}

/// One reply line: `{"return": ...}` or `{"error": {"class", "desc"}}`.
#[derive(Debug)]
pub enum Reply {
    Return(ReturnValue),
    Error { class: String, desc: String },
}

/// Why an exchange with a VM's monitor did not succeed.
#[derive(Debug)]
pub enum MonitorError {
    /// The VM's socket could not be opened: the VM is not running.
    Unavailable,
    /// A read or write failed, or a reply did not have the expected shape.
    CommunicationFailed,
    /// The VM answered with an error reply.
    CommandFailed { class: String, desc: String },
}

/// The error that an error reply stands for.
pub open spec fn command_error(reply: Reply) -> MonitorError {
    match reply {
        Reply::Error { class, desc } => MonitorError::CommandFailed { class, desc },
        Reply::Return(_) => MonitorError::CommunicationFailed,
    }
}

impl Reply {
    /// Accepts any successful reply.
    pub fn expect_ack(self) -> (r: Result<(), MonitorError>)
        ensures
            r is Ok <==> self is Return,
            r matches Err(e) ==> e == command_error(self),
    {
        match self {
            Reply::Return(_) => Ok(()),
            Reply::Error { class, desc } => Err(MonitorError::CommandFailed { class, desc }),
        }
    }

    /// A boolean property value; any other returned value is a decode
    /// failure.
    pub fn expect_bool(self) -> (r: Result<bool, MonitorError>)
        ensures
            match self {
                Reply::Return(ReturnValue::Bool(b)) => r == Ok::<bool, MonitorError>(b),
                Reply::Return(_) => r == Err::<bool, MonitorError>(MonitorError::CommunicationFailed),
                Reply::Error { .. } => r == Err::<bool, MonitorError>(command_error(self)),
            },
    {
        match self {
            Reply::Return(ReturnValue::Bool(b)) => Ok(b),
            Reply::Return(_) => Err(MonitorError::CommunicationFailed),
            Reply::Error { class, desc } => Err(MonitorError::CommandFailed { class, desc }),
        }
    }

    /// A string property value; any other returned value is a decode
    /// failure.
    pub fn expect_string(self) -> (r: Result<String, MonitorError>)
        ensures
            match self {
                Reply::Return(ReturnValue::Str(s)) => r == Ok::<String, MonitorError>(s),
                Reply::Return(_) => r == Err::<String, MonitorError>(
                    MonitorError::CommunicationFailed,
                ),
                Reply::Error { .. } => r == Err::<String, MonitorError>(command_error(self)),
            },
    {
        match self {
            Reply::Return(ReturnValue::Str(s)) => Ok(s),
            Reply::Return(_) => Err(MonitorError::CommunicationFailed),
            Reply::Error { class, desc } => Err(MonitorError::CommandFailed { class, desc }),
        }
    }

    /// A list of named, typed items; any other returned value is a decode
    /// failure.
    pub fn expect_items(self) -> (r: Result<QomList, MonitorError>)
        ensures
            match self {
                Reply::Return(ReturnValue::Items(items)) => r == Ok::<QomList, MonitorError>(
                    QomList { items },
                ),
                Reply::Return(_) => r == Err::<QomList, MonitorError>(
                    MonitorError::CommunicationFailed,
                ),
                Reply::Error { .. } => r == Err::<QomList, MonitorError>(command_error(self)),
            },
    {
        match self {
            Reply::Return(ReturnValue::Items(items)) => Ok(QomList { items }),
            Reply::Return(_) => Err(MonitorError::CommunicationFailed),
            Reply::Error { class, desc } => Err(MonitorError::CommandFailed { class, desc }),
        }
    }
}

} // verus!
