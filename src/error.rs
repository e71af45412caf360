use vstd::prelude::*;

verus! {

/// The kind of a failure, each carrying a human-readable message.
#[derive(Debug, PartialEq, Eq)]
pub enum RizeErrorType {
    Fetch(String),
    Decode(String),
    Execute(String),
    Display(String),
    MemoryRead(String),
    MemoryWrite(String),
    RegisterRead(String),
    RegisterWrite(String),
}

/// A failure of one machine operation or pipeline stage.
#[derive(Debug, PartialEq, Eq)]
pub struct RizeError {
    pub type_: RizeErrorType,
}

impl RizeError {
    pub fn fetch(msg: &str) -> (r: RizeError)
        ensures
            r.type_ is Fetch,
    {
        RizeError { type_: RizeErrorType::Fetch(String::from_str(msg)) }
    }

    pub fn decode(msg: &str) -> (r: RizeError)
        ensures
            r.type_ is Decode,
    {
        RizeError { type_: RizeErrorType::Decode(String::from_str(msg)) }
    }

    pub fn execute(msg: &str) -> (r: RizeError)
        ensures
            r.type_ is Execute,
    {
        RizeError { type_: RizeErrorType::Execute(String::from_str(msg)) }
    }

    pub fn display(msg: &str) -> (r: RizeError)
        ensures
            r.type_ is Display,
    {
        RizeError { type_: RizeErrorType::Display(String::from_str(msg)) }
    }

    pub fn memory_read(msg: &str) -> (r: RizeError)
        ensures
            r.type_ is MemoryRead,
    {
        RizeError { type_: RizeErrorType::MemoryRead(String::from_str(msg)) }
    }

    pub fn memory_write(msg: &str) -> (r: RizeError)
        ensures
            r.type_ is MemoryWrite,
    {
        RizeError { type_: RizeErrorType::MemoryWrite(String::from_str(msg)) }
    }

    pub fn register_read(msg: &str) -> (r: RizeError)
        ensures
            r.type_ is RegisterRead,
    {
        RizeError { type_: RizeErrorType::RegisterRead(String::from_str(msg)) }
    }

    pub fn register_write(msg: &str) -> (r: RizeError)
        ensures
            r.type_ is RegisterWrite,
    {
        RizeError { type_: RizeErrorType::RegisterWrite(String::from_str(msg)) }
    }
}

} // verus!
