//! Devices, compute precisions and batch sizing policies, with the textual
//! names the engine exchanges for them.
use vstd::prelude::*;

verus! {

/// What `str::to_lowercase` yields for a text: Unicode lower-case mapping.
pub uninterp spec fn lower_of(s: Seq<char>) -> Seq<char>;

/// Relies on `str::to_lowercase`: the result depends on the characters alone.
#[verifier::external_body]
fn lowercase(s: &str) -> (r: String)
    ensures
        r@ == lower_of(s@),
{
    s.to_lowercase()
}

/// Whether two texts hold the same characters.
fn same_text(a: &str, b: &str) -> (r: bool)
    ensures
        r == (a@ == b@),
{
    a.to_owned() == b.to_owned()
}

/// A name that did not denote any known value.
#[derive(Debug)]
pub struct ParseError(pub String);

/// The message of a `ParseError` for an unknown name of the given kind.
pub open spec fn unknown_message(what: Seq<char>, s: Seq<char>) -> Seq<char> {
    "Unknown "@ + what + " "@ + s
}

/// `r` is what parsing owes: the value `expected` names, or the error with
/// `message` where it names none.
pub open spec fn parse_outcome<T>(
    r: Result<T, ParseError>,
    expected: Option<T>,
    message: Seq<char>,
) -> bool {
    match expected {
        Some(v) => r == Ok::<T, ParseError>(v),
        None => match r {
            Ok(_) => false,
            Err(e) => e.0@ == message,
        },
    }
}

fn unknown(what: &str, s: &str) -> (e: ParseError)
    ensures
        e.0@ == unknown_message(what@, s@),
{
    let m = "Unknown ".to_owned().concat(what).concat(" ").concat(s);
    proof {
        reveal_strlit("Unknown ");
        reveal_strlit(" ");
    }
    ParseError(m)
}

/// Kind of compute device a model is loaded onto.
#[derive(Clone, Copy, Debug, PartialEq, Eq, Structural)]
pub enum Device {
    CPU,
    CUDA,
}

pub open spec fn device_name(d: Device) -> Seq<char> {
    match d {
        Device::CPU => "cpu"@,
        Device::CUDA => "cuda"@,
    }
}

/// The device denoted by an already lower-cased name.
pub open spec fn device_of(s: Seq<char>) -> Option<Device> {
    if s == "cpu"@ {
        Some(Device::CPU)
    } else if s == "cuda"@ {
        Some(Device::CUDA)
    } else {
        None
    }
}

impl Device {
    pub fn to_string(&self) -> (r: String)
        ensures
            r@ == device_name(*self),
    {
        match self {
            Device::CPU => "cpu".to_owned(),
            Device::CUDA => "cuda".to_owned(),
        }
    }

    /// The device that an already lower-cased name denotes.
    pub fn from_lowercase(s: &str) -> (r: Option<Device>)
        ensures
            r == device_of(s@),
    {
        if same_text(s, "cpu") {
            Some(Device::CPU)
        } else if same_text(s, "cuda") {
            Some(Device::CUDA)
        } else {
            None
        }
    }

    /// Parses a device name, ignoring case.
    pub fn from_str(s: &str) -> (r: Result<Device, ParseError>)
        ensures
            parse_outcome(r, device_of(lower_of(s@)), unknown_message("device"@, s@)),
    {
        match Device::from_lowercase(lowercase(s).as_str()) {
            Some(d) => Ok(d),
            None => Err(unknown("device", s)),
        }
    }
}

/// Numeric precision the engine computes in.
#[derive(Clone, Copy, Debug, PartialEq, Eq, Structural)]
pub enum ComputeType {
    Default,
    Auto,
    Float32,
    Int8,
    Int8Float16,
    Int16,
    Float16,
}

pub open spec fn compute_type_name(c: ComputeType) -> Seq<char> {
    match c {
        ComputeType::Default => "default"@,
        ComputeType::Auto => "auto"@,
        ComputeType::Float32 => "float32"@,
        ComputeType::Int8 => "int8"@,
        ComputeType::Int8Float16 => "int8_float16"@,
        ComputeType::Int16 => "int16"@,
        ComputeType::Float16 => "float16"@,
    }
}

/// The precision denoted by an already lower-cased name: each canonical
/// name, and `float` for `float32`.
pub open spec fn compute_type_of(s: Seq<char>) -> Option<ComputeType> {
    if s == "default"@ {
        Some(ComputeType::Default)
    } else if s == "auto"@ {
        Some(ComputeType::Auto)
    } else if s == "float32"@ || s == "float"@ {
        Some(ComputeType::Float32)
    } else if s == "int8"@ {
        Some(ComputeType::Int8)
    } else if s == "int8_float16"@ {
        Some(ComputeType::Int8Float16)
    } else if s == "int16"@ {
        Some(ComputeType::Int16)
    } else if s == "float16"@ {
        Some(ComputeType::Float16)
    } else {
        None
    }
}

impl ComputeType {
    pub fn to_string(&self) -> (r: String)
        ensures
            r@ == compute_type_name(*self),
    {
        match self {
            ComputeType::Default => "default".to_owned(),
            ComputeType::Auto => "auto".to_owned(),
            ComputeType::Float32 => "float32".to_owned(),
            ComputeType::Int8 => "int8".to_owned(),
            ComputeType::Int8Float16 => "int8_float16".to_owned(),
            ComputeType::Int16 => "int16".to_owned(),
            ComputeType::Float16 => "float16".to_owned(),
        }
    }

    /// The precision that an already lower-cased name denotes.
    pub fn from_lowercase(s: &str) -> (r: Option<ComputeType>)
        ensures
            r == compute_type_of(s@),
    {
        if same_text(s, "default") {
            Some(ComputeType::Default)
        } else if same_text(s, "auto") {
            Some(ComputeType::Auto)
        } else if same_text(s, "float32") || same_text(s, "float") {
            Some(ComputeType::Float32)
        } else if same_text(s, "int8") {
            Some(ComputeType::Int8)
        } else if same_text(s, "int8_float16") {
            Some(ComputeType::Int8Float16)
        } else if same_text(s, "int16") {
            Some(ComputeType::Int16)
        } else if same_text(s, "float16") {
            Some(ComputeType::Float16)
        } else {
            None
        }
    }

    /// Parses a precision name, ignoring case.
    pub fn from_str(s: &str) -> (r: Result<ComputeType, ParseError>)
        ensures
            parse_outcome(r, compute_type_of(lower_of(s@)), unknown_message("compute type"@, s@)),
    {
        match ComputeType::from_lowercase(lowercase(s).as_str()) {
            Some(c) => Ok(c),
            None => Err(unknown("compute type", s)),
        }
    }
}

/// Whether a sub-batch size bounds examples or tokens.
#[derive(Clone, Copy, Debug, PartialEq, Eq, Structural)]
pub enum BatchType {
    Examples,
    Tokens,
}

pub open spec fn batch_type_name(b: BatchType) -> Seq<char> {
    match b {
        BatchType::Examples => "examples"@,
        BatchType::Tokens => "tokens"@,
    }
}

/// The policy denoted by an already lower-cased name.
pub open spec fn batch_type_of(s: Seq<char>) -> Option<BatchType> {
    if s == "examples"@ {
        Some(BatchType::Examples)
    } else if s == "tokens"@ {
        Some(BatchType::Tokens)
    } else {
        None
    }
}

impl BatchType {
    pub fn to_string(&self) -> (r: String)
        ensures
            r@ == batch_type_name(*self),
    {
        match self {
            BatchType::Examples => "examples".to_owned(),
            BatchType::Tokens => "tokens".to_owned(),
        }
    }

    /// The policy that an already lower-cased name denotes.
    pub fn from_lowercase(s: &str) -> (r: Option<BatchType>)
        ensures
            r == batch_type_of(s@),
    {
        if same_text(s, "examples") {
            Some(BatchType::Examples)
        } else if same_text(s, "tokens") {
            Some(BatchType::Tokens)
        } else {
            None
        }
    }

    /// Parses a policy name, ignoring case.
    pub fn from_str(s: &str) -> (r: Result<BatchType, ParseError>)
        ensures
            parse_outcome(r, batch_type_of(lower_of(s@)), unknown_message("batch type"@, s@)),
    {
        match BatchType::from_lowercase(lowercase(s).as_str()) {
            Some(b) => Ok(b),
            None => Err(unknown("batch type", s)),
        }
    }
}

} // verus!
