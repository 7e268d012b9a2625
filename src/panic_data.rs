use std::backtrace::Backtrace;
use std::borrow::Cow;
use vstd::prelude::*;

verus! {

/// Lets `std::backtrace::Backtrace` stand in signatures and fields; its contents stay opaque.
#[verifier::external_type_specification]
#[verifier::external_body]
pub struct ExBacktrace(Backtrace);

/// The cause that a panic carried.
///
/// A `&'static str` or `String` cause (what `panic!` with a message produces) is kept as
/// text; any other cause is kept as it was raised, of the type `P` that the boundary
/// catches it as (a type-erased box in practice).
#[derive(Debug)]
pub enum Payload<P> {
    /// A cause raised as a `&'static str`.
    Borrowed(&'static str),
    /// A cause raised as a `String`.
    Owned(String),
    /// Any other cause, untouched.
    Other(P),
}

/// The source code location of a panic.
#[derive(Debug, Clone, PartialEq, Eq, Hash)]
pub struct PanicLocation {
    /// The source file in which the panic was raised.
    pub file: String,
    /// The line on which the panic was raised.
    pub line: u32,
    /// The column at which the panic was raised.
    pub col: u32,
}

/// The decimal digits of `n`, most significant first, without leading zeros.
pub open spec fn decimal(n: nat) -> Seq<char>
    decreases n,
{
    let digit = seq!['0', '1', '2', '3', '4', '5', '6', '7', '8', '9'][(n % 10) as int];
    if n < 10 {
        seq![digit]
    } else {
        decimal(n / 10).push(digit)
    }
}

/// `file:line:col`, as a location is written.
pub open spec fn location_text(file: Seq<char>, line: u32, col: u32) -> Seq<char> {
    file + seq![':'] + decimal(line as nat) + seq![':'] + decimal(col as nat)
}

/// Relies on `format!` with `Display` for `str` and `u32`: the text as given, and each
/// number in decimal.
#[verifier::external_body]
fn format_location(file: &str, line: u32, col: u32) -> (r: String)
    ensures
        r@ == location_text(file@, line, col),
{
    format!("{}:{}:{}", file, line, col)
}

impl PanicLocation {
    /// The location written as `file:line:col`.
    pub fn to_string(&self) -> (r: String)
        ensures
            r@ == location_text(self.file@, self.line, self.col),
    {
        format_location(self.file.as_str(), self.line, self.col)
    }
}

/// The payload, source location and backtrace of a caught panic.
#[derive(Debug)]
pub struct PanicData<P> {
    /// The cause the panic carried.
    pub payload: Payload<P>,
    /// Where the panic was raised, or `None` when no location was reported for it.
    pub location: Option<PanicLocation>,
    /// The backtrace taken when the panic was reported; it may be a disabled one.
    pub backtrace: Backtrace,
}

/// The text a payload carries, if it is a text payload.
pub open spec fn payload_text<P>(p: Payload<P>) -> Option<Seq<char>> {
    match p {
        Payload::Borrowed(s) => Some(s@),
        Payload::Owned(s) => Some(s@),
        Payload::Other(_) => None,
    }
}

impl<P> PanicData<P> {
    /// The payload as text, or `None` when it is neither a `&str` nor a `String`.
    pub fn payload_as_string(&self) -> (r: Option<&str>)
        ensures
            r is Some <==> payload_text(self.payload) is Some,
            r is Some ==> r->0@ == payload_text(self.payload)->0,
    {
        match &self.payload {
            Payload::Borrowed(s) => Some(*s),
            Payload::Owned(s) => Some(s.as_str()),
            Payload::Other(_) => None,
        }
    }

    /// The payload as text, consuming the record; a record whose payload is neither a
    /// `&str` nor a `String` is handed back unchanged.
    pub fn payload_into_string(self) -> (r: Result<Cow<'static, str>, Self>)
        ensures
            r is Ok <==> payload_text(self.payload) is Some,
            r is Ok ==> r->Ok_0@ == payload_text(self.payload)->0,
            self.payload is Borrowed ==> r->Ok_0 is Borrowed,
            self.payload is Owned ==> r->Ok_0 is Owned,
            r is Err ==> r->Err_0 == self,
    {
        match self.payload {
            Payload::Borrowed(s) => Ok(Cow::Borrowed(s)),
            Payload::Owned(s) => Ok(Cow::Owned(s)),
            Payload::Other(p) => Err(PanicData {
                payload: Payload::Other(p),
                location: self.location,
                backtrace: self.backtrace,
            }),
        }
    }
}

} // verus!
