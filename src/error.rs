//! Errors of the library, and their descriptions.
use vstd::prelude::*;
use vstd::string::StringExecFns;

verus! {

/// An error which occurred in this library.
#[derive(Debug, Clone, PartialEq, Eq)]
pub enum BtError {
    /// No specific information is known.
    Unknown,
    /// A native call failed: the error number and an explanation of it.
    Errno(u32, String),
    /// This error only has a description.
    Desc(String),
    /// The SDP server answered with an error status.
    Protocol(String),
    /// The exchange succeeded, but no record names an RFCOMM channel.
    NotFound(String),
    /// The response bytes are not a sequence of service records.
    Malformed(String),
}

/// What the system's error table says of the error number `code`.
pub uninterp spec fn errno_text(code: i32) -> Seq<char>;

/// Relies on nix's `Errno::from_raw` and `Errno::desc`: the description of
/// an error number, looked up in a fixed table (numbers not in it share one
/// text).
#[verifier::external_body]
fn errno_description(code: i32) -> (r: String)
    ensures
        r@ == errno_text(code),
{
    nix::errno::Errno::from_raw(code).desc().to_string()
}

/// The text of an error that a failed native call with error number `code`
/// gives, after the message `msg` that names the call.
pub open spec fn errno_message(msg: Seq<char>, code: i32) -> Seq<char> {
    msg + seq![':', ' '] + errno_text(code)
}

/// `e` reports the native error `code`, after the message `msg`.
pub open spec fn is_errno_error(e: BtError, msg: Seq<char>, code: i32) -> bool {
    e matches BtError::Errno(c, text) && c == code as u32 && text@ == errno_message(msg, code)
}

/// Builds the error that reports the native error number `errno`, after
/// `message`, which names the call that failed.
pub fn create_error_from_errno(message: &str, errno: i32) -> (r: BtError)
    ensures
        is_errno_error(r, message@, errno),
{
    let mut text = String::from_str(message);
    text.append(": ");
    let desc = errno_description(errno);
    text.append(desc.as_str());
    proof {
        reveal_strlit(": ");
        assert(text@ =~= errno_message(message@, errno));
    }
    BtError::Errno(errno as u32, text)
}

impl BtError {
    /// A description of the error.
    pub fn description(&self) -> (r: &str)
        ensures
            match self {
                BtError::Unknown => r@ == "Unknown Bluetooth Error"@,
                BtError::Errno(_, m) => r@ == m@,
                BtError::Desc(m) => r@ == m@,
                BtError::Protocol(m) => r@ == m@,
                BtError::NotFound(m) => r@ == m@,
                BtError::Malformed(m) => r@ == m@,
            },
    {
        match self {
            BtError::Unknown => "Unknown Bluetooth Error",
            BtError::Errno(_, m) => m.as_str(),
            BtError::Desc(m) => m.as_str(),
            BtError::Protocol(m) => m.as_str(),
            BtError::NotFound(m) => m.as_str(),
            BtError::Malformed(m) => m.as_str(),
        }
    }
}

} // verus!
