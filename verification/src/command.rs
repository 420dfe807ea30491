//! What running an outside command gave back, as plain values.

use vstd::prelude::*;

use crate::text::{decode_lossy, utf8_lossy};

verus! {

/// The result of trying to run a command.
#[derive(Debug, Clone)]
pub enum CommandOutcome {
    /// The command ran to its end.
    Finished { success: bool, stdout: Vec<u8>, stderr: Vec<u8> },
    /// The command could not be started; `error` describes why.
    NotStarted { error: String },
}

/// The text of a finished command: its standard output, then its standard
/// error, each decoded.
pub open spec fn combined_text(stdout: Seq<u8>, stderr: Seq<u8>) -> Seq<char> {
    decode_lossy(stdout) + decode_lossy(stderr)
}

/// The standard output and standard error of a command, decoded and joined.
pub fn combined_output(stdout: &[u8], stderr: &[u8]) -> (r: String)
    ensures
        r@ == combined_text(stdout@, stderr@),
{
    let mut r = utf8_lossy(stdout);
    let e = utf8_lossy(stderr);
    r.append(e.as_str());
    r
}

/// Decoded command output.
pub fn output_string(bytes: &[u8]) -> (r: String)
    ensures
        r@ == decode_lossy(bytes@),
{
    utf8_lossy(bytes)
}

} // verus!
