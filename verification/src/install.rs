//! The install sequence.
//!
//! The install script is pushed to the device as one long shell line: the
//! script's line breaks are escaped so the device's `echo -e` restores them
//! when writing the file.  The sequence then makes the file executable and
//! runs it.  Each step is followed by a fixed settle delay, which the caller
//! sleeps out between writes; the device acknowledges nothing in between, so
//! no step is skipped or reordered on its account.

use vstd::prelude::*;
use vstd::slice::slice_to_vec;
use vstd::string::StringSliceAdditionalSpecFns;

verus! {

/// Seconds the sequence settles after the script payload is written.
pub const WRITE_SETTLE_SECS: u64 = 2;

/// Seconds the sequence settles after each of the two follow-up commands.
pub const STEP_SETTLE_SECS: u64 = 1;

/// Seconds an install-result wait may take before it resolves as a timeout.
pub const RESULT_TIMEOUT_SECS: u64 = 600;

/// How one script byte appears inside the shell line: a line feed becomes
/// the two characters backslash and `n`; every other byte stays itself.
pub open spec fn escape_byte(b: u8) -> Seq<u8> {
    if b == 10 {
        seq![92u8, 110u8]
    } else {
        seq![b]
    }
}

/// The script with every line feed replaced by a literal backslash-`n`.
pub open spec fn escaped_script(s: Seq<u8>) -> Seq<u8>
    decreases s.len(),
{
    if s.len() == 0 {
        Seq::empty()
    } else {
        escaped_script(s.drop_last()) + escape_byte(s.last())
    }
}

/// Escapes the script payload for embedding in a single shell line.
pub fn escape_script(script: &[u8]) -> (r: Vec<u8>)
    ensures
        r@ == escaped_script(script@),
{
    let mut r: Vec<u8> = Vec::new();
    proof {
        assert(r@ =~= escaped_script(script@.take(0)));
    }
    let mut i: usize = 0;
    while i < script.len()
        invariant
            i <= script.len(),
            r@ == escaped_script(script@.take(i as int)),
        decreases script.len() - i,
    {
        let b = script[i];
        if b == 10 {
            r.push(92);
            r.push(110);
        } else {
            r.push(b);
        }
        proof {
            assert(script@.take(i + 1).drop_last() =~= script@.take(i as int));
            assert(script@.take(i + 1).last() == script@[i as int]);
            assert(r@ =~= escaped_script(script@.take(i as int)) + escape_byte(script@[i as int]));
        }
        i += 1;
    }
    proof {
        assert(script@.take(script@.len() as int) =~= script@);
    }
    r
}

/// The opening of the shell line that writes the script file.
pub open spec fn echo_prefix() -> Seq<u8> {
    "echo -e '".spec_bytes()
}

/// The close of that shell line: the quote, and the destination path.
pub open spec fn echo_suffix() -> Seq<u8> {
    "' > /data/local/tmp/install.sh".spec_bytes()
}

/// The full command that writes the escaped script to its destination path.
pub open spec fn echo_command(script: Seq<u8>) -> Seq<u8> {
    echo_prefix() + escaped_script(script) + echo_suffix()
}

/// The command that makes the written script executable.
pub open spec fn chmod_command() -> Seq<u8> {
    "chmod +x /data/local/tmp/install.sh".spec_bytes()
}

/// The command that changes into the script's directory and runs it.
pub open spec fn run_script_command() -> Seq<u8> {
    "cd /data/local/tmp && ./install.sh".spec_bytes()
}

/// Builds the command that writes the script payload on the device.
pub fn build_echo_command(script: &[u8]) -> (r: Vec<u8>)
    ensures
        r@ == echo_command(script@),
{
    let mut r: Vec<u8> = Vec::new();
    r.extend_from_slice("echo -e '".as_bytes());
    let escaped = escape_script(script);
    r.extend_from_slice(escaped.as_slice());
    r.extend_from_slice("' > /data/local/tmp/install.sh".as_bytes());
    r
}

/// One step of the install sequence: the command to dispatch, and the settle
/// delay the caller waits out after it.
pub struct InstallStep {
    pub command: Vec<u8>,
    pub settle_secs: u64,
}

/// The whole install sequence for a script payload: exactly three commands,
/// in order — write the escaped script, make it executable, run it — each
/// with its settle delay.  The result wait is not part of the sequence; the
/// caller starts it separately, when it chooses.
pub fn install_steps(script: &[u8]) -> (r: Vec<InstallStep>)
    ensures
        r@.len() == 3,
        r@[0].command@ == echo_command(script@),
        r@[0].settle_secs == WRITE_SETTLE_SECS,
        r@[1].command@ == chmod_command(),
        r@[1].settle_secs == STEP_SETTLE_SECS,
        r@[2].command@ == run_script_command(),
        r@[2].settle_secs == STEP_SETTLE_SECS,
{
    let mut r: Vec<InstallStep> = Vec::new();
    r.push(InstallStep { command: build_echo_command(script), settle_secs: WRITE_SETTLE_SECS });
    r.push(
        InstallStep {
            command: slice_to_vec("chmod +x /data/local/tmp/install.sh".as_bytes()),
            settle_secs: STEP_SETTLE_SECS,
        },
    );
    r.push(
        InstallStep {
            command: slice_to_vec("cd /data/local/tmp && ./install.sh".as_bytes()),
            settle_secs: STEP_SETTLE_SECS,
        },
    );
    r
}

} // verus!
