//! The log collector: folds the multiplexed output records of a finished
//! container into one stdout and one stderr string. Records that fail to
//! decode as text are dropped; the undifferentiated console stream counts
//! as stdout.

use vstd::prelude::*;

use vstd::utf8::{decode_utf8, valid_utf8};

verus! {

/// One multiplexed output record as the daemon hands it back.
pub enum LogChunk {
    StdOut { message: Vec<u8> },
    StdErr { message: Vec<u8> },
    Console { message: Vec<u8> },
    /// A record kind the collector does not accumulate.
    Other,
}

/// The accumulated output of one container.
pub struct ContainerLogs {
    pub stdout: String,
    pub stderr: String,
}

/// The value of [`ContainerLogs`]: the two accumulated character sequences.
#[verifier::ext_equal]
pub ghost struct ContainerLogsV {
    pub stdout: Seq<char>,
    pub stderr: Seq<char>,
}

impl View for ContainerLogs {
    type V = ContainerLogsV;

    open spec fn view(&self) -> ContainerLogsV {
        ContainerLogsV { stdout: self.stdout@, stderr: self.stderr@ }
    }
}

/// The text a record contributes: its UTF-8 decoding, or nothing when the
/// bytes are not valid UTF-8.
pub open spec fn spec_decoded(bytes: Seq<u8>) -> Seq<char> {
    if valid_utf8(bytes) {
        decode_utf8(bytes)
    } else {
        Seq::<char>::empty()
    }
}

/// The fold of a whole record sequence into (stdout, stderr).
pub open spec fn spec_collect(chunks: Seq<LogChunk>) -> ContainerLogsV
    decreases chunks.len(),
{
    if chunks.len() == 0 {
        ContainerLogsV { stdout: Seq::<char>::empty(), stderr: Seq::<char>::empty() }
    } else {
        let rest = spec_collect(chunks.drop_last());
        match chunks.last() {
            LogChunk::StdOut { message } => ContainerLogsV {
                stdout: rest.stdout + spec_decoded(message@),
                ..rest
            },
            LogChunk::StdErr { message } => ContainerLogsV {
                stderr: rest.stderr + spec_decoded(message@),
                ..rest
            },
            LogChunk::Console { message } => ContainerLogsV {
                stdout: rest.stdout + spec_decoded(message@),
                ..rest
            },
            LogChunk::Other => rest,
        }
    }
}

/// Relies on `String::from_utf8`: it succeeds exactly on valid UTF-8 and
/// returns its decoding.
#[verifier::external_body]
fn decode_chunk(bytes: &Vec<u8>) -> (r: Option<String>)
    ensures
        r is Some <==> valid_utf8(bytes@),
        r matches Some(text) ==> text@ == decode_utf8(bytes@),
{
    match String::from_utf8(bytes.clone()) {
        Ok(text) => Some(text),
        Err(_) => None,
    }
}

/// Folds the records of one container into its two output strings, exactly
/// as [`spec_collect`] describes: decodable stdout, stderr and console
/// records are appended to their accumulator, everything else is dropped,
/// and whatever accumulated is returned.
pub fn collect_logs(chunks: &Vec<LogChunk>) -> (r: ContainerLogs)
    ensures
        r@ == spec_collect(chunks@),
{
    let mut stdout = String::new();
    let mut stderr = String::new();
    let mut i: usize = 0;
    while i < chunks.len()
        invariant
            i <= chunks@.len(),
            stdout@ == spec_collect(chunks@.take(i as int)).stdout,
            stderr@ == spec_collect(chunks@.take(i as int)).stderr,
        decreases chunks@.len() - i,
    {
        proof {
            assert(chunks@.take(i as int + 1).drop_last() =~= chunks@.take(i as int));
            assert(chunks@.take(i as int + 1).last() == chunks@[i as int]);
        }
        match &chunks[i] {
            LogChunk::StdOut { message } => {
                if let Some(text) = decode_chunk(message) {
                    stdout.append(text.as_str());
                }
            },
            LogChunk::StdErr { message } => {
                if let Some(text) = decode_chunk(message) {
                    stderr.append(text.as_str());
                }
            },
            LogChunk::Console { message } => {
                if let Some(text) = decode_chunk(message) {
                    stdout.append(text.as_str());
                }
            },
            LogChunk::Other => {},
        }
        proof {
            assert(stdout@ =~= spec_collect(chunks@.take(i as int + 1)).stdout);
            assert(stderr@ =~= spec_collect(chunks@.take(i as int + 1)).stderr);
        }
        i += 1;
    }
    proof {
        assert(chunks@.take(chunks@.len() as int) =~= chunks@);
    }
    ContainerLogs { stdout, stderr }
}

} // verus!
