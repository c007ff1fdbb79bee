//! The log of a job, sent line by line, and the pulse of a worker.

use vstd::prelude::*;
use vstd::string::*;

verus! {

/// The frame that says that a line of a log follows.
pub const LOG_LINE: &'static str = "L";

/// The frame that says that a log is complete.
pub const LOG_COMPLETE: &'static str = "C";

/// What ends every line of a log.
pub const EOL_MARKER: &'static str = "\n";

/// The word that tells the heartbeat to pulse.
pub const CMD_PULSE: &'static str = "R";

/// The word that tells the heartbeat to pause.
pub const CMD_PAUSE: &'static str = "P";

/// Whether a worker is ready for work or busy.
#[derive(Debug, Clone, Copy, PartialEq, Eq, Structural)]
pub enum PulseState {
    Pause,
    Pulse,
}

impl PulseState {
    /// The word that asks the heartbeat for this state.
    pub fn as_ref(&self) -> (r: &'static str)
        ensures
            r@ == match *self {
                PulseState::Pause => CMD_PAUSE@,
                PulseState::Pulse => CMD_PULSE@,
            },
    {
        match self {
            PulseState::Pause => CMD_PAUSE,
            PulseState::Pulse => CMD_PULSE,
        }
    }
}

impl Default for PulseState {
    fn default() -> (r: PulseState)
        ensures
            r == PulseState::Pulse,
    {
        PulseState::Pulse
    }
}

/// One line of the log of a job.
#[derive(Debug, PartialEq, Eq)]
pub struct LogChunk {
    pub job_id: u64,
    /// The number of the line, counted from one over all output of the
    /// job.
    pub seq: u64,
    /// The line with its line ending.
    pub content: String,
}

/// The mathematical value of a `LogChunk`.
pub struct LogChunkView {
    pub job_id: u64,
    pub seq: u64,
    pub content: Seq<char>,
}

impl View for LogChunk {
    type V = LogChunkView;

    open spec fn view(&self) -> LogChunkView {
        LogChunkView { job_id: self.job_id, seq: self.seq, content: self.content@ }
    }
}

/// The chunk for the line number `seq` of the log of a job.
pub open spec fn chunk_of(job_id: u64, seq: u64, line: Seq<char>) -> LogChunkView {
    LogChunkView { job_id, seq, content: line.push('\n') }
}

/// Makes the chunks for the lines of one output of a job, where
/// `line_num` lines of the job were sent before: the lines get the numbers
/// after `line_num`, each line ends in a line feed. Returns the chunks and
/// the number of lines sent so far; nothing, if there are more lines than
/// can be counted.
pub fn stream_lines(job_id: u64, lines: &Vec<String>, line_num: u64) -> (r: Option<
    (Vec<LogChunk>, u64),
>)
    ensures
        match r {
            Some((chunks, sent)) => {
                &&& sent == line_num + lines@.len()
                &&& chunks@.len() == lines@.len()
                &&& forall|i: int|
                    0 <= i < chunks@.len() ==> (#[trigger] chunks@[i])@ == chunk_of(
                        job_id,
                        (line_num + 1 + i) as u64,
                        lines@[i]@,
                    )
            },
            None => line_num + lines@.len() > u64::MAX,
        },
{
    let mut chunks: Vec<LogChunk> = Vec::new();
    let mut sent: u64 = line_num;
    let mut i: usize = 0;
    while i < lines.len()
        invariant
            i <= lines.len(),
            sent == line_num + i,
            chunks@.len() == i,
            forall|j: int|
                0 <= j < i ==> (#[trigger] chunks@[j])@ == chunk_of(
                    job_id,
                    (line_num + 1 + j) as u64,
                    lines@[j]@,
                ),
        decreases lines.len() - i,
    {
        if sent == u64::MAX {
            return None;
        }
        sent = sent + 1;
        proof {
            reveal_strlit("\n");
        }
        let mut content = lines[i].clone();
        let ghost line = content@;
        content.append(EOL_MARKER);
        assert(content@ =~= line.push('\n'));
        chunks.push(LogChunk { job_id, seq: sent, content });
        i = i + 1;
    }
    Some((chunks, sent))
}

} // verus!
