//! The coordinator's bookkeeping: which streams failed, how many completed,
//! and what the transfer reports at its end.

use crate::format::{format_size, format_speed, push_size, size_text, speed_text};
use crate::session::join_path;
use crate::text::{decimal, fixed2, hundredths, push_decimal, push_fixed2};
use vstd::prelude::*;

verus! {

/// One flag per stream, set when the stream spent its retry budget.
#[derive(Clone, Debug)]
pub struct FailureMap {
    flags: Vec<bool>,
}

impl View for FailureMap {
    type V = Seq<bool>;

    closed spec fn view(&self) -> Seq<bool> {
        self.flags@
    }
}

/// Whether any flag of `flags` is set.
pub open spec fn any_set(flags: Seq<bool>) -> bool {
    exists|i: int| 0 <= i < flags.len() && flags[i]
}

impl FailureMap {
    /// No stream of `num_streams` has failed.
    pub fn new(num_streams: usize) -> (r: FailureMap)
        ensures
            r@ == Seq::new(num_streams as nat, |i: int| false),
    {
        let mut flags: Vec<bool> = Vec::new();
        let mut i: usize = 0;
        while i < num_streams
            invariant
                i <= num_streams,
                flags@ == Seq::new(i as nat, |k: int| false),
            decreases num_streams - i,
        {
            flags.push(false);
            i = i + 1;
            assert(flags@ =~= Seq::new(i as nat, |k: int| false));
        }
        FailureMap { flags }
    }

    /// Number of streams.
    pub fn len(&self) -> (r: usize)
        ensures
            r == self@.len(),
    {
        self.flags.len()
    }

    /// Sets the flag of `stream`, which spent its retries.
    pub fn mark_failed(&mut self, stream: usize)
        requires
            stream < old(self)@.len(),
        ensures
            final(self)@ == old(self)@.update(stream as int, true),
    {
        self.flags.set(stream, true);
    }

    /// Whether `stream` failed.
    pub fn is_failed(&self, stream: usize) -> (r: bool)
        requires
            stream < self@.len(),
        ensures
            r == self@[stream as int],
    {
        self.flags[stream]
    }

    /// Whether any stream failed, which fails the transfer.
    pub fn any_failed(&self) -> (r: bool)
        ensures
            r == any_set(self@),
    {
        let mut i: usize = 0;
        while i < self.flags.len()
            invariant
                i <= self@.len(),
                forall|k: int| 0 <= k < i ==> !self@[k],
            decreases self@.len() - i,
        {
            if self.flags[i] {
                return true;
            }
            i = i + 1;
        }
        false
    }

    /// The streams that failed, in increasing order.
    pub fn failed_streams(&self) -> (r: Vec<usize>)
        ensures
            forall|k: int| 0 <= k < r@.len() ==> #[trigger] r@[k] < self@.len() && self@[r@[k] as int],
            forall|i: int| 0 <= i < self@.len() && self@[i] ==> r@.contains(i as usize),
            forall|a: int, b: int| 0 <= a < b < r@.len() ==> r@[a] < r@[b],
    {
        let mut r: Vec<usize> = Vec::new();
        let mut i: usize = 0;
        while i < self.flags.len()
            invariant
                i <= self@.len(),
                forall|k: int| 0 <= k < r@.len() ==> #[trigger] r@[k] < i && self@[r@[k] as int],
                forall|j: int| 0 <= j < i && self@[j] ==> r@.contains(j as usize),
                forall|a: int, b: int| 0 <= a < b < r@.len() ==> r@[a] < r@[b],
            decreases self@.len() - i,
        {
            let ghost before = r@;
            if self.flags[i] {
                r.push(i);
                assert(r@[r@.len() - 1] == i);
            }
            assert forall|j: int| 0 <= j <= i && self@[j] implies r@.contains(j as usize) by {
                if j < i {
                    let k = choose|k: int| 0 <= k < before.len() && before[k] == j as usize;
                    assert(r@[k] == before[k]);
                } else {
                    assert(r@[r@.len() - 1] == i);
                }
            }
            i = i + 1;
        }
        r
    }
}

/// The error of a transfer where some stream failed.
pub open spec fn streams_failed_text() -> Seq<char> {
    "Some streams failed to transfer after retries."@
}

/// The outcome of a transfer once every stream has finished: an error exactly
/// when some stream failed.
pub fn transfer_outcome(failures: &FailureMap) -> (r: Result<(), String>)
    ensures
        r is Ok <==> !any_set(failures@),
        r is Err ==> r->Err_0@ == streams_failed_text(),
{
    if failures.any_failed() {
        Err(String::from_str("Some streams failed to transfer after retries."))
    } else {
        Ok(())
    }
}

/// When exactly one stream of `n` spends its retries, the failure map holds
/// that stream's flag alone and the transfer fails.
pub proof fn lemma_single_stream_failure(n: nat, j: nat)
    requires
        j < n,
    ensures
        ({
            let m = Seq::new(n, |i: int| false).update(j as int, true);
            &&& m.len() == n
            &&& forall|i: int| 0 <= i < n ==> (#[trigger] m[i] <==> i == j)
            &&& any_set(m)
        }),
{
    let m = Seq::new(n, |i: int| false).update(j as int, true);
    assert(m[j as int]);
}

/// The report of a stream that spent its retries.
pub open spec fn stream_failure_text(stream_num: nat, retries: nat, cause: Seq<char>) -> Seq<
    char,
> {
    "Stream "@ + decimal(stream_num) + " failed after "@ + decimal(retries) + " retries: "@ + cause
}

/// `Stream <n> failed after <retries> retries: <cause>`.
pub fn stream_failure_message(stream_num: usize, retries: u32, cause: &str) -> (r: String)
    ensures
        r@ == stream_failure_text(stream_num as nat, retries as nat, cause@),
{
    let mut s = String::from_str("Stream ");
    push_decimal(&mut s, stream_num as u128);
    s.append(" failed after ");
    push_decimal(&mut s, retries as u128);
    s.append(" retries: ");
    s.append(cause);
    s
}

/// Where pre-extension of a destination of `size` bytes writes its single zero
/// byte: the last offset, and nowhere for an empty file.
pub fn extension_offset(size: u64) -> (r: Option<u64>)
    ensures
        size == 0 ==> r is None,
        size > 0 ==> r == Some((size - 1) as u64),
{
    if size == 0 {
        None
    } else {
        Some(size - 1)
    }
}

/// The last component of a path, as `std::path::Path::file_name` gives it.
pub uninterp spec fn file_name_of(path: Seq<char>) -> Option<Seq<char>>;

/// Relies on `std::path::Path::file_name`: the final component of the path,
/// none when the path ends in `..` or is a root or empty; depends on the text
/// alone.
#[verifier::external_body]
pub(crate) fn path_file_name(path: &str) -> (r: Option<String>)
    ensures
        match r {
            Some(n) => file_name_of(path@) == Some(n@),
            None => file_name_of(path@) is None,
        },
{
    std::path::Path::new(path).file_name().map(|n| n.to_string_lossy().into_owned())
}

/// Where a pushed file lands: its file name under the remote directory.
pub fn remote_target(remote_dir: &str, input_file: &str) -> (r: Option<String>)
    ensures
        match file_name_of(input_file@) {
            Some(n) => r is Some && r->Some_0@ == remote_dir@ + "/"@ + n,
            None => r is None,
        },
{
    match path_file_name(input_file) {
        Some(n) => {
            let mut s = String::from_str(remote_dir);
            s.append("/");
            s.append(n.as_str());
            Some(s)
        },
        None => None,
    }
}

/// Where a pulled file lands: the remote file's name joined to the local
/// directory.
pub fn local_target(local_dir: &str, remote_file: &str) -> (r: Option<String>)
    ensures
        match file_name_of(remote_file@) {
            Some(n) => r is Some && r->Some_0@ == join_path(local_dir@, n),
            None => r is None,
        },
{
    match path_file_name(remote_file) {
        Some(n) => Some(crate::session::join(local_dir, n.as_str())),
        None => None,
    }
}

/// Totals of a transfer: its size, its streams, and how many completed.
#[derive(Clone, Copy, Debug)]
pub struct TransferStats {
    total_bytes: usize,
    num_streams: usize,
    streams_completed: usize,
}

impl TransferStats {
    pub closed spec fn total_bytes_spec(&self) -> nat {
        self.total_bytes as nat
    }

    pub closed spec fn num_streams_spec(&self) -> nat {
        self.num_streams as nat
    }

    pub closed spec fn completed_spec(&self) -> nat {
        self.streams_completed as nat
    }

    pub open spec fn wf(&self) -> bool {
        self.completed_spec() <= self.num_streams_spec()
    }

    /// A transfer of `total_bytes` over `num_streams` streams, none completed.
    pub fn new(total_bytes: usize, num_streams: usize) -> (r: TransferStats)
        ensures
            r.wf(),
            r.total_bytes_spec() == total_bytes,
            r.num_streams_spec() == num_streams,
            r.completed_spec() == 0,
    {
        TransferStats { total_bytes, num_streams, streams_completed: 0 }
    }

    pub fn total_bytes(&self) -> (r: usize)
        ensures
            r == self.total_bytes_spec(),
    {
        self.total_bytes
    }

    pub fn num_streams(&self) -> (r: usize)
        ensures
            r == self.num_streams_spec(),
    {
        self.num_streams
    }

    pub fn streams_completed(&self) -> (r: usize)
        ensures
            r == self.completed_spec(),
    {
        self.streams_completed
    }

    /// Counts one more stream as completed.
    pub fn record_completion(&mut self)
        requires
            old(self).wf(),
            old(self).completed_spec() < old(self).num_streams_spec(),
        ensures
            final(self).wf(),
            final(self).completed_spec() == old(self).completed_spec() + 1,
            final(self).total_bytes_spec() == old(self).total_bytes_spec(),
            final(self).num_streams_spec() == old(self).num_streams_spec(),
    {
        self.streams_completed = self.streams_completed + 1;
    }
}

/// The lines shown before a transfer starts: the source and its size, the
/// stream count and the size of each stream's share, the remainder that the
/// last stream takes if any.
pub open spec fn plan_summary_text(source: Seq<char>, source_is_remote: bool, size: nat, n: nat) -> Seq<
    Seq<char>,
> {
    let label = if source_is_remote {
        "Remote file size: "@
    } else {
        "Local file size: "@
    };
    let head = seq![
        "Preparing to transfer "@ + source + "..."@,
        label + size_text(size) + " ("@ + decimal(size) + ")"@,
        "Using "@ + decimal(n) + " streams of approximately "@ + size_text(size / n) + " each"@,
    ];
    let extra = if size % n > 0 {
        seq!["Last stream will have an additional "@ + decimal(size % n) + " bytes"@]
    } else {
        seq![]
    };
    head + extra + seq!["Initializing transfer..."@]
}

/// The lines shown before a transfer of `file_size` bytes from `source` over
/// `num_streams` streams starts.
pub fn plan_summary(source: &str, source_is_remote: bool, file_size: u64, num_streams: usize) -> (r:
    Vec<String>)
    requires
        num_streams > 0,
    ensures
        r@.len() == plan_summary_text(source@, source_is_remote, file_size as nat, num_streams as nat).len(),
        forall|i: int|
            0 <= i < r@.len() ==> #[trigger] r@[i]@ == plan_summary_text(
                source@,
                source_is_remote,
                file_size as nat,
                num_streams as nat,
            )[i],
{
    let n = num_streams as u64;
    let mut lines: Vec<String> = Vec::new();
    let mut first = String::from_str("Preparing to transfer ");
    first.append(source);
    first.append("...");
    lines.push(first);
    let mut second = if source_is_remote {
        String::from_str("Remote file size: ")
    } else {
        String::from_str("Local file size: ")
    };
    push_size(&mut second, file_size);
    second.append(" (");
    push_decimal(&mut second, file_size as u128);
    second.append(")");
    lines.push(second);
    let mut third = String::from_str("Using ");
    push_decimal(&mut third, num_streams as u128);
    third.append(" streams of approximately ");
    push_size(&mut third, file_size / n);
    third.append(" each");
    lines.push(third);
    let extra = file_size % n;
    if extra > 0 {
        let mut fourth = String::from_str("Last stream will have an additional ");
        push_decimal(&mut fourth, extra as u128);
        fourth.append(" bytes");
        lines.push(fourth);
    }
    lines.push(String::from_str("Initializing transfer..."));
    let ghost want = plan_summary_text(source@, source_is_remote, file_size as nat, num_streams as nat);
    assert(lines@.len() == want.len());
    assert forall|i: int| 0 <= i < lines@.len() implies #[trigger] lines@[i]@ == want[i] by {}
    lines
}

/// Milliseconds over which a rate is taken: at least one.
pub open spec fn rate_millis(elapsed_ms: nat) -> nat {
    if elapsed_ms == 0 {
        1
    } else {
        elapsed_ms
    }
}

/// The closing statistics of a transfer that took `elapsed_ms` milliseconds.
pub open spec fn report_text(total_bytes: nat, num_streams: nat, elapsed_ms: nat) -> Seq<char> {
    "\nTransfer Statistics\nTotal Size:    "@ + size_text(total_bytes) + "\nStreams:       "@
        + decimal(num_streams) + "\nDuration:      "@ + fixed2(hundredths(elapsed_ms, 1000))
        + " seconds\nAverage Speed: "@ + speed_text(total_bytes, rate_millis(elapsed_ms))
}

/// The closing statistics: total size, stream count, duration in seconds and
/// average speed, one per line after a blank line.
pub fn transfer_report(stats: &TransferStats, elapsed_ms: u64) -> (r: String)
    ensures
        r@ == report_text(
            stats.total_bytes_spec(),
            stats.num_streams_spec(),
            elapsed_ms as nat,
        ),
{
    let millis: u64 = if elapsed_ms == 0 {
        1
    } else {
        elapsed_ms
    };
    let mut s = String::from_str("\nTransfer Statistics\nTotal Size:    ");
    let size = format_size(stats.total_bytes);
    s.append(size.as_str());
    s.append("\nStreams:       ");
    push_decimal(&mut s, stats.num_streams as u128);
    s.append("\nDuration:      ");
    push_fixed2(&mut s, (200 * elapsed_ms as u128 + 1000) / 2000);
    s.append(" seconds\nAverage Speed: ");
    let speed = format_speed(stats.total_bytes as u64, millis);
    s.append(speed.as_str());
    s
}

} // verus!
