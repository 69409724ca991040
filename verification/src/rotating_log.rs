//! A text log that is bounded in size: when the primary file is full, the
//! files move up by one generation before the next line is written.
//!
//! The log decides; the caller touches the files. Before a write the caller
//! reads the size of the primary file, and it then carries out the
//! [`LogWrite`] that comes back: each rename in order, skipping those whose
//! source is missing, then the line appended to the primary file.

use vstd::prelude::*;
use crate::clock::utc_timestamp;
use crate::text::{decimal_digits, decimal_text};

verus! {

/// The size at which the primary file is rotated where nothing else is
/// configured.
pub const DEFAULT_ROTATION_BYTES: u64 = 524288;

/// The number of generations kept where nothing else is configured.
pub const DEFAULT_ROTATION_FILES: usize = 5;

/// The move of one file to the next generation. Generation 0 is the primary
/// file; generation `n` is the backup numbered `n`.
#[derive(Clone, Copy, Debug, PartialEq, Eq, Structural)]
pub struct RenameStep {
    pub from: usize,
    pub to: usize,
}

/// What one write does to the files.
#[derive(Clone, Debug, PartialEq, Eq)]
pub struct LogWrite {
    /// The renames of the rotation, in the order in which they are made.
    pub renames: Vec<RenameStep>,
    /// The line to append to the primary file, with its line feed.
    pub line: String,
}

/// What a [`LogWrite`] holds, as the contracts speak of it.
pub struct LogWriteView {
    pub renames: Seq<RenameStep>,
    pub line: Seq<char>,
}

impl View for LogWrite {
    type V = LogWriteView;

    open spec fn view(&self) -> LogWriteView {
        LogWriteView { renames: self.renames@, line: self.line@ }
    }
}

/// The configuration of a rotating log.
#[derive(Clone, Debug, PartialEq, Eq)]
pub struct RotatingLog {
    path: String,
    max_bytes: u64,
    max_files: usize,
}

/// What a [`RotatingLog`] holds, as the contracts speak of it.
pub struct RotatingLogView {
    pub path: Seq<char>,
    pub max_bytes: u64,
    pub max_files: usize,
}

impl View for RotatingLog {
    type V = RotatingLogView;

    closed spec fn view(&self) -> RotatingLogView {
        RotatingLogView { path: self.path@, max_bytes: self.max_bytes, max_files: self.max_files }
    }
}

/// Whether a primary file of the size `primary_size` is rotated before the
/// next write: it exists and has reached `max_bytes`.
pub open spec fn needs_rotation(primary_size: Option<u64>, max_bytes: u64) -> bool {
    primary_size matches Some(n) && n >= max_bytes
}

/// The number of renames in one rotation.
pub open spec fn shift_count(max_files: usize) -> nat {
    if max_files < 1 {
        1
    } else {
        max_files as nat
    }
}

/// The renames of one rotation: the backups move up by one, the oldest
/// first, and the primary file becomes backup 1 at the end.
pub open spec fn shift_steps(max_files: usize) -> Seq<RenameStep> {
    Seq::new(
        shift_count(max_files),
        |k: int|
            RenameStep {
                from: (shift_count(max_files) - 1 - k) as usize,
                to: (shift_count(max_files) - k) as usize,
            },
    )
}

/// The renames before a write.
pub open spec fn rotation_steps(primary_size: Option<u64>, max_bytes: u64, max_files: usize) -> Seq<
    RenameStep,
> {
    if needs_rotation(primary_size, max_bytes) {
        shift_steps(max_files)
    } else {
        Seq::empty()
    }
}

/// The line that records `message` at `level` and the time `timestamp`.
pub open spec fn log_line(timestamp: Seq<char>, level: Seq<char>, message: Seq<char>) -> Seq<char> {
    "["@ + timestamp + "]["@ + level + "] "@ + message + "\n"@
}

/// The write of `message` at `level` and the time `timestamp`, to a log
/// whose primary file has the size `primary_size`.
pub open spec fn planned_write(
    log: RotatingLogView,
    timestamp: Seq<char>,
    level: Seq<char>,
    message: Seq<char>,
    primary_size: Option<u64>,
) -> LogWriteView {
    LogWriteView {
        renames: rotation_steps(primary_size, log.max_bytes, log.max_files),
        line: log_line(timestamp, level, message),
    }
}

/// The extension of the backup of the generation `generation`.
pub open spec fn backup_extension_text(generation: usize) -> Seq<char> {
    "log."@ + decimal_digits(generation as nat)
}

impl RotatingLog {
    /// A log at `path` that rotates at `max_bytes` and keeps `max_files`
    /// generations.
    pub fn new(path: String, max_bytes: u64, max_files: usize) -> (log: Self)
        ensures
            log@ == (RotatingLogView { path: path@, max_bytes, max_files }),
    {
        RotatingLog { path, max_bytes, max_files }
    }

    /// The path of the primary file.
    pub fn path(&self) -> (p: String)
        ensures
            p@ == self@.path,
    {
        self.path.clone()
    }

    /// The size at which the primary file is rotated.
    pub fn max_bytes(&self) -> (n: u64)
        ensures
            n == self@.max_bytes,
    {
        self.max_bytes
    }

    /// The number of generations kept.
    pub fn max_files(&self) -> (n: usize)
        ensures
            n == self@.max_files,
    {
        self.max_files
    }

    /// The extension that the backup of the generation `generation` has in
    /// place of the extension of the primary file.
    pub fn backup_extension(generation: usize) -> (ext: String)
        ensures
            ext@ == backup_extension_text(generation),
    {
        let mut ext = String::from_str("log.");
        let digits = decimal_text(generation as u64);
        ext.append(digits.as_str());
        ext
    }

    /// The renames to make before the next write, given the size of the
    /// primary file, or `None` where there is no such file.
    pub fn rotate_if_needed(&self, primary_size: Option<u64>) -> (steps: Vec<RenameStep>)
        ensures
            steps@ == rotation_steps(primary_size, self@.max_bytes, self@.max_files),
    {
        let mut steps: Vec<RenameStep> = Vec::new();
        match primary_size {
            None => {
                return steps;
            },
            Some(size) => {
                if size < self.max_bytes {
                    return steps;
                }
            },
        }
        let count: usize = if self.max_files < 1 {
            1
        } else {
            self.max_files
        };
        let mut index: usize = count;
        while index > 0
            invariant
                index <= count,
                count == shift_count(self@.max_files),
                steps@.len() == count - index,
                forall|k: int| 0 <= k < steps@.len() ==> steps@[k] == shift_steps(self@.max_files)[k],
            decreases index,
        {
            steps.push(RenameStep { from: index - 1, to: index });
            index = index - 1;
        }
        assert(steps@ =~= shift_steps(self@.max_files));
        steps
    }

    /// The write of `message` at `level`, stamped with `timestamp`.
    pub fn compose(&self, timestamp: &str, level: &str, message: &str, primary_size: Option<u64>) -> (w:
        LogWrite)
        ensures
            w@ == planned_write(self@, timestamp@, level@, message@, primary_size),
    {
        let renames = self.rotate_if_needed(primary_size);
        let mut line = String::from_str("[");
        line.append(timestamp);
        line.append("][");
        line.append(level);
        line.append("] ");
        line.append(message);
        line.append("\n");
        LogWrite { renames, line }
    }

    /// The write of `message` at `level`, stamped with the present moment.
    pub fn write(&self, level: &str, message: &str, primary_size: Option<u64>) -> (w: LogWrite)
        ensures
            exists|timestamp: Seq<char>|
                w@ == #[trigger] planned_write(self@, timestamp, level@, message@, primary_size),
    {
        let now = utc_timestamp();
        let w = self.compose(now.as_str(), level, message, primary_size);
        assert(w@ == planned_write(self@, now@, level@, message@, primary_size));
        w
    }

    /// The write of `message` as information.
    pub fn info(&self, message: &str, primary_size: Option<u64>) -> (w: LogWrite)
        ensures
            exists|timestamp: Seq<char>|
                w@ == #[trigger] planned_write(self@, timestamp, "INFO"@, message@, primary_size),
    {
        self.write("INFO", message, primary_size)
    }

    /// The write of `message` as a trace for debugging.
    pub fn debug(&self, message: &str, primary_size: Option<u64>) -> (w: LogWrite)
        ensures
            exists|timestamp: Seq<char>|
                w@ == #[trigger] planned_write(self@, timestamp, "DEBUG"@, message@, primary_size),
    {
        self.write("DEBUG", message, primary_size)
    }

    /// The write of `message` as an error.
    pub fn error(&self, message: &str, primary_size: Option<u64>) -> (w: LogWrite)
        ensures
            exists|timestamp: Seq<char>|
                w@ == #[trigger] planned_write(self@, timestamp, "ERROR"@, message@, primary_size),
    {
        self.write("ERROR", message, primary_size)
    }
}

/// The files of a log: the size in bytes of each generation that exists.
pub type LogFiles = Map<nat, nat>;

/// The files after one rename. A rename whose source is missing changes
/// nothing; any other replaces the target.
pub open spec fn rename_file(files: LogFiles, step: RenameStep) -> LogFiles {
    if files.dom().contains(step.from as nat) {
        files.remove(step.from as nat).insert(step.to as nat, files[step.from as nat])
    } else {
        files
    }
}

/// The files after the renames `steps`, made in order.
pub open spec fn rename_files(files: LogFiles, steps: Seq<RenameStep>) -> LogFiles
    decreases steps.len(),
{
    if steps.len() == 0 {
        files
    } else {
        rename_file(rename_files(files, steps.drop_last()), steps.last())
    }
}

/// The files after `bytes` bytes are appended to the primary file, which is
/// created where it is missing.
pub open spec fn append_bytes(files: LogFiles, bytes: nat) -> LogFiles {
    if files.dom().contains(0) {
        files.insert(0, files[0] + bytes)
    } else {
        files.insert(0, bytes)
    }
}

/// The files after a write of `bytes` bytes that is preceded by the renames
/// `steps`.
pub open spec fn files_after_write(files: LogFiles, steps: Seq<RenameStep>, bytes: nat) -> LogFiles {
    append_bytes(rename_files(files, steps), bytes)
}

/// The size of the primary file as the caller reads it.
pub open spec fn primary_size_of(files: LogFiles) -> Option<nat> {
    if files.dom().contains(0) {
        Some(files[0])
    } else {
        None
    }
}

/// Whether `shifted` is what the first `k` renames of a rotation of `n`
/// renames make of `files`: the generations that were not reached yet are as
/// they were, those that were reached stand one higher, and the place of the
/// last one moved is free.
pub open spec fn shifted_by(files: LogFiles, shifted: LogFiles, n: int, k: int) -> bool {
    &&& forall|g: nat|
        g < n - k || g > n ==> (#[trigger] shifted.dom().contains(g) <==> files.dom().contains(g))
    &&& forall|g: nat|
        (g < n - k || g > n) && files.dom().contains(g) ==> #[trigger] shifted[g] == files[g]
    &&& forall|g: nat|
        n - k <= g < n && #[trigger] files.dom().contains(g) ==> shifted.dom().contains(g + 1)
            && shifted[g + 1] == files[g]
    &&& k > 0 ==> !shifted.dom().contains((n - k) as nat)
}

proof fn lemma_shift_prefix(files: LogFiles, max_files: usize, k: int)
    requires
        0 <= k <= shift_count(max_files),
    ensures
        shifted_by(
            files,
            rename_files(files, shift_steps(max_files).take(k)),
            shift_count(max_files) as int,
            k,
        ),
    decreases k,
{
    let n = shift_count(max_files) as int;
    let steps = shift_steps(max_files);
    if k == 0 {
        assert(steps.take(0) =~= Seq::<RenameStep>::empty());
    } else {
        lemma_shift_prefix(files, max_files, k - 1);
        assert(steps.take(k).drop_last() =~= steps.take(k - 1));
        assert(steps.take(k).last() == steps[k - 1]);
        let before = rename_files(files, steps.take(k - 1));
        let step = steps[k - 1];
        let from = (n - k) as nat;
        let to = (n - k + 1) as nat;
        assert(step.from as nat == from);
        assert(step.to as nat == to);
        let shifted = rename_files(files, steps.take(k));
        assert(shifted == rename_file(before, step));
        assert(before.dom().contains(from) <==> files.dom().contains(from));
        if before.dom().contains(from) {
            assert(before[from] == files[from]);
            assert(shifted == before.remove(from).insert(to, files[from]));
        } else {
            assert(shifted == before);
        }
        assert forall|g: nat| g < n - k || g > n implies (#[trigger] shifted.dom().contains(g)
            <==> files.dom().contains(g)) by {
            assert(before.dom().contains(g) <==> files.dom().contains(g));
        }
        assert forall|g: nat| (g < n - k || g > n) && files.dom().contains(g) implies #[trigger] shifted[g]
            == files[g] by {
            assert(before[g] == files[g]);
        }
        assert forall|g: nat| n - k <= g < n && #[trigger] files.dom().contains(g) implies shifted.dom().contains(
            g + 1,
        ) && shifted[g + 1] == files[g] by {
            if g > n - k {
                assert(before.dom().contains(g + 1) && before[g + 1] == files[g]);
            }
        }
    }
}

/// The renames of a rotation leave no primary file behind, and the write
/// that follows makes a new one. A write that rotates therefore leaves the
/// primary file with the new line alone, so no larger than `max_bytes` where
/// the line is no longer than that; and the rotation keeps every generation
/// below `max_files`: the primary file becomes backup 1 and each backup
/// moves up by one, so that only the oldest generation, the one numbered
/// `max_files`, can be lost. No file beyond that number is made.
pub proof fn lemma_rotation_bounds_and_keeps(
    files: LogFiles,
    max_bytes: u64,
    max_files: usize,
    bytes: nat,
)
    requires
        files.dom().contains(0),
        max_bytes <= files[0] <= u64::MAX,
    ensures
        ({
            let steps = rotation_steps(Some(files[0] as u64), max_bytes, max_files);
            let after = files_after_write(files, steps, bytes);
            &&& !rename_files(files, steps).dom().contains(0)
            &&& after.dom().contains(0) && after[0] == bytes
            &&& bytes <= max_bytes ==> after[0] <= max_bytes
            &&& forall|g: nat|
                g < shift_count(max_files) && #[trigger] files.dom().contains(g)
                    ==> after.dom().contains(g + 1) && after[g + 1] == files[g]
            &&& forall|g: nat|
                g > shift_count(max_files) ==> (#[trigger] after.dom().contains(g)
                    <==> files.dom().contains(g))
        }),
{
    let n = shift_count(max_files) as int;
    let steps = shift_steps(max_files);
    lemma_shift_prefix(files, max_files, n);
    assert(steps.take(n) =~= steps);
    let shifted = rename_files(files, steps);
    assert(shifted_by(files, shifted, n, n));
    assert(!shifted.dom().contains(0));
    let after = files_after_write(files, steps, bytes);
    assert(after == shifted.insert(0, bytes));
    assert forall|g: nat|
        g < shift_count(max_files) && #[trigger] files.dom().contains(g) implies after.dom().contains(
        g + 1,
    ) && after[g + 1] == files[g] by {
        assert(shifted.dom().contains(g + 1) && shifted[g + 1] == files[g]);
    }
    assert forall|g: nat| g > shift_count(max_files) implies (#[trigger] after.dom().contains(g)
        <==> files.dom().contains(g)) by {
        assert(shifted.dom().contains(g) <==> files.dom().contains(g));
    }
}

/// A write that does not rotate renames nothing and grows the primary file
/// by the line.
pub proof fn lemma_plain_write_appends(files: LogFiles, max_bytes: u64, max_files: usize, bytes: nat)
    requires
        files.dom().contains(0) ==> files[0] < max_bytes,
    ensures
        ({
            let size = if files.dom().contains(0) {
                Some(files[0] as u64)
            } else {
                None
            };
            let after = files_after_write(
                files,
                rotation_steps(size, max_bytes, max_files),
                bytes,
            );
            &&& after == append_bytes(files, bytes)
            &&& forall|g: nat| g > 0 ==> (after.dom().contains(g) <==> files.dom().contains(g))
        }),
{
}

} // verus!
