//! The layer manager: the four tier roots, where each layer lives on them,
//! and the decisions of reading, promoting and ingesting layers.

use vstd::prelude::*;
use crate::layout::{fan_out_path, fan_out_path_spec, flat_path, flat_path_spec};

verus! {

/// A storage role.
#[derive(Clone, Copy, Debug, PartialEq, Eq, Structural)]
pub enum Tier {
    /// The authoritative, slow store; fan-out layout.
    Primary,
    /// The fast read cache; fan-out layout.
    Local,
    /// Staging for copies in flight; flat layout.
    Scratch,
}

/// The roots of the tiers.
pub struct LayerManager {
    primary_path: String,
    local_path: String,
    upload_path: String,
    scratch_path: String,
}

impl LayerManager {
    pub closed spec fn root(&self, tier: Tier) -> Seq<char> {
        match tier {
            Tier::Primary => self.primary_path@,
            Tier::Local => self.local_path@,
            Tier::Scratch => self.scratch_path@,
        }
    }

    pub closed spec fn upload_root(&self) -> Seq<char> {
        self.upload_path@
    }

    /// Where a layer lives on a tier.
    pub open spec fn layer_path_spec(&self, tier: Tier, layer: [u32; 5]) -> Seq<char> {
        match tier {
            Tier::Scratch => flat_path_spec(self.root(tier), layer@),
            _ => fan_out_path_spec(self.root(tier), layer@),
        }
    }

    pub fn new(
        primary_path: String,
        local_path: String,
        upload_path: String,
        scratch_path: String,
    ) -> (r: LayerManager)
        ensures
            r.root(Tier::Primary) == primary_path@,
            r.root(Tier::Local) == local_path@,
            r.root(Tier::Scratch) == scratch_path@,
            r.upload_root() == upload_path@,
    {
        LayerManager { primary_path, local_path, upload_path, scratch_path }
    }

    /// The directory that uploads are spooled to.
    pub fn upload_path(&self) -> (r: &str)
        ensures
            r@ == self.upload_root(),
    {
        self.upload_path.as_str()
    }

    pub fn layer_file_path(&self, tier: Tier, layer: [u32; 5]) -> (r: String)
        ensures
            r@ == self.layer_path_spec(tier, layer),
    {
        match tier {
            Tier::Primary => fan_out_path(self.primary_path.as_str(), layer),
            Tier::Local => fan_out_path(self.local_path.as_str(), layer),
            Tier::Scratch => flat_path(self.scratch_path.as_str(), layer),
        }
    }

    pub fn primary_layer_file_path(&self, layer: [u32; 5]) -> (r: String)
        ensures
            r@ == fan_out_path_spec(self.root(Tier::Primary), layer@),
    {
        self.layer_file_path(Tier::Primary, layer)
    }

    pub fn local_layer_file_path(&self, layer: [u32; 5]) -> (r: String)
        ensures
            r@ == fan_out_path_spec(self.root(Tier::Local), layer@),
    {
        self.layer_file_path(Tier::Local, layer)
    }

    pub fn scratch_layer_file_path(&self, layer: [u32; 5]) -> (r: String)
        ensures
            r@ == flat_path_spec(self.root(Tier::Scratch), layer@),
    {
        self.layer_file_path(Tier::Scratch, layer)
    }
}

/// How a file-system call ended.
#[derive(Clone, Copy, Debug, PartialEq, Eq, Structural)]
pub enum IoOutcome {
    Done,
    NotFound,
    Failed,
}

/// The two calls that open a layer file on a tier: first its metadata (for
/// its size), then the file itself, read-only.
#[derive(Clone, Copy, Debug, PartialEq, Eq, Structural)]
pub enum OpenStage {
    Stat,
    Open,
}

/// What to do after a call of `OpenStage`.
#[derive(Clone, Copy, Debug, PartialEq, Eq, Structural)]
pub enum OpenAction {
    /// Open the file.
    Open,
    /// Hand out the size and the open file.
    Found,
    /// The layer is not on this tier.
    Absent,
    /// Surface the error.
    Fail,
}

/// The tier reader: "not found", at either call (the second one races with a
/// deletion), means absent; any other failure is an error.
pub fn open_next(stage: OpenStage, outcome: IoOutcome) -> (r: OpenAction)
    ensures
        r == (match outcome {
            IoOutcome::Done => if stage == OpenStage::Stat {
                OpenAction::Open
            } else {
                OpenAction::Found
            },
            IoOutcome::NotFound => OpenAction::Absent,
            IoOutcome::Failed => OpenAction::Fail,
        }),
{
    match outcome {
        IoOutcome::Done => match stage {
            OpenStage::Stat => OpenAction::Open,
            OpenStage::Open => OpenAction::Found,
        },
        IoOutcome::NotFound => OpenAction::Absent,
        IoOutcome::Failed => OpenAction::Fail,
    }
}

/// What the tier reader answered.
#[derive(Clone, Copy, Debug, PartialEq, Eq, Structural)]
pub enum Lookup {
    Found,
    Missing,
    Failed,
}

/// What to do next while reading a layer.
#[derive(Clone, Copy, Debug, PartialEq, Eq, Structural)]
pub enum Resolution {
    /// Ask the tier reader on this tier.
    Consult(Tier),
    /// Serve the stream of this tier; `promote` asks for a background
    /// promotion as well.
    Serve { tier: Tier, promote: bool },
    /// The layer is on no tier.
    Absent,
    /// Surface the error.
    Fail,
}

/// The tier that a read consults first.
pub fn first_read_tier() -> (r: Tier)
    ensures
        r == Tier::Local,
{
    Tier::Local
}

/// Read-through: local first; on a miss, primary, served at once while a
/// promotion is asked for; on a miss there too, absent.
pub fn resolve_next(consulted: Tier, lookup: Lookup) -> (r: Resolution)
    requires
        consulted != Tier::Scratch,
    ensures
        r == (match lookup {
            Lookup::Found => Resolution::Serve {
                tier: consulted,
                promote: consulted == Tier::Primary,
            },
            Lookup::Missing => if consulted == Tier::Local {
                Resolution::Consult(Tier::Primary)
            } else {
                Resolution::Absent
            },
            Lookup::Failed => Resolution::Fail,
        }),
{
    match lookup {
        Lookup::Found => Resolution::Serve {
            tier: consulted,
            promote: match consulted {
                Tier::Primary => true,
                _ => false,
            },
        },
        Lookup::Missing => match consulted {
            Tier::Local => Resolution::Consult(Tier::Primary),
            _ => Resolution::Absent,
        },
        Lookup::Failed => Resolution::Fail,
    }
}

/// Why a file handed in from outside is not taken as an upload.
#[derive(Clone, Copy, Debug, PartialEq, Eq, Structural)]
pub enum OutsideUploadError {
    /// The path has no parent directory.
    NoParent,
    /// The canonical parent directory is not the canonical upload directory.
    NotInUploadDir,
}

fn bytes_eq(a: &[u8], b: &[u8]) -> (r: bool)
    ensures
        r == (a@ == b@),
{
    if a.len() != b.len() {
        return false;
    }
    let mut i: usize = 0;
    while i < a.len()
        invariant
            a@.len() == b@.len(),
            0 <= i <= a@.len(),
            forall|j: int| 0 <= j < i ==> a@[j] == b@[j],
        decreases a@.len() - i,
    {
        if a[i] != b[i] {
            return false;
        }
        i = i + 1;
    }
    assert(a@ =~= b@);
    true
}

/// The path check of a file handed in from outside: `canonical_parent` is
/// the canonical form of the file's parent directory (`None` when the path
/// has none), `canonical_upload` that of the upload directory. The file is
/// taken only when the two are the same path, byte for byte; a prefix is not
/// enough.
pub fn outside_upload_verdict(canonical_parent: Option<&[u8]>, canonical_upload: &[u8]) -> (r:
    Result<(), OutsideUploadError>)
    ensures
        r is Ok <==> (canonical_parent matches Some(p) && p@ == canonical_upload@),
        canonical_parent is None ==> r == Err::<(), OutsideUploadError>(
            OutsideUploadError::NoParent,
        ),
        (canonical_parent matches Some(p) && p@ != canonical_upload@) ==> r == Err::<
            (),
            OutsideUploadError,
        >(OutsideUploadError::NotInUploadDir),
{
    match canonical_parent {
        None => Err(OutsideUploadError::NoParent),
        Some(p) => if bytes_eq(p, canonical_upload) {
            Ok(())
        } else {
            Err(OutsideUploadError::NotInUploadDir)
        },
    }
}

/// Why a sub-file's range cannot be used.
#[derive(Clone, Copy, Debug, PartialEq, Eq, Structural)]
pub enum RangeError {
    /// An offset does not fit the machine's integers.
    Overflow,
    /// The range ends before it starts.
    Inverted,
}

pub open spec fn absolute_range_spec(body_offset: int, start: int, end: int) -> (int, int) {
    (body_offset + start, body_offset + end)
}

/// A sub-file's range in the coordinates of the whole layer file:
/// `relative` is what the archive header gives, measured from the end of
/// the header, and `body_offset` is where the header ends.
pub fn absolute_range(body_offset: usize, relative: Option<(usize, usize)>) -> (r: Result<
    Option<(usize, usize)>,
    RangeError,
>)
    ensures
        relative is None ==> r == Ok::<Option<(usize, usize)>, RangeError>(None),
        relative matches Some((s, e)) ==> ({
            if body_offset + s <= usize::MAX && body_offset + e <= usize::MAX {
                (r matches Ok(Some((a, b))) && (a as int, b as int) == absolute_range_spec(
                    body_offset as int,
                    s as int,
                    e as int,
                ))
            } else {
                r == Err::<Option<(usize, usize)>, RangeError>(RangeError::Overflow)
            }
        }),
{
    match relative {
        None => Ok(None),
        Some((s, e)) => {
            if s > usize::MAX - body_offset || e > usize::MAX - body_offset {
                Err(RangeError::Overflow)
            } else {
                Ok(Some((body_offset + s, body_offset + e)))
            }
        },
    }
}

/// How to stream a sub-file from a reader that stands at the end of the
/// header: skip `skip` bytes, then take `len`.
#[derive(Clone, Copy, Debug, PartialEq, Eq, Structural)]
pub struct SubFileWindow {
    pub skip: u64,
    pub len: u64,
}

/// The bytes to skip and the bytes to take for the range `[start, end)`.
pub open spec fn window_spec(start: int, end: int) -> (int, int) {
    (start, end - start)
}

/// The largest forward seek that a reader accepts.
pub const MAX_SEEK: u64 = 0x7fff_ffff_ffff_ffff;

/// The window of a sub-file whose range, relative to the end of the header,
/// is `[start, end)`.
pub fn sub_file_window(start: usize, end: usize) -> (r: Result<SubFileWindow, RangeError>)
    ensures
        end < start ==> r == Err::<SubFileWindow, RangeError>(RangeError::Inverted),
        start <= end && start > MAX_SEEK ==> r == Err::<SubFileWindow, RangeError>(
            RangeError::Overflow,
        ),
        start <= end && start <= MAX_SEEK ==> (r matches Ok(w) && (w.skip as int, w.len as int)
            == window_spec(start as int, end as int)),
{
    if end < start {
        Err(RangeError::Inverted)
    } else if start as u64 > MAX_SEEK {
        Err(RangeError::Overflow)
    } else {
        Ok(SubFileWindow { skip: start as u64, len: (end - start) as u64 })
    }
}

/// For a sub-file that the header places at `[start, end)` after a header
/// that ends at `body_offset`, the bytes that its window streams are exactly
/// those of its absolute range `[a, b)`, and `a < b` when the sub-file is
/// not empty.
pub proof fn lemma_range_consistency(body_offset: usize, start: usize, end: usize)
    requires
        start <= end,
    ensures
        ({
            let (a, b) = absolute_range_spec(body_offset as int, start as int, end as int);
            let (skip, len) = window_spec(start as int, end as int);
            &&& a == body_offset + skip
            &&& b == a + len
            &&& (start < end ==> a < b)
        }),
{
}

/// The steps of ingesting an upload into the primary tier.
#[derive(Clone, Copy, Debug, PartialEq, Eq, Structural)]
pub enum UploadStep {
    /// Create a fresh temporary file under the upload directory.
    CreateTemp,
    /// Write the next chunk of the body; `succeeded` with `more` false means
    /// the body has ended.
    WriteBody,
    /// Flush the temporary file.
    Flush,
    /// Create the fan-out directory on the primary tier.
    CreatePrimaryDir,
    /// Rename the temporary file to its primary path.
    RenameIntoPrimary,
    /// Ask for a promotion and report success.
    Promote,
    /// Report the error of the step that failed.
    Fail,
}

/// The step that follows `step`, given whether it succeeded and, for a
/// write, whether the body has more chunks. A failure ends the upload with
/// an error; the two last steps are final.
pub open spec fn upload_step_spec(step: UploadStep, succeeded: bool, more: bool) -> UploadStep {
    match step {
        UploadStep::Promote => UploadStep::Promote,
        UploadStep::Fail => UploadStep::Fail,
        _ => if !succeeded {
            UploadStep::Fail
        } else {
            match step {
                UploadStep::CreateTemp => UploadStep::WriteBody,
                UploadStep::WriteBody => if more {
                    UploadStep::WriteBody
                } else {
                    UploadStep::Flush
                },
                UploadStep::Flush => UploadStep::CreatePrimaryDir,
                UploadStep::CreatePrimaryDir => UploadStep::RenameIntoPrimary,
                _ => UploadStep::Promote,
            }
        },
    }
}

pub fn next_upload_step(step: UploadStep, succeeded: bool, more: bool) -> (r: UploadStep)
    ensures
        r == upload_step_spec(step, succeeded, more),
{
    match step {
        UploadStep::Promote => return UploadStep::Promote,
        UploadStep::Fail => return UploadStep::Fail,
        _ => {},
    }
    if !succeeded {
        return UploadStep::Fail;
    }
    match step {
        UploadStep::CreateTemp => UploadStep::WriteBody,
        UploadStep::WriteBody => if more {
            UploadStep::WriteBody
        } else {
            UploadStep::Flush
        },
        UploadStep::Flush => UploadStep::CreatePrimaryDir,
        UploadStep::CreatePrimaryDir => UploadStep::RenameIntoPrimary,
        _ => UploadStep::Promote,
    }
}

/// Where an upload stands after steps with these outcomes (whether each
/// succeeded, and for a write whether more of the body follows).
pub open spec fn upload_run(events: Seq<(bool, bool)>) -> UploadStep
    decreases events.len(),
{
    if events.len() == 0 {
        UploadStep::CreateTemp
    } else {
        upload_step_spec(upload_run(events.drop_last()), events.last().0, events.last().1)
    }
}

/// Whatever the outcomes of its steps, an upload that has not failed had
/// every step succeed; it flushes only right after the body ended; and it
/// renames the temporary file into the primary tier only two steps after
/// that flush, so no partial body is ever linked there.
pub proof fn lemma_upload_runs(events: Seq<(bool, bool)>)
    ensures
        upload_run(events) != UploadStep::Fail ==> forall|i: int|
            0 <= i < events.len() ==> (#[trigger] events[i]).0 || upload_run(events.take(i))
                == UploadStep::Promote,
        upload_run(events) == UploadStep::WriteBody ==> events.len() >= 1,
        upload_run(events) == UploadStep::CreatePrimaryDir ==> events.len() >= 3 && upload_run(
            events.drop_last(),
        ) == UploadStep::Flush,
        upload_run(events) == UploadStep::Flush ==> events.len() >= 2 && !events.last().1
            && upload_run(events.drop_last()) == UploadStep::WriteBody,
        upload_run(events) == UploadStep::RenameIntoPrimary ==> events.len() >= 4 && upload_run(
            events.take(events.len() - 2),
        ) == UploadStep::Flush,
    decreases events.len(),
{
    if events.len() > 0 {
        let prev = events.drop_last();
        lemma_upload_runs(prev);
        if upload_run(events) != UploadStep::Fail {
            assert forall|i: int| 0 <= i < events.len() implies (#[trigger] events[i]).0
                || upload_run(events.take(i)) == UploadStep::Promote by {
                if i < prev.len() {
                    assert(prev[i] == events[i]);
                    assert(prev.take(i) =~= events.take(i));
                } else {
                    assert(events.take(i) =~= prev);
                }
            }
        }
        if upload_run(events) == UploadStep::RenameIntoPrimary {
            assert(upload_run(prev) == UploadStep::CreatePrimaryDir);
            assert(prev.len() > 0);
            assert(events.take(events.len() - 2) =~= prev.drop_last());
        }
    }
}

} // verus!
