//! What each operation of a card session asks of the filesystem engine.

use embedded_sdmmc::{Mode, VolumeIdx};
use vstd::prelude::*;

verus! {

/// `embedded_sdmmc::Mode`, the ways in which the engine opens a file.
#[verifier::external_type_specification]
pub struct ExMode(embedded_sdmmc::Mode);

/// `embedded_sdmmc::VolumeIdx`, the number of a partition of the card, the
/// first one being 0.
#[verifier::external_type_specification]
pub struct ExVolumeIdx(embedded_sdmmc::VolumeIdx);

/// The most directories that the engine keeps open at a time.
pub const MAX_DIRS: usize = 4;

/// The most files that the engine keeps open at a time.
pub const MAX_FILES: usize = 4;

/// One call on the filesystem engine, with the arguments that the caller of
/// the operation chose. The handles that the call works on (the volume, the
/// directory, the file) and the buffer that a read fills are the driver's.
#[derive(Clone, Copy, Debug, PartialEq, Eq)]
pub enum Call<'a> {
    /// Mount the volume with this number.
    MountVolume(VolumeIdx),
    /// Open the root directory of the mounted volume.
    OpenRootDir,
    /// Open the file of this name in the root directory, in this mode.
    OpenFile(&'a str, Mode),
    /// Write these bytes at the file's cursor.
    Write(&'a [u8]),
    /// Read into the caller's buffer from the file's cursor.
    Read,
    /// Flush the file and give up its handle.
    CloseFile,
    /// Give up the handle of the root directory.
    CloseDir,
}

impl<'a> Call<'a> {
    /// Whether the call moves bytes and so reports a count.
    #[verifier::allow_in_spec]
    pub fn transfers(self) -> bool
        returns
            self is Write || self is Read,
    {
        match self {
            Call::Write(_) => true,
            Call::Read => true,
            _ => false,
        }
    }
}

/// An operation of the card session.
#[derive(Clone, Copy, Debug, PartialEq, Eq)]
pub enum Operation<'a> {
    /// Mount the first volume and open its root directory.
    New,
    /// Open the file of this name in this mode.
    OpenFile(&'a str, Mode),
    /// Close an open file.
    CloseFile,
    /// Write these bytes to an open file.
    Write(&'a [u8]),
    /// Read from an open file.
    Read,
    /// Open the file of this name to append to it, creating it if it is not
    /// there; write these bytes to it, once; close it.
    WriteFile(&'a str, &'a [u8]),
    /// Open the file of this name to read it; read from it once; close it.
    ReadFile(&'a str),
    /// Close the root directory.
    CloseDir,
}

impl<'a> Operation<'a> {
    /// The engine calls of the operation, in the order in which they are
    /// made, all of them under one acquisition of the bus.
    pub open spec fn plan(self) -> Seq<Call<'a>> {
        match self {
            Operation::New => seq![Call::MountVolume(VolumeIdx(0)), Call::OpenRootDir],
            Operation::OpenFile(name, mode) => seq![Call::OpenFile(name, mode)],
            Operation::CloseFile => seq![Call::CloseFile],
            Operation::Write(bytes) => seq![Call::Write(bytes)],
            Operation::Read => seq![Call::Read],
            Operation::WriteFile(name, bytes) => seq![
                Call::OpenFile(name, Mode::ReadWriteCreateOrAppend),
                Call::Write(bytes),
                Call::CloseFile,
            ],
            Operation::ReadFile(name) => seq![
                Call::OpenFile(name, Mode::ReadOnly),
                Call::Read,
                Call::CloseFile,
            ],
            Operation::CloseDir => seq![Call::CloseDir],
        }
    }

    /// How many engine calls the operation makes when none of them fails.
    pub fn calls(self) -> (n: usize)
        ensures
            n == self.plan().len(),
            0 < n <= 3,
    {
        match self {
            Operation::New => 2,
            Operation::WriteFile(_, _) => 3,
            Operation::ReadFile(_) => 3,
            _ => 1,
        }
    }

    /// The engine call that the operation makes once `index` of its calls
    /// have succeeded; none when the plan is through.
    pub fn call(self, index: usize) -> (c: Option<Call<'a>>)
        ensures
            c == (if index < self.plan().len() {
                Some(self.plan()[index as int])
            } else {
                None
            }),
    {
        match (self, index) {
            (Operation::New, 0) => Some(Call::MountVolume(VolumeIdx(0))),
            (Operation::New, 1) => Some(Call::OpenRootDir),
            (Operation::OpenFile(name, mode), 0) => Some(Call::OpenFile(name, mode)),
            (Operation::CloseFile, 0) => Some(Call::CloseFile),
            (Operation::Write(bytes), 0) => Some(Call::Write(bytes)),
            (Operation::Read, 0) => Some(Call::Read),
            (Operation::WriteFile(name, _), 0) => Some(
                Call::OpenFile(name, Mode::ReadWriteCreateOrAppend),
            ),
            (Operation::WriteFile(_, bytes), 1) => Some(Call::Write(bytes)),
            (Operation::WriteFile(_, _), 2) => Some(Call::CloseFile),
            (Operation::ReadFile(name), 0) => Some(Call::OpenFile(name, Mode::ReadOnly)),
            (Operation::ReadFile(_), 1) => Some(Call::Read),
            (Operation::ReadFile(_), 2) => Some(Call::CloseFile),
            (Operation::CloseDir, 0) => Some(Call::CloseDir),
            _ => None,
        }
    }
}

} // verus!
