//! The card session and its operations.

use crate::plan::Operation;
use crate::transaction::Pending;
use embedded_sdmmc::Mode;
use vstd::prelude::*;

verus! {

/// A card session: the first volume of the card is mounted and its root
/// directory is open. There is one only where a transaction begun by
/// [`SdCard::new`] has ended well, and [`SdCard::close_dir`] uses it up.
///
/// Every operation begins a transaction of its own, which borrows the
/// session until it is over: a session has one operation under way at a
/// time, and so holds the bus at most once. No operation changes the
/// session.
#[derive(Debug)]
pub struct SdCard {
    sealed: (),
}

impl SdCard {
    /// The session of a card that was just mounted.
    pub(crate) fn mounted() -> SdCard {
        SdCard { sealed: () }
    }

    /// Begins a session: under one acquisition of the bus, mount the first
    /// volume of the card, then open its root directory.
    pub fn new() -> (t: Pending<'static, 'static>)
        ensures
            t.operation() == Operation::New,
    {
        Pending::begin(Operation::New)
    }

    /// Begins the opening of the file `file_name` of the root directory in
    /// `mode`.
    pub fn open_file<'s, 'a>(&'s mut self, file_name: &'a str, mode: Mode) -> (t: Pending<'s, 'a>)
        ensures
            t.operation() == Operation::OpenFile(file_name, mode),
            *final(self) == *old(self),
    {
        Pending::begin(Operation::OpenFile(file_name, mode))
    }

    /// Begins the closing of an open file.
    pub fn close_file(&mut self) -> (t: Pending<'_, 'static>)
        ensures
            t.operation() == Operation::CloseFile,
            *final(self) == *old(self),
    {
        Pending::begin(Operation::CloseFile)
    }

    /// Begins the writing of `buffer` to an open file, at its cursor.
    pub fn write<'s, 'a>(&'s mut self, buffer: &'a [u8]) -> (t: Pending<'s, 'a>)
        ensures
            t.operation() == Operation::Write(buffer),
            *final(self) == *old(self),
    {
        Pending::begin(Operation::Write(buffer))
    }

    /// Begins a read from an open file, at its cursor.
    pub fn read(&mut self) -> (t: Pending<'_, 'static>)
        ensures
            t.operation() == Operation::Read,
            *final(self) == *old(self),
    {
        Pending::begin(Operation::Read)
    }

    /// Begins the writing of a file in one go: under one acquisition of the
    /// bus, open the file `file_name` to append to it, creating it if it is
    /// not there, write `buffer` to it, once, and close it.
    pub fn write_file<'s, 'a>(&'s mut self, file_name: &'a str, buffer: &'a [u8]) -> (t: Pending<
        's,
        'a,
    >)
        ensures
            t.operation() == Operation::WriteFile(file_name, buffer),
            *final(self) == *old(self),
    {
        Pending::begin(Operation::WriteFile(file_name, buffer))
    }

    /// Begins the reading of a file in one go: under one acquisition of the
    /// bus, open the file `file_name` to read it, read from it once, and
    /// close it.
    pub fn read_file<'s, 'a>(&'s mut self, file_name: &'a str) -> (t: Pending<'s, 'a>)
        ensures
            t.operation() == Operation::ReadFile(file_name),
            *final(self) == *old(self),
    {
        Pending::begin(Operation::ReadFile(file_name))
    }

    /// Begins the closing of the root directory, which ends the session.
    pub fn close_dir(self) -> (t: Pending<'static, 'static>)
        ensures
            t.operation() == Operation::CloseDir,
    {
        Pending::begin(Operation::CloseDir)
    }
}

} // verus!
