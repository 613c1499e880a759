//! Decoding of the line protocol: one acceleration sample per text line,
//! written as a three-element numeric array such as `[0.12, -9.7, 0.4]`.
//!
//! The decoder does not read by itself. Whoever owns the byte source hands it
//! each line, the end of the stream or a read failure, and gets back what the
//! sample sequence yields next.

use vstd::prelude::*;

verus! {

/// The sample a line decodes to, when its trimmed content is a
/// three-element numeric array.
pub uninterp spec fn decoded_of(line: Seq<char>) -> Option<glam::Vec3>;

/// Relies on `serde_json::from_str` into `glam::Vec3`, whose serde support
/// reads exactly a sequence of three numbers and whose result depends on the
/// text alone; surrounding whitespace is skipped.
#[verifier::external_body]
pub(crate) fn parse_line(line: &str) -> (r: Option<glam::Vec3>)
    ensures
        r == decoded_of(line@),
{
    serde_json::from_str::<glam::Vec3>(line).ok()
}

/// The number of consecutive undecodable lines that ends the sequence.
pub const MAX_INVALID_FRAMES: u32 = 4;

/// A terminal failure of the sample sequence.
#[derive(Clone, Copy, Debug, PartialEq, Eq, Structural)]
pub enum DecodeError {
    /// Too many consecutive lines could not be decoded.
    TooManyInvalidFrames,
    /// The underlying source failed to deliver a line.
    IoFailure,
}

/// What the sample sequence does after being handed one event.
#[derive(Clone, Copy, Debug)]
pub enum Feed {
    /// Nothing yet: the next line is needed.
    Pending,
    /// The next item of the sequence.
    Item(Result<glam::Vec3, DecodeError>),
    /// The sequence is over; it yields nothing more.
    Ended,
}

/// The resync state of the sample sequence: how many lines in a row failed to
/// decode, and whether the sequence has ended.
#[derive(Clone, Copy, Debug)]
pub struct FrameDecoder {
    invalid_run: u32,
    finished: bool,
}

impl FrameDecoder {
    /// The number of consecutive undecodable lines seen since the last sample.
    pub closed spec fn invalid_run(self) -> nat {
        self.invalid_run as nat
    }

    /// Whether the sequence has ended, by its stream's end or by an error.
    pub closed spec fn is_finished(self) -> bool {
        self.finished
    }

    /// A decoder at the start of a stream.
    pub fn new() -> (r: Self)
        ensures
            r.invalid_run() == 0,
            !r.is_finished(),
    {
        FrameDecoder { invalid_run: 0, finished: false }
    }

    /// Whether the sequence has ended.
    pub fn finished(&self) -> (r: bool)
        ensures
            r == self.is_finished(),
    {
        self.finished
    }

    /// Hands the decoder one line of the stream.
    ///
    /// A line that decodes yields its sample and resets the count of invalid
    /// lines. One that does not is discarded, unless it is the
    /// `MAX_INVALID_FRAMES`-th in a row: then the sequence yields
    /// `TooManyInvalidFrames` and ends.
    pub fn on_line(&mut self, line: &str) -> (r: Feed)
        ensures
            old(self).is_finished() ==> r == Feed::Ended && *final(self) == *old(self),
            !old(self).is_finished() ==> match decoded_of(line@) {
                Some(v) => {
                    &&& r == Feed::Item(Ok(v))
                    &&& final(self).invalid_run() == 0
                    &&& !final(self).is_finished()
                },
                None => if old(self).invalid_run() + 1 < MAX_INVALID_FRAMES {
                    &&& r == Feed::Pending
                    &&& final(self).invalid_run() == old(self).invalid_run() + 1
                    &&& !final(self).is_finished()
                } else {
                    &&& r == Feed::Item(Err(DecodeError::TooManyInvalidFrames))
                    &&& final(self).is_finished()
                },
            },
    {
        if self.finished {
            return Feed::Ended;
        }
        match parse_line(line) {
            Some(v) => {
                self.invalid_run = 0;
                Feed::Item(Ok(v))
            },
            None => {
                if self.invalid_run < MAX_INVALID_FRAMES - 1 {
                    self.invalid_run = self.invalid_run + 1;
                    Feed::Pending
                } else {
                    self.finished = true;
                    Feed::Item(Err(DecodeError::TooManyInvalidFrames))
                }
            },
        }
    }

    /// Tells the decoder that the stream has ended: the sequence ends without
    /// an error.
    pub fn on_end(&mut self) -> (r: Feed)
        ensures
            r == Feed::Ended,
            final(self).is_finished(),
    {
        self.finished = true;
        Feed::Ended
    }

    /// Tells the decoder that reading the next line failed: the sequence
    /// yields `IoFailure` and ends, unless it had already ended.
    pub fn on_read_error(&mut self) -> (r: Feed)
        ensures
            old(self).is_finished() ==> r == Feed::Ended,
            !old(self).is_finished() ==> r == Feed::Item(Err(DecodeError::IoFailure)),
            final(self).is_finished(),
    {
        if self.finished {
            Feed::Ended
        } else {
            self.finished = true;
            Feed::Item(Err(DecodeError::IoFailure))
        }
    }
}

} // verus!
