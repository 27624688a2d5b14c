//! The work of one image: skip it if its file is already staged, else fetch,
//! convert, save and count it.
//!
//! A failure to fetch or to save an image is not an error of the chapter at
//! this point. The image is simply not counted, and the chapter finds out when
//! it compares its counter with the number of its pages.

use vstd::prelude::*;

verus! {

/// The operation whose result the image's work is waiting for.
#[derive(Debug, Clone, Copy, PartialEq, Eq, Structural)]
pub enum ImageStep {
    CheckExisting,
    Fetch,
    Save,
    Sleep,
    Finished,
}

/// What the caller reports after performing an operation.
#[derive(Debug, Clone, Copy, PartialEq, Eq, Structural)]
pub enum ImageEvent {
    /// Whether the image's file is in the staging directory already.
    Existing { exists: bool },
    /// The image's bytes arrived, `byte_len` of them.
    Fetched { byte_len: u64 },
    /// The image could not be fetched.
    FetchFailed,
    /// The file was written, or could not be.
    Saved { ok: bool },
    /// The delay between images has passed.
    SleepDone,
}

/// What the caller has to do next.
#[derive(Debug, Clone, Copy, PartialEq, Eq, Structural)]
pub enum ImageAction {
    /// Look for the image's file in the staging directory.
    CheckExisting,
    /// Fetch the image's bytes.
    Fetch,
    /// Convert the bytes where needed and write the file.
    Save,
    /// Count the image as downloaded and stop: its file was there.
    CountExisting,
    /// Add `bytes` to the throughput meter, count the image as downloaded,
    /// then wait `seconds` seconds.
    CountDownloaded { bytes: u64, seconds: u64 },
    /// Wait `seconds` seconds: the image is counted already.
    Wait { seconds: u64 },
    /// Stop.
    Finish,
}

/// The progress of one image's work.
#[derive(Debug, Clone, Copy, PartialEq, Eq, Structural)]
pub struct ImageBody {
    pub step: ImageStep,
    /// The size of what was fetched.
    pub byte_len: u64,
    /// Whether the image has been counted as downloaded.
    pub counted: bool,
    /// Whether the network was asked for the image.
    pub fetched: bool,
    /// The delay after a downloaded image, in seconds.
    pub img_interval_sec: u64,
}

/// The body that has stopped.
pub open spec fn stopped(body: ImageBody) -> ImageBody {
    ImageBody { step: ImageStep::Finished, ..body }
}

/// The operation that a body waiting at its step has asked for.
pub open spec fn pending_action(body: ImageBody) -> ImageAction {
    match body.step {
        ImageStep::CheckExisting => ImageAction::CheckExisting,
        ImageStep::Fetch => ImageAction::Fetch,
        ImageStep::Save => ImageAction::Save,
        ImageStep::Sleep => ImageAction::Wait { seconds: body.img_interval_sec },
        ImageStep::Finished => ImageAction::Finish,
    }
}

/// The body after `event`, and the operation it asks for. An event that the
/// current step does not wait for changes nothing.
pub open spec fn next(body: ImageBody, event: ImageEvent) -> (ImageBody, ImageAction) {
    match (body.step, event) {
        (ImageStep::CheckExisting, ImageEvent::Existing { exists }) => if exists {
            (
                ImageBody { step: ImageStep::Finished, counted: true, ..body },
                ImageAction::CountExisting,
            )
        } else {
            (ImageBody { step: ImageStep::Fetch, fetched: true, ..body }, ImageAction::Fetch)
        },
        (ImageStep::Fetch, ImageEvent::Fetched { byte_len }) => (
            ImageBody { step: ImageStep::Save, byte_len, ..body },
            ImageAction::Save,
        ),
        (ImageStep::Fetch, ImageEvent::FetchFailed) => (stopped(body), ImageAction::Finish),
        (ImageStep::Save, ImageEvent::Saved { ok }) => if ok {
            (
                ImageBody { step: ImageStep::Sleep, counted: true, ..body },
                ImageAction::CountDownloaded {
                    bytes: body.byte_len,
                    seconds: body.img_interval_sec,
                },
            )
        } else {
            (stopped(body), ImageAction::Finish)
        },
        (ImageStep::Sleep, ImageEvent::SleepDone) => (stopped(body), ImageAction::Finish),
        _ => (body, pending_action(body)),
    }
}

/// Whether `action` tells the caller to add one to the chapter's counter of
/// downloaded images.
pub open spec fn counts(action: ImageAction) -> bool {
    action is CountExisting || action is CountDownloaded
}

impl ImageBody {
    /// What holds of a body at every moment: an image is counted once its
    /// file is known to be staged, and the network is asked only for an image
    /// whose file was not there.
    pub open spec fn wf(self) -> bool {
        &&& self.step == ImageStep::CheckExisting ==> !self.counted && !self.fetched
        &&& (self.step == ImageStep::Fetch || self.step == ImageStep::Save) ==> !self.counted
            && self.fetched
        &&& self.step == ImageStep::Sleep ==> self.counted && self.fetched
    }

    /// The body before any work, and the first operation: looking for the
    /// image's file.
    pub fn new(img_interval_sec: u64) -> (res: (ImageBody, ImageAction))
        ensures
            res.0.wf(),
            res.0.step == ImageStep::CheckExisting,
            !res.0.counted,
            !res.0.fetched,
            res.0.byte_len == 0,
            res.0.img_interval_sec == img_interval_sec,
            res.1 == ImageAction::CheckExisting,
    {
        (
            ImageBody {
                step: ImageStep::CheckExisting,
                byte_len: 0,
                counted: false,
                fetched: false,
                img_interval_sec,
            },
            ImageAction::CheckExisting,
        )
    }

    /// Whether the work is over.
    pub fn is_finished(&self) -> (b: bool)
        ensures
            b == (self.step == ImageStep::Finished),
    {
        self.step == ImageStep::Finished
    }

    /// Whether the body is one that the work can have reached.
    pub fn well_formed(&self) -> (b: bool)
        ensures
            b == self.wf(),
    {
        match self.step {
            ImageStep::CheckExisting => !self.counted && !self.fetched,
            ImageStep::Fetch | ImageStep::Save => !self.counted && self.fetched,
            ImageStep::Sleep => self.counted && self.fetched,
            ImageStep::Finished => true,
        }
    }

    /// The operation the body is waiting for.
    pub fn pending(&self) -> (action: ImageAction)
        ensures
            action == pending_action(*self),
    {
        match self.step {
            ImageStep::CheckExisting => ImageAction::CheckExisting,
            ImageStep::Fetch => ImageAction::Fetch,
            ImageStep::Save => ImageAction::Save,
            ImageStep::Sleep => ImageAction::Wait { seconds: self.img_interval_sec },
            ImageStep::Finished => ImageAction::Finish,
        }
    }

    /// Takes the report of the operation last asked for and answers with the
    /// next one.
    ///
    /// An image whose file is staged already is counted without a fetch. One
    /// that cannot be fetched or saved stops uncounted. One that is saved is
    /// counted, its size goes to the throughput meter, and the delay between
    /// images follows. The caller is told to count exactly when the body
    /// becomes counted, so never twice.
    pub fn advance(&mut self, event: ImageEvent) -> (action: ImageAction)
        ensures
            (*final(self), action) == next(*old(self), event),
            old(self).wf() ==> final(self).wf(),
            old(self).wf() ==> (counts(action) <==> final(self).counted && !old(self).counted),
    {
        match (self.step, event) {
            (ImageStep::CheckExisting, ImageEvent::Existing { exists }) => {
                if exists {
                    self.counted = true;
                    self.step = ImageStep::Finished;
                    ImageAction::CountExisting
                } else {
                    self.fetched = true;
                    self.step = ImageStep::Fetch;
                    ImageAction::Fetch
                }
            },
            (ImageStep::Fetch, ImageEvent::Fetched { byte_len }) => {
                self.byte_len = byte_len;
                self.step = ImageStep::Save;
                ImageAction::Save
            },
            (ImageStep::Fetch, ImageEvent::FetchFailed) => {
                self.step = ImageStep::Finished;
                ImageAction::Finish
            },
            (ImageStep::Save, ImageEvent::Saved { ok }) => {
                if ok {
                    self.counted = true;
                    self.step = ImageStep::Sleep;
                    ImageAction::CountDownloaded {
                        bytes: self.byte_len,
                        seconds: self.img_interval_sec,
                    }
                } else {
                    self.step = ImageStep::Finished;
                    ImageAction::Finish
                }
            },
            (ImageStep::Sleep, ImageEvent::SleepDone) => {
                self.step = ImageStep::Finished;
                ImageAction::Finish
            },
            _ => self.pending(),
        }
    }
}

/// What holds of a body before a report holds of it after, and the caller is
/// told to count exactly when the body becomes counted: no image is counted
/// twice, and none is counted that was not saved or found staged.
pub proof fn lemma_next_keeps_well_formed(body: ImageBody, event: ImageEvent)
    requires
        body.wf(),
    ensures
        next(body, event).0.wf(),
        counts(next(body, event).1) <==> next(body, event).0.counted && !body.counted,
        body.counted ==> next(body, event).0.counted,
        body.fetched ==> next(body, event).0.fetched,
        next(body, event).0.img_interval_sec == body.img_interval_sec,
{
}

/// An image whose file is staged already is counted as downloaded at once,
/// and the network is never asked for it.
pub proof fn lemma_staged_image_is_skipped(img_interval_sec: u64, later: ImageEvent)
    ensures
        ({
            let fresh = ImageBody {
                step: ImageStep::CheckExisting,
                byte_len: 0,
                counted: false,
                fetched: false,
                img_interval_sec,
            };
            let (after, action) = next(fresh, ImageEvent::Existing { exists: true });
            &&& action == ImageAction::CountExisting
            &&& after.counted
            &&& !after.fetched
            &&& after.step == ImageStep::Finished
            &&& next(after, later) == (after, ImageAction::Finish)
        }),
{
}

/// An image that could not be fetched, or could not be saved, stops without
/// being counted, and stays uncounted.
pub proof fn lemma_failed_image_is_not_counted(body: ImageBody, later: ImageEvent)
    requires
        body.wf(),
    ensures
        body.step == ImageStep::Fetch ==> ({
            let (after, action) = next(body, ImageEvent::FetchFailed);
            action == ImageAction::Finish && !after.counted && !next(after, later).0.counted
                && !counts(next(after, later).1)
        }),
        body.step == ImageStep::Save ==> ({
            let (after, action) = next(body, ImageEvent::Saved { ok: false });
            action == ImageAction::Finish && !after.counted && !next(after, later).0.counted
                && !counts(next(after, later).1)
        }),
{
}

} // verus!
