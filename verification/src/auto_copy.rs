//! Copying each capture to the clipboard, as the toolbar's setting says.
//!
//! Copies run on their own threads and may finish out of order. Every capture takes a
//! new generation number; a copy that is no longer the latest capture's is dropped, so
//! an earlier capture never overwrites the clipboard after a later one.
use vstd::prelude::*;
use crate::text::{concat2, str_eq};

verus! {

/// What goes to the clipboard after a capture.
#[derive(Clone, Copy, Debug, PartialEq, Eq, Structural)]
pub enum AutoCopyMode {
    Off,
    Path,
    Image,
}

impl AutoCopyMode {
    /// The value stored in `settings.json` for this mode.
    pub open spec fn setting_name(self) -> Seq<char> {
        match self {
            AutoCopyMode::Off => "none"@,
            AutoCopyMode::Path => "path"@,
            AutoCopyMode::Image => "image"@,
        }
    }

    /// The mode that a stored value selects: a missing or unknown value copies nothing,
    /// so that captures of people who never chose do not start overwriting the clipboard.
    pub open spec fn mode_of_setting(value: Option<Seq<char>>) -> AutoCopyMode {
        match value {
            Some(v) => if v == "path"@ {
                AutoCopyMode::Path
            } else if v == "image"@ {
                AutoCopyMode::Image
            } else {
                AutoCopyMode::Off
            },
            None => AutoCopyMode::Off,
        }
    }

    /// The value stored in `settings.json` for this mode.
    pub fn as_setting(self) -> (r: &'static str)
        ensures
            r@ == self.setting_name(),
    {
        match self {
            AutoCopyMode::Off => "none",
            AutoCopyMode::Path => "path",
            AutoCopyMode::Image => "image",
        }
    }

    /// Reads the stored value.
    pub fn from_setting(value: Option<&str>) -> (r: AutoCopyMode)
        ensures
            r == Self::mode_of_setting(
                match value {
                    Some(v) => Some(v@),
                    None => None,
                },
            ),
    {
        match value {
            Some(v) => {
                if str_eq(v, "path") {
                    AutoCopyMode::Path
                } else if str_eq(v, "image") {
                    AutoCopyMode::Image
                } else {
                    AutoCopyMode::Off
                }
            },
            None => AutoCopyMode::Off,
        }
    }
}

/// Reading back the stored value of a mode gives the same mode.
pub proof fn law_setting_round_trip(mode: AutoCopyMode)
    ensures
        AutoCopyMode::mode_of_setting(Some(mode.setting_name())) == mode,
{
    reveal_strlit("none");
    reveal_strlit("path");
    reveal_strlit("image");
    assert("none"@[0] != "path"@[0]);
    assert("none"@.len() != "image"@.len());
    assert("image"@.len() != "path"@.len());
}

/// A stored value other than `path` or `image`, or none at all, copies nothing.
pub proof fn law_unknown_settings_copy_nothing(value: Option<Seq<char>>)
    requires
        value != Some("path"@),
        value != Some("image"@),
    ensures
        AutoCopyMode::mode_of_setting(value) == AutoCopyMode::Off,
{
}

/// The number after `n`, wrapping to 0 after the largest `u64`.
pub open spec fn next_number(n: u64) -> u64 {
    if n == u64::MAX {
        0
    } else {
        (n + 1) as u64
    }
}

/// The generation number of the latest capture.
pub struct CaptureGenerations {
    latest: u64,
}

impl View for CaptureGenerations {
    type V = u64;

    closed spec fn view(&self) -> u64 {
        self.latest
    }
}

impl Default for CaptureGenerations {
    fn default() -> (r: Self)
        ensures
            r@ == 0,
    {
        CaptureGenerations { latest: 0 }
    }
}

/// Advances the generation number for a new capture and returns the new number.
pub fn next_capture_generation(gens: &mut CaptureGenerations) -> (g: u64)
    ensures
        final(gens)@ == next_number(old(gens)@),
        g == final(gens)@,
{
    gens.latest = if gens.latest == u64::MAX {
        0
    } else {
        gens.latest + 1
    };
    gens.latest
}

/// Whether `generation` is that of the latest capture.
pub fn is_latest_capture(gens: &CaptureGenerations, generation: u64) -> (r: bool)
    ensures
        r == (gens@ == generation),
{
    gens.latest == generation
}

/// A capture is the latest until the next one starts: once another capture has taken
/// the next generation, the earlier generation is no longer the latest.
pub proof fn law_overtaken_capture_is_not_latest(n: u64)
    ensures
        next_number(next_number(n)) != next_number(n),
{
}

/// A copy to carry out after a capture.
#[derive(Clone, Copy, Debug, PartialEq, Eq, Structural)]
pub struct CopyJob {
    /// The capture's generation number.
    pub generation: u64,
    /// Whether the image itself is copied (otherwise its path).
    pub with_image: bool,
}

/// Starts the copy for a new capture. The generation number advances even when nothing
/// is copied, so that an earlier capture's copy that finishes late is still dropped.
pub fn start_copy(gens: &mut CaptureGenerations, mode: AutoCopyMode) -> (job: Option<CopyJob>)
    ensures
        final(gens)@ == next_number(old(gens)@),
        mode == AutoCopyMode::Off ==> job is None,
        mode != AutoCopyMode::Off ==> job == Some(
            CopyJob { generation: final(gens)@, with_image: mode == AutoCopyMode::Image },
        ),
{
    let generation = next_capture_generation(gens);
    match mode {
        AutoCopyMode::Off => None,
        AutoCopyMode::Path => Some(CopyJob { generation, with_image: false }),
        AutoCopyMode::Image => Some(CopyJob { generation, with_image: true }),
    }
}

/// Whether a copy is still to be written: only the latest capture's is.
pub fn copy_is_current(gens: &CaptureGenerations, job: &CopyJob) -> (r: bool)
    ensures
        r == (gens@ == job.generation),
{
    is_latest_capture(gens, job.generation)
}

/// The notification after writing the clipboard.
pub open spec fn copy_notice_text(with_image: bool, error: Option<Seq<char>>) -> Seq<char> {
    match (with_image, error) {
        (true, None) => "Copied the image to the clipboard"@,
        (true, Some(e)) => "Failed to copy the image: "@ + e,
        (false, None) => "Copied the image path to the clipboard"@,
        (false, Some(e)) => "Failed to copy the image path: "@ + e,
    }
}

/// The notification after writing the clipboard, given the write's outcome.
pub fn copy_notice(job: &CopyJob, written: &Result<(), String>) -> (r: String)
    ensures
        r@ == copy_notice_text(
            job.with_image,
            match written {
                Ok(_) => None,
                Err(e) => Some(e@),
            },
        ),
{
    match written {
        Ok(_) => {
            if job.with_image {
                crate::text::owned("Copied the image to the clipboard")
            } else {
                crate::text::owned("Copied the image path to the clipboard")
            }
        },
        Err(e) => {
            if job.with_image {
                concat2("Failed to copy the image: ", e.as_str())
            } else {
                concat2("Failed to copy the image path: ", e.as_str())
            }
        },
    }
}

} // verus!
