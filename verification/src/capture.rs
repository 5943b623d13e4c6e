//! Captures and where they are kept: the count of captures in progress, the settings
//! that steer a capture, the save directory, and the checks that keep the working
//! directory private to the current account.
use vstd::prelude::*;
use crate::paths::{join_path, joined_path, paths_equal, same_path};
use crate::text::{
    chars_of, chars_start_with, concat2, concat3, decimal, has_prefix, owned, push_decimal,
    push_str, str_eq, string_of, sub_chars,
};

verus! {

/// The number after `n`, wrapping to 0 after the largest `usize`.
pub open spec fn count_up(n: usize) -> usize {
    if n == usize::MAX {
        0
    } else {
        (n + 1) as usize
    }
}

/// The number before `n`, wrapping to the largest `usize` below 0.
pub open spec fn count_down(n: usize) -> usize {
    if n == 0 {
        usize::MAX
    } else {
        (n - 1) as usize
    }
}

/// The number of captures in progress (interactive selections, and recognitions).
/// While it is above zero, the menu bar starts nothing and shows no window.
pub struct CaptureInProgress {
    count: usize,
}

impl View for CaptureInProgress {
    type V = usize;

    closed spec fn view(&self) -> usize {
        self.count
    }
}

impl Default for CaptureInProgress {
    fn default() -> (r: Self)
        ensures
            r@ == 0,
    {
        CaptureInProgress { count: 0 }
    }
}

impl CaptureInProgress {
    /// Counts a capture that starts.
    pub fn start(&mut self)
        ensures
            final(self)@ == count_up(old(self)@),
    {
        self.count = if self.count == usize::MAX {
            0
        } else {
            self.count + 1
        };
    }

    /// Counts a capture that ends (however it ends).
    pub fn finish(&mut self)
        ensures
            final(self)@ == count_down(old(self)@),
    {
        self.count = if self.count == 0 {
            usize::MAX
        } else {
            self.count - 1
        };
    }
}

/// Whether a capture is in progress.
pub fn is_capture_in_progress(captures: &CaptureInProgress) -> (r: bool)
    ensures
        r == (captures@ > 0),
{
    captures.count > 0
}

/// A capture that starts and ends leaves the count as it was; while it runs, a capture
/// is in progress (short of `usize::MAX` captures at once).
pub proof fn law_capture_start_and_finish_balance(n: usize)
    ensures
        count_down(count_up(n)) == n,
        n < usize::MAX ==> count_up(n) > 0,
{
}

/// The timer delay from the settings (`timer_delay`): the stored number cut to `u32`
/// (as `as u32` cuts it), 5 seconds when there is none.
pub fn timer_delay_setting(value: Option<u64>) -> (r: u32)
    ensures
        r == (match value {
            Some(v) => v as u32,
            None => 5u32,
        }),
{
    match value {
        Some(v) => v as u32,
        None => 5,
    }
}

/// Whether window captures leave out the drop shadow (`exclude_shadow`, on by default).
pub fn exclude_shadow_setting(value: Option<bool>) -> (r: bool)
    ensures
        r == (match value {
            Some(b) => b,
            None => true,
        }),
{
    match value {
        Some(b) => b,
        None => true,
    }
}

/// Whether FlashCap stays in the menu bar (`show_in_menu_bar`, off by default).
pub fn menu_bar_setting(value: Option<bool>) -> (r: bool)
    ensures
        r == (match value {
            Some(b) => b,
            None => false,
        }),
{
    match value {
        Some(b) => b,
        None => false,
    }
}

/// Where captures are saved.
#[derive(Debug)]
pub enum SaveDirectory {
    /// FlashCap's private working directory (setting `tmp`, and the default).
    Working,
    /// The system's screenshot folder (setting `macos_default`).
    SystemScreenshots,
    /// A folder the user chose (setting `custom:<path>`).
    Custom(String),
}

/// The save directory that a stored setting selects: `tmp` or anything unknown (or
/// nothing) selects the working directory.
pub open spec fn save_directory_of(setting: Option<Seq<char>>) -> (Option<Seq<char>>, bool) {
    match setting {
        Some(s) => if s == "macos_default"@ {
            (None, true)
        } else if has_prefix(s, "custom:"@) {
            (Some(s.skip(7)), false)
        } else {
            (None, false)
        },
        None => (None, false),
    }
}

/// Reads the `save_directory` setting.
pub fn save_directory_choice(setting: Option<&str>) -> (r: SaveDirectory)
    ensures
        ({
            let s = match setting {
                Some(x) => Some(x@),
                None => None,
            };
            match r {
                SaveDirectory::Working => save_directory_of(s) == (None::<Seq<char>>, false),
                SaveDirectory::SystemScreenshots => save_directory_of(s) == (
                    None::<Seq<char>>,
                    true,
                ),
                SaveDirectory::Custom(p) => save_directory_of(s) == (Some(p@), false),
            }
        }),
{
    proof {
        reveal_strlit("custom:");
    }
    match setting {
        Some(s) => {
            if str_eq(s, "macos_default") {
                return SaveDirectory::SystemScreenshots;
            }
            let v = chars_of(s);
            let p = chars_of("custom:");
            if chars_start_with(&v, &p) {
                let rest = sub_chars(&v, 7, v.len());
                assert(rest@ =~= s@.skip(7));
                SaveDirectory::Custom(string_of(&rest))
            } else {
                SaveDirectory::Working
            }
        },
        None => SaveDirectory::Working,
    }
}

/// FlashCap's working directory: `flashcap` in the system's temporary directory.
pub fn flashcap_temp_dir(temp_dir: &str) -> (r: String)
    ensures
        r@ == joined_path(temp_dir@, "flashcap"@),
{
    join_path(temp_dir, "flashcap")
}

/// The path that the `tmp` setting stands for (shown in Preferences).
pub fn default_save_directory(temp_dir: &str) -> (r: String)
    ensures
        r@ == joined_path(temp_dir@, "flashcap"@),
{
    flashcap_temp_dir(temp_dir)
}

/// Whether a save directory is FlashCap's working directory (compared as paths), which
/// is then made private again.
pub fn is_working_directory(dir: &str, working_dir: &str) -> (r: bool)
    ensures
        r == paths_equal(dir@, working_dir@),
{
    same_path(dir, working_dir)
}

/// The path of a capture taken at `timestamp` in `dir`.
pub fn screenshot_path(dir: &str, timestamp: &str) -> (r: String)
    ensures
        r@ == joined_path(dir@, "flashcap-"@ + timestamp@ + ".png"@),
{
    let name = concat3("flashcap-", timestamp, ".png");
    join_path(dir, name.as_str())
}

/// The path of an image pasted at `timestamp` in `dir`.
pub fn pasted_image_path(dir: &str, timestamp: &str) -> (r: String)
    ensures
        r@ == joined_path(dir@, "flashcap-paste-"@ + timestamp@ + ".png"@),
{
    let name = concat3("flashcap-paste-", timestamp, ".png");
    join_path(dir, name.as_str())
}

/// The arguments of `screencapture` for an interactive capture to `file_path`: `-i`,
/// then `-o` to leave out window shadows, then `-T` and the delay for a timer capture.
pub open spec fn screencapture_args_text(
    exclude_shadow: bool,
    delay: Option<u32>,
    file_path: Seq<char>,
) -> Seq<Seq<char>> {
    let a = seq!["-i"@];
    let b = if exclude_shadow {
        a.push("-o"@)
    } else {
        a
    };
    let c = match delay {
        Some(d) => b + seq!["-T"@, decimal(d as nat)],
        None => b,
    };
    c.push(file_path)
}

/// The arguments of `screencapture` for an interactive capture.
pub fn screencapture_args(exclude_shadow: bool, delay: Option<u32>, file_path: &str) -> (r: Vec<
    String,
>)
    ensures
        r.deep_view() == screencapture_args_text(exclude_shadow, delay, file_path@),
{
    let mut r = vec![owned("-i")];
    if exclude_shadow {
        r.push(owned("-o"));
    }
    match delay {
        Some(d) => {
            r.push(owned("-T"));
            let mut v: Vec<char> = Vec::new();
            push_decimal(&mut v, d as u128);
            assert(v@ =~= decimal(d as nat));
            r.push(string_of(&v));
        },
        None => {},
    }
    r.push(owned(file_path));
    assert(r.deep_view() =~= screencapture_args_text(exclude_shadow, delay, file_path@));
    r
}

/// What an ancestor of the working directory says of its trustworthiness.
#[derive(Debug, PartialEq, Eq, Structural)]
pub enum AncestorVerdict {
    /// Neither group nor others may write it, and root or the current user owns it.
    Trusted,
    /// Group or others may write it, so its entries can be swapped.
    WritableByOthers,
    /// Another account owns it, and that account can swap its entries.
    ForeignOwner,
}

/// The verdict on an ancestor with permission bits `mode` and owner `owner`: the
/// group- and other-write bits are refused (a sticky bit is no excuse: that would let
/// `/tmp` through), and only root and the current user may own it.
pub open spec fn ancestor_verdict_of(mode: u32, owner: u32, self_uid: u32) -> AncestorVerdict {
    if mode & 0o022u32 != 0 {
        AncestorVerdict::WritableByOthers
    } else if owner != 0 && owner != self_uid {
        AncestorVerdict::ForeignOwner
    } else {
        AncestorVerdict::Trusted
    }
}

/// Judges one ancestor of the working directory.
pub fn ancestor_verdict(mode: u32, owner: u32, self_uid: u32) -> (r: AncestorVerdict)
    ensures
        r == ancestor_verdict_of(mode, owner, self_uid),
{
    if mode & 0o022u32 != 0 {
        AncestorVerdict::WritableByOthers
    } else if owner != 0 && owner != self_uid {
        AncestorVerdict::ForeignOwner
    } else {
        AncestorVerdict::Trusted
    }
}

/// An ancestor is trusted only when no other account can write it: the bits `0o022`
/// are clear, and root or the current user owns it.
pub proof fn law_trusted_ancestors_are_closed(mode: u32, owner: u32, self_uid: u32)
    ensures
        ancestor_verdict_of(mode, owner, self_uid) == AncestorVerdict::Trusted <==> (mode
            & 0o022u32 == 0 && (owner == 0 || owner == self_uid)),
{
}

/// The message that refuses a working directory because of an untrusted ancestor.
pub open spec fn distrust_message(
    verdict: AncestorVerdict,
    ancestor: Seq<char>,
    owner: u32,
    dir: Seq<char>,
) -> Seq<char> {
    if verdict == AncestorVerdict::WritableByOthers {
        ancestor + " is writable by other accounts, so "@ + dir
            + " cannot be trusted; refusing to store screen captures there (is TMPDIR set?)"@
    } else {
        ancestor + " is owned by uid "@ + decimal(owner as nat)
            + " (neither root nor the current user), so "@ + dir
            + " cannot be trusted; refusing to store screen captures there (is TMPDIR set?)"@
    }
}

/// The message that refuses a working directory because of an untrusted ancestor.
pub fn distrust(verdict: &AncestorVerdict, ancestor: &str, owner: u32, dir: &str) -> (r: String)
    ensures
        r@ == distrust_message(*verdict, ancestor@, owner, dir@),
{
    let mut v = chars_of(ancestor);
    if *verdict == AncestorVerdict::WritableByOthers {
        push_str(&mut v, " is writable by other accounts, so ");
    } else {
        push_str(&mut v, " is owned by uid ");
        push_decimal(&mut v, owner as u128);
        push_str(&mut v, " (neither root nor the current user), so ");
    }
    push_str(&mut v, dir);
    push_str(
        &mut v,
        " cannot be trusted; refusing to store screen captures there (is TMPDIR set?)",
    );
    assert(v@ =~= distrust_message(*verdict, ancestor@, owner, dir@));
    string_of(&v)
}

/// What to do with an entry of the working directory.
#[derive(Debug, PartialEq, Eq, Structural)]
pub enum PurgeAction {
    /// A regular file or directory of the current user: keep it.
    Keep,
    /// A directory of another account: remove it with its content.
    RemoveDir,
    /// A symbolic link (whatever it points to) or a file of another account: remove it.
    RemoveFile,
}

/// What to do with an entry: keep what the current user owns unless it is a symbolic
/// link; remove a symbolic link itself, never following it.
pub open spec fn purge_action_of(is_symlink: bool, is_dir: bool, owner: u32, self_uid: u32) -> PurgeAction {
    if !is_symlink && owner == self_uid {
        PurgeAction::Keep
    } else if !is_symlink && is_dir {
        PurgeAction::RemoveDir
    } else {
        PurgeAction::RemoveFile
    }
}

/// Decides what to do with an entry of the working directory (its metadata read
/// without following links).
pub fn purge_action(is_symlink: bool, is_dir: bool, owner: u32, self_uid: u32) -> (r: PurgeAction)
    ensures
        r == purge_action_of(is_symlink, is_dir, owner, self_uid),
{
    if !is_symlink && owner == self_uid {
        PurgeAction::Keep
    } else if !is_symlink && is_dir {
        PurgeAction::RemoveDir
    } else {
        PurgeAction::RemoveFile
    }
}

/// A symbolic link is always removed, and removed as a link: never kept, and never
/// removed through (which would delete what it points to).
pub proof fn law_symlinks_are_removed_not_followed(is_dir: bool, owner: u32, self_uid: u32)
    ensures
        purge_action_of(true, is_dir, owner, self_uid) == PurgeAction::RemoveFile,
{
}

/// The message that refuses the working directory when an entry cannot be removed.
pub fn purge_failure(path: &str, error: &str, dir: &str) -> (r: String)
    ensures
        r@ == path@ + " could not be removed ("@ + error@ + "); refusing to use "@ + dir@
            + " for screen captures"@,
{
    let mut v = chars_of(path);
    push_str(&mut v, " could not be removed (");
    push_str(&mut v, error);
    push_str(&mut v, "); refusing to use ");
    push_str(&mut v, dir);
    push_str(&mut v, " for screen captures");
    assert(v@ =~= path@ + " could not be removed ("@ + error@ + "); refusing to use "@ + dir@
        + " for screen captures"@);
    string_of(&v)
}

/// How many names a private working directory may try before giving up.
pub const RESERVE_ATTEMPTS: u32 = 16;

/// The name of a private working directory: prefix, process id and a timestamp in
/// nanoseconds, separated by `-`.
pub fn workdir_name(prefix: &str, pid: u32, nanos: u128) -> (r: String)
    ensures
        r@ == prefix@ + "-"@ + decimal(pid as nat) + "-"@ + decimal(nanos as nat),
{
    let mut v = chars_of(prefix);
    push_str(&mut v, "-");
    push_decimal(&mut v, pid as u128);
    push_str(&mut v, "-");
    push_decimal(&mut v, nanos);
    string_of(&v)
}

/// The outcome of creating a directory that must not exist yet.
#[derive(Debug)]
pub enum MkdirOutcome {
    Created,
    AlreadyExists,
    Failed(String),
}

/// What to do after an attempt to reserve a working directory.
#[derive(Debug)]
pub enum ReserveStep {
    /// The name is ours.
    Done,
    /// The name was taken: try another.
    Retry,
    /// Give up with this message.
    Fail(String),
}

/// Decides what follows the attempt numbered `attempt` (from 0) to create a working
/// directory: a taken name is retried until `RESERVE_ATTEMPTS` attempts are used up; any
/// other failure stops at once.
pub fn after_reserve_attempt(attempt: u32, outcome: MkdirOutcome, prefix: &str) -> (r: ReserveStep)
    ensures
        match outcome {
            MkdirOutcome::Created => r is Done,
            MkdirOutcome::AlreadyExists => if attempt + 1 < RESERVE_ATTEMPTS {
                r is Retry
            } else {
                r matches ReserveStep::Fail(m) && m@ == "Failed to reserve a temp directory for "@
                    + prefix@
            },
            MkdirOutcome::Failed(e) => r matches ReserveStep::Fail(m) && m@
                == "Failed to create the temp directory: "@ + e@,
        },
{
    match outcome {
        MkdirOutcome::Created => ReserveStep::Done,
        MkdirOutcome::AlreadyExists => {
            if attempt < RESERVE_ATTEMPTS - 1 {
                ReserveStep::Retry
            } else {
                ReserveStep::Fail(concat2("Failed to reserve a temp directory for ", prefix))
            }
        },
        MkdirOutcome::Failed(e) => ReserveStep::Fail(
            concat2("Failed to create the temp directory: ", e.as_str()),
        ),
    }
}

/// What the purge does with each entry of the working directory: an entry that is not a
/// symbolic link and is owned by the current user is kept, directory or not; a symbolic
/// link is removed as a file, whoever owns it and whatever it points to; any other
/// entry of another account is removed, a directory with its content.
pub proof fn law_purge_keeps_exactly_own_real_entries(is_symlink: bool, is_dir: bool, owner: u32, self_uid: u32)
    ensures
        !is_symlink && owner == self_uid ==> purge_action_of(is_symlink, is_dir, owner, self_uid)
            == PurgeAction::Keep,
        purge_action_of(is_symlink, is_dir, owner, self_uid) == PurgeAction::Keep ==> !is_symlink
            && owner == self_uid,
        is_symlink ==> purge_action_of(is_symlink, is_dir, owner, self_uid) == PurgeAction::RemoveFile,
        !is_symlink && owner != self_uid ==> purge_action_of(is_symlink, is_dir, owner, self_uid)
            == (if is_dir { PurgeAction::RemoveDir } else { PurgeAction::RemoveFile }),
{
}

} // verus!
