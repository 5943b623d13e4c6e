//! What to do when FlashCap is launched, launched again, or handed URLs and files,
//! given the state of the front-end handshake.
use vstd::prelude::*;
use crate::args::{
    existing_images, is_capture_url, is_capture_url_text, is_image_path, is_supported_image_path,
    startup_images, collect_image_args, image_args_for_startup,
};
use crate::handshake::{
    after_mark_ready, after_request_capture, after_request_open_files, after_request_reactivate,
    after_set_capture_pending, held_work, CaptureKind, FrontendHandshake, HandshakeState,
};
use crate::text::str_eq;

verus! {

/// What the application is to do in response to a launch, a URL or a file.
#[derive(Debug)]
pub enum LaunchAction {
    /// Run a headless OCR (capture a region, recognise text, copy it).
    HeadlessOcr,
    /// Emit `do-capture` with this kind now (the front end is ready).
    EmitCapture(CaptureKind),
    /// Show the main window and emit `reactivate` (highlight the capture button).
    ShowAndReactivate,
    /// Show the main window and emit `open-file` with these paths.
    ShowAndOpen(Vec<String>),
    /// Show the main window only (the images were held for the front end).
    ShowOnly,
    /// Do nothing now (the work was held, or a capture is in progress).
    Nothing,
}

/// Whether `a` is among the arguments.
pub open spec fn has_arg(args: Seq<Seq<char>>, a: Seq<char>) -> bool {
    exists|i: int| 0 <= i < args.len() && args[i] == a
}

/// Whether one of the arguments is the URL `flashcap://capture`.
pub open spec fn has_capture_url(args: Seq<Seq<char>>) -> bool {
    exists|i: int| 0 <= i < args.len() && is_capture_url_text(args[i])
}

/// The arguments after the first (the program itself).
pub open spec fn after_program<T>(s: Seq<T>) -> Seq<T> {
    if s.len() == 0 {
        s
    } else {
        s.skip(1)
    }
}

/// Whether `a` is among the arguments.
pub fn contains_arg(args: &Vec<String>, a: &str) -> (r: bool)
    ensures
        r == has_arg(args.deep_view(), a@),
{
    let mut i: usize = 0;
    while i < args.len()
        invariant
            i <= args.len(),
            forall|j: int| 0 <= j < i ==> args.deep_view()[j] != a@,
        decreases args.len() - i,
    {
        if str_eq(args[i].as_str(), a) {
            assert(args.deep_view()[i as int] == a@);
            return true;
        }
        i = i + 1;
    }
    false
}

/// Whether one of the arguments is the URL `flashcap://capture`.
pub fn contains_capture_url(args: &Vec<String>) -> (r: bool)
    ensures
        r == has_capture_url(args.deep_view()),
{
    let mut i: usize = 0;
    while i < args.len()
        invariant
            i <= args.len(),
            forall|j: int| 0 <= j < i ==> !is_capture_url_text(args.deep_view()[j]),
        decreases args.len() - i,
    {
        if is_capture_url(args[i].as_str()) {
            assert(is_capture_url_text(args.deep_view()[i as int]));
            return true;
        }
        i = i + 1;
    }
    false
}

/// The arguments after the first.
fn tail_of<T: Clone>(v: &Vec<T>) -> (r: Vec<T>)
    ensures
        r@.len() == after_program(v@).len(),
        forall|i: int| 0 <= i < r@.len() ==> cloned::<T>(after_program(v@)[i], #[trigger] r@[i]),
{
    let mut r: Vec<T> = Vec::new();
    let mut i: usize = 1;
    if v.len() == 0 {
        return r;
    }
    while i < v.len()
        invariant
            1 <= i <= v.len(),
            r@.len() == i - 1,
            forall|j: int| 0 <= j < r@.len() ==> cloned::<T>(v@[j + 1], #[trigger] r@[j]),
        decreases v.len() - i,
    {
        r.push(v[i].clone());
        i = i + 1;
    }
    r
}

fn strings_after_program(v: &Vec<String>) -> (r: Vec<String>)
    ensures
        r.deep_view() == after_program(v.deep_view()),
{
    let r = tail_of(v);
    assert(r.deep_view() =~= after_program(v.deep_view()));
    r
}

fn flags_after_program(v: &Vec<bool>) -> (r: Vec<bool>)
    ensures
        r@ == after_program(v@),
{
    let r = tail_of(v);
    assert(r@ =~= after_program(v@));
    r
}

/// The state after asking for `files` to be opened: nothing changes when there are none.
pub open spec fn after_open_request(s: HandshakeState, files: Seq<Seq<char>>) -> HandshakeState {
    if files.len() == 0 {
        s
    } else {
        after_request_open_files(s, files)
    }
}

/// Asks for images to be opened. Nothing happens for an empty list. When the front end
/// is ready the paths come back to be emitted with `open-file` (after showing the main
/// window); otherwise they are held and `None` comes back: a window that the web view
/// has not drawn yet would only show white.
pub fn request_open_files(hs: &mut FrontendHandshake, files: Vec<String>) -> (now: Option<
    Vec<String>,
>)
    ensures
        final(hs)@ == after_open_request(old(hs)@, files.deep_view()),
        files.len() > 0 && old(hs)@.ready ==> now == Some(files),
        files.len() == 0 || !old(hs)@.ready ==> now is None,
{
    if files.len() == 0 {
        return None;
    }
    hs.request_open_files(files)
}

/// The state after a cold start with arguments `argv`.
pub open spec fn after_cold_start(
    s: HandshakeState,
    argv: Seq<Seq<char>>,
    exists: Seq<bool>,
) -> HandshakeState {
    let s1 = if has_arg(argv, "--capture"@) {
        after_set_capture_pending(s)
    } else {
        s
    };
    let s2 = if has_capture_url(argv) {
        after_request_reactivate(s1)
    } else {
        s1
    };
    after_open_request(s2, startup_images(after_program(argv), after_program(exists)))
}

/// A cold start: `--capture` reserves a capture, `flashcap://capture` reserves a
/// highlight of the capture button, and images named on the command line are asked to
/// be opened (none when a capture is asked for). `exists[i]` says whether `argv[i]`
/// exists on disk. What comes back is to be shown and emitted at once.
pub fn prepare_cold_start(hs: &mut FrontendHandshake, argv: &Vec<String>, exists: &Vec<bool>) -> (now:
    Option<Vec<String>>)
    requires
        argv.len() == exists.len(),
    ensures
        final(hs)@ == after_cold_start(old(hs)@, argv.deep_view(), exists@),
        !has_arg(argv.deep_view(), "--capture"@) ==> final(hs)@.capture == old(hs)@.capture,
        now is Some <==> old(hs)@.ready && startup_images(
            after_program(argv.deep_view()),
            after_program(exists@),
        ).len() > 0,
        match now {
            Some(f) => f.deep_view() == startup_images(
                after_program(argv.deep_view()),
                after_program(exists@),
            ),
            None => true,
        },
{
    if contains_arg(argv, "--capture") {
        hs.set_capture_pending();
    }
    if contains_capture_url(argv) {
        hs.request_reactivate();
    }
    let rest = strings_after_program(argv);
    let rest_exists = flags_after_program(exists);
    let files = image_args_for_startup(rest, rest_exists);
    let ghost f = files.deep_view();
    let now = request_open_files(hs, files);
    proof {
        if now is Some {
            assert(now.unwrap().deep_view() == f);
        }
    }
    now
}

/// What to do once the front end reports `frontend-ready`.
#[derive(Debug)]
pub struct ReadyEffects {
    /// Images to emit with `open-file` (none when empty).
    pub open_files: Vec<String>,
    /// A capture to emit with `do-capture`. The window stays hidden: the capture shows it.
    pub capture: Option<CaptureKind>,
    /// Whether to show and focus the main window.
    pub show_main: bool,
    /// Whether to emit `reactivate` after showing the window.
    pub reactivate: bool,
}

/// Handles `frontend-ready`: takes out the held work. Images are opened; a held capture
/// is started without showing the window; otherwise the window is shown (unless a
/// headless OCR is running, which the window would appear in) and a held highlight
/// request is delivered.
pub fn on_frontend_ready(hs: &mut FrontendHandshake, headless_ocr: bool) -> (e: ReadyEffects)
    ensures
        final(hs)@ == after_mark_ready(old(hs)@),
        e.open_files.deep_view() == held_work(old(hs)@).files,
        e.capture == held_work(old(hs)@).capture,
        e.show_main == (held_work(old(hs)@).capture is None && !headless_ocr),
        e.reactivate == (e.show_main && held_work(old(hs)@).reactivate),
{
    let work = hs.mark_ready();
    let show_main = work.capture.is_none() && !headless_ocr;
    ReadyEffects {
        open_files: work.files,
        capture: work.capture,
        show_main,
        reactivate: show_main && work.reactivate,
    }
}

/// Whether the start-up fail-safe shows the main window when `frontend-ready` has not
/// arrived in time: not while a capture or images are held (the window would flash or
/// show white), and not during a headless OCR (it would be captured).
pub fn shows_window_after_startup_timeout(hs: &FrontendHandshake, headless_ocr: bool) -> (r: bool)
    ensures
        r == (!hs@.ready && hs@.capture is None && hs@.files.len() == 0 && !headless_ocr),
{
    !hs.is_ready() && !hs.is_capture_pending() && !hs.is_open_pending() && !headless_ocr
}

/// Handles a second launch, forwarded with its arguments `argv` (`exists[i]` says
/// whether `argv[i]` exists on disk). In order: `--capture-screen-text` runs a headless
/// OCR; `--capture` asks for a capture; `flashcap://capture` only highlights the capture
/// button (a web page can open that URL, so it must not take a picture), and nothing at
/// all while a capture is in progress; otherwise the window is shown and the images
/// named after the program are opened, or the capture button is highlighted.
pub fn on_second_instance(
    hs: &mut FrontendHandshake,
    argv: &Vec<String>,
    exists: &Vec<bool>,
    capture_in_progress: bool,
) -> (r: LaunchAction)
    requires
        argv.len() == exists.len(),
    ensures
        ({
            let s = old(hs)@;
            let a = argv.deep_view();
            let ocr = has_arg(a, "--capture-screen-text"@);
            let cap = has_arg(a, "--capture"@);
            let url = has_capture_url(a);
            let files = existing_images(after_program(a), after_program(exists@));
            &&& !cap ==> !(r is EmitCapture) && final(hs)@.capture == s.capture
            &&& ocr ==> r is HeadlessOcr && final(hs)@ == s
            &&& !ocr && cap ==> final(hs)@ == after_request_capture(s, CaptureKind::Interactive)
                && r == (if s.ready {
                LaunchAction::EmitCapture(CaptureKind::Interactive)
            } else {
                LaunchAction::Nothing
            })
            &&& !ocr && !cap && url && capture_in_progress ==> r is Nothing && final(hs)@ == s
            &&& !ocr && !cap && url && !capture_in_progress ==> final(hs)@
                == after_request_reactivate(s) && r == (if s.ready {
                LaunchAction::ShowAndReactivate
            } else {
                LaunchAction::Nothing
            })
            &&& !ocr && !cap && !url && files.len() == 0 ==> r is ShowAndReactivate
                && final(hs)@ == s
            &&& !ocr && !cap && !url && files.len() > 0 ==> final(hs)@
                == after_request_open_files(s, files) && (if s.ready {
                r matches LaunchAction::ShowAndOpen(f) && f.deep_view() == files
            } else {
                r is ShowOnly
            })
        }),
{
    if contains_arg(argv, "--capture-screen-text") {
        return LaunchAction::HeadlessOcr;
    }
    if contains_arg(argv, "--capture") {
        if hs.request_capture(CaptureKind::Interactive) {
            return LaunchAction::EmitCapture(CaptureKind::Interactive);
        }
        return LaunchAction::Nothing;
    }
    if contains_capture_url(argv) {
        if capture_in_progress {
            return LaunchAction::Nothing;
        }
        if hs.request_reactivate() {
            return LaunchAction::ShowAndReactivate;
        }
        return LaunchAction::Nothing;
    }
    let rest = strings_after_program(argv);
    let rest_exists = flags_after_program(exists);
    let files = collect_image_args(rest, rest_exists);
    if files.len() == 0 {
        return LaunchAction::ShowAndReactivate;
    }
    match hs.request_open_files(files) {
        Some(f) => LaunchAction::ShowAndOpen(f),
        None => LaunchAction::ShowOnly,
    }
}


/// A URL that the system handed over (macOS `RunEvent::Opened`), as plain strings.
pub struct OpenedUrl {
    pub scheme: String,
    pub host: Option<String>,
    /// The local path, for a `file:` URL that names one.
    pub file_path: Option<String>,
}

/// The abstract content of an `OpenedUrl`.
pub struct OpenedUrlState {
    pub scheme: Seq<char>,
    pub host: Option<Seq<char>>,
    pub file_path: Option<Seq<char>>,
}

impl OpenedUrl {
    pub open spec fn state(&self) -> OpenedUrlState {
        OpenedUrlState {
            scheme: self.scheme@,
            host: self.host.deep_view(),
            file_path: self.file_path.deep_view(),
        }
    }
}

/// The abstract content of a list of URLs.
pub open spec fn url_states(urls: Seq<OpenedUrl>) -> Seq<OpenedUrlState> {
    urls.map_values(|u: OpenedUrl| u.state())
}

/// A command that a `flashcap://` URL carries.
pub enum UrlCommand {
    Ocr,
    Capture,
}

/// The command of a single URL: `flashcap://ocr` or `flashcap://capture`.
pub open spec fn url_command(u: OpenedUrlState) -> Option<UrlCommand> {
    if u.scheme == "flashcap"@ && u.host == Some("ocr"@) {
        Some(UrlCommand::Ocr)
    } else if u.scheme == "flashcap"@ && u.host == Some("capture"@) {
        Some(UrlCommand::Capture)
    } else {
        None
    }
}

/// The command of the first URL that carries one.
pub open spec fn first_command(urls: Seq<OpenedUrlState>) -> Option<UrlCommand>
    decreases urls.len(),
{
    if urls.len() == 0 {
        None
    } else if url_command(urls[0]) is Some {
        url_command(urls[0])
    } else {
        first_command(urls.drop_first())
    }
}

/// The images among the URLs: `file:` URLs with a local path that has an image
/// extension, in order.
pub open spec fn opened_images(urls: Seq<OpenedUrlState>) -> Seq<Seq<char>>
    decreases urls.len(),
{
    if urls.len() == 0 {
        seq![]
    } else {
        let rest = opened_images(urls.drop_last());
        let u = urls.last();
        if u.scheme == "file"@ && u.file_path is Some && is_image_path(u.file_path->0) {
            rest.push(u.file_path->0)
        } else {
            rest
        }
    }
}

fn command_of(u: &OpenedUrl) -> (r: Option<UrlCommand>)
    ensures
        r == url_command(u.state()),
{
    if !str_eq(u.scheme.as_str(), "flashcap") {
        return None;
    }
    match &u.host {
        Some(h) => {
            if str_eq(h.as_str(), "ocr") {
                Some(UrlCommand::Ocr)
            } else if str_eq(h.as_str(), "capture") {
                Some(UrlCommand::Capture)
            } else {
                None
            }
        },
        None => None,
    }
}

/// Handles URLs handed over by the system: the first `flashcap://ocr` or
/// `flashcap://capture` decides alone (headless OCR, or a capture request); otherwise
/// the images among `file:` URLs are asked to be opened.
pub fn on_opened_urls(hs: &mut FrontendHandshake, urls: &Vec<OpenedUrl>) -> (r: LaunchAction)
    ensures
        ({
            let s = old(hs)@;
            let u = url_states(urls@);
            let files = opened_images(u);
            &&& first_command(u) == Some(UrlCommand::Ocr) ==> r is HeadlessOcr && final(hs)@ == s
            &&& first_command(u) == Some(UrlCommand::Capture) ==> final(hs)@
                == after_request_capture(s, CaptureKind::Interactive) && r == (if s.ready {
                LaunchAction::EmitCapture(CaptureKind::Interactive)
            } else {
                LaunchAction::Nothing
            })
            &&& first_command(u) is None ==> final(hs)@ == after_open_request(s, files) && (if s.ready
                && files.len() > 0 {
                r matches LaunchAction::ShowAndOpen(f) && f.deep_view() == files
            } else {
                r is Nothing
            })
        }),
{
    let ghost u = url_states(urls@);
    assert(u.skip(0) =~= u);
    let mut i: usize = 0;
    while i < urls.len()
        invariant
            i <= urls.len(),
            u == url_states(urls@),
            hs@ == old(hs)@,
            first_command(u) == first_command(u.skip(i as int)),
        decreases urls.len() - i,
    {
        assert(u.skip(i as int)[0] == urls@[i as int].state());
        assert(u.skip(i as int).drop_first() =~= u.skip(i + 1));
        assert(first_command(u.skip(i as int)) == (if url_command(u.skip(i as int)[0]) is Some {
            url_command(u.skip(i as int)[0])
        } else {
            first_command(u.skip(i + 1))
        }));
        match command_of(&urls[i]) {
            Some(UrlCommand::Ocr) => {
                return LaunchAction::HeadlessOcr;
            },
            Some(UrlCommand::Capture) => {
                if hs.request_capture(CaptureKind::Interactive) {
                    return LaunchAction::EmitCapture(CaptureKind::Interactive);
                }
                return LaunchAction::Nothing;
            },
            None => {},
        }
        i = i + 1;
    }
    assert(u.skip(urls.len() as int) =~= seq![]);
    assert(first_command(u.skip(urls.len() as int)) is None);
    assert(u.take(0) =~= seq![]);
    let mut files: Vec<String> = Vec::new();
    let mut j: usize = 0;
    while j < urls.len()
        invariant
            j <= urls.len(),
            u == url_states(urls@),
            hs@ == old(hs)@,
            first_command(u) is None,
            files.deep_view() == opened_images(u.take(j as int)),
        decreases urls.len() - j,
    {
        let ghost before = files.deep_view();
        assert(u.take(j + 1).drop_last() =~= u.take(j as int));
        assert(u.take(j + 1).last() == urls@[j as int].state());
        if str_eq(urls[j].scheme.as_str(), "file") {
            match &urls[j].file_path {
                Some(p) => {
                    if is_supported_image_path(p.as_str()) {
                        files.push(p.clone());
                        assert(files.deep_view() =~= before.push(p@));
                    }
                },
                None => {},
            }
        }
        j = j + 1;
    }
    assert(u.take(urls.len() as int) =~= u);
    match request_open_files(hs, files) {
        Some(f) => LaunchAction::ShowAndOpen(f),
        None => LaunchAction::Nothing,
    }
}

} // verus!
