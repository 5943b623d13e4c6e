//! Text recognition around the system's Vision framework: the arguments of the
//! recogniser, what follows a headless recognition, and the notification script.
use vstd::prelude::*;
use crate::text::{
    chars_of, concat2, decimal, owned, push_decimal, push_str, str_eq, string_of,
    trim_chars, trimmed,
};

verus! {

/// What the error of a capture that the user cancelled says.
pub open spec fn cancelled_message() -> Seq<char> {
    "Screenshot was cancelled"@
}

/// The text to show for `c`, written inside an AppleScript string literal: a backslash
/// and a double quote get a backslash before them.
pub open spec fn escaped_char(c: char) -> Seq<char> {
    if c == '\\' {
        seq!['\\', '\\']
    } else if c == '"' {
        seq!['\\', '"']
    } else {
        seq![c]
    }
}

/// `s` written inside an AppleScript string literal
/// (`.replace('\\', "\\\\").replace('"', "\\\"")`).
pub open spec fn escaped(s: Seq<char>) -> Seq<char>
    decreases s.len(),
{
    if s.len() == 0 {
        seq![]
    } else {
        escaped_char(s[0]) + escaped(s.drop_first())
    }
}

/// How AppleScript reads the inside of a string literal back: a backslash stands for
/// the character after it.
pub open spec fn unescaped(t: Seq<char>) -> Seq<char>
    decreases t.len(),
{
    if t.len() == 0 {
        seq![]
    } else if t[0] == '\\' && t.len() >= 2 {
        seq![t[1]] + unescaped(t.skip(2))
    } else {
        seq![t[0]] + unescaped(t.skip(1))
    }
}

/// The AppleScript that shows a notification with `body` under `title`.
pub open spec fn notification_script_text(title: Seq<char>, body: Seq<char>) -> Seq<char> {
    "display notification \""@ + escaped(body) + "\" with title \""@ + escaped(title) + "\""@
}

fn push_escaped(v: &mut Vec<char>, s: &str)
    ensures
        final(v)@ == old(v)@ + escaped(s@),
{
    let c = chars_of(s);
    assert(c@.skip(0) =~= c@);
    let mut i: usize = 0;
    while i < c.len()
        invariant
            i <= c.len(),
            c@ == s@,
            v@ + escaped(c@.skip(i as int)) == old(v)@ + escaped(s@),
        decreases c.len() - i,
    {
        let ghost rest = c@.skip(i as int);
        assert(rest.drop_first() =~= c@.skip(i + 1));
        assert(rest[0] == c@[i as int]);
        let ch = c[i];
        if ch == '\\' {
            v.push('\\');
            v.push('\\');
        } else if ch == '"' {
            v.push('\\');
            v.push('"');
        } else {
            v.push(ch);
        }
        proof {
            assert(escaped(rest) == escaped_char(ch) + escaped(c@.skip(i + 1)));
            assert(v@ + escaped(c@.skip(i + 1)) =~= old(v)@ + escaped(s@));
        }
        i = i + 1;
    }
    assert(c@.skip(c.len() as int) =~= seq![]);
    assert(v@ =~= v@ + escaped(c@.skip(c.len() as int)));
}

/// The AppleScript that `osascript -e` runs to show a notification.
pub fn notification_script(title: &str, body: &str) -> (r: String)
    ensures
        r@ == notification_script_text(title@, body@),
{
    let mut v = chars_of("display notification \"");
    push_escaped(&mut v, body);
    push_str(&mut v, "\" with title \"");
    push_escaped(&mut v, title);
    push_str(&mut v, "\"");
    assert(v@ =~= notification_script_text(title@, body@));
    string_of(&v)
}

/// AppleScript reads back exactly the text that was escaped: a notification shows the
/// given title and body, whatever quotes or backslashes they hold.
pub proof fn law_escaping_round_trip(s: Seq<char>)
    ensures
        unescaped(escaped(s)) == s,
    decreases s.len(),
{
    if s.len() > 0 {
        let rest = s.drop_first();
        law_escaping_round_trip(rest);
        let e = escaped(s);
        let c = s[0];
        if c == '\\' || c == '"' {
            assert(e[0] == '\\' && e[1] == c);
            assert(e.skip(2) =~= escaped(rest));
        } else {
            assert(e[0] == c);
            assert(e.skip(1) =~= escaped(rest));
        }
        assert(unescaped(e) =~= s);
    }
}

/// The arguments of the recogniser (`swift <script> --size W,H [--region X,Y,W,H]`); the
/// region is already written out.
pub open spec fn recognizer_args_text(
    script: Seq<char>,
    width: u32,
    height: u32,
    region: Option<Seq<char>>,
) -> Seq<Seq<char>> {
    let base = seq![script, "--size"@, decimal(width as nat) + ","@ + decimal(height as nat)];
    match region {
        Some(r) => base + seq!["--region"@, r],
        None => base,
    }
}

/// The arguments of the recogniser.
pub fn recognizer_args(script: &str, width: u32, height: u32, region: Option<&str>) -> (r: Vec<
    String,
>)
    ensures
        r.deep_view() == recognizer_args_text(
            script@,
            width,
            height,
            match region {
                Some(x) => Some(x@),
                None => None,
            },
        ),
{
    let mut size = Vec::new();
    push_decimal(&mut size, width as u128);
    push_str(&mut size, ",");
    push_decimal(&mut size, height as u128);
    let mut r = vec![owned(script), owned("--size"), string_of(&size)];
    match region {
        Some(x) => {
            r.push(owned("--region"));
            r.push(owned(x));
        },
        None => {},
    }
    assert(r.deep_view() =~= recognizer_args_text(
        script@,
        width,
        height,
        match region {
            Some(x) => Some(x@),
            None => None,
        },
    ));
    r
}

/// The recognised text: the recogniser's output, trimmed.
pub fn recognized_text(output: &str) -> (r: String)
    ensures
        r@ == trimmed(output@),
{
    let v = chars_of(output);
    let t = trim_chars(&v);
    string_of(&t)
}

/// What follows a headless text capture.
#[derive(Debug)]
pub enum OcrFollowUp {
    /// Copy this text (of `chars` characters) to the clipboard.
    CopyText { text: String, chars: usize },
    /// Show this notification.
    Notify(String),
    /// Nothing (the user cancelled the capture).
    Silent,
}

/// Decides what follows a headless text capture: recognised text is copied; no text, or
/// a failure other than a cancelled capture, is reported; a cancelled capture is not.
pub fn after_headless_ocr(result: Result<String, String>) -> (r: OcrFollowUp)
    ensures
        match result {
            Ok(t) => if t@.len() > 0 {
                r matches OcrFollowUp::CopyText { text, chars } && text@ == t@ && chars == t@.len()
            } else {
                r matches OcrFollowUp::Notify(m) && m@ == "No text recognized"@
            },
            Err(e) => if e@ == cancelled_message() {
                r is Silent
            } else {
                r matches OcrFollowUp::Notify(m) && m@ == "OCR failed: "@ + e@
            },
        },
{
    match result {
        Ok(text) => {
            let v = chars_of(text.as_str());
            if v.len() > 0 {
                OcrFollowUp::CopyText { text, chars: v.len() }
            } else {
                OcrFollowUp::Notify(owned("No text recognized"))
            }
        },
        Err(e) => {
            if str_eq(e.as_str(), "Screenshot was cancelled") {
                OcrFollowUp::Silent
            } else {
                OcrFollowUp::Notify(concat2("OCR failed: ", e.as_str()))
            }
        },
    }
}

/// The notification after copying recognised text.
pub fn copy_text_notice(chars: usize, copied: &Result<(), String>) -> (r: String)
    ensures
        match copied {
            Ok(_) => r@ == "Copied "@ + decimal(chars as nat) + " characters"@,
            Err(e) => r@ == "Failed to copy: "@ + e@,
        },
{
    match copied {
        Ok(_) => {
            let mut v = chars_of("Copied ");
            push_decimal(&mut v, chars as u128);
            push_str(&mut v, " characters");
            string_of(&v)
        },
        Err(e) => concat2("Failed to copy: ", e.as_str()),
    }
}

} // verus!
