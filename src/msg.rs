use vstd::prelude::*;
use vstd::string::StringExecFns;
use crate::outcome::{ErrorKind, OsError, Outcome};

verus! {

/// The fixed reports that the tool can print, each worded in two voices.
#[derive(Debug, Clone, Copy, PartialEq, Eq)]
pub enum Phrase {
    NotARegularFile,
    NonUtf8Content,
    FileContainsCrlf,
    PleaseFix,
}

/// The wording of a phrase in the plain voice (`otaku == false`) or in the
/// stylized one (`otaku == true`).
pub open spec fn phrase_text(p: Phrase, otaku: bool) -> Seq<char> {
    match (p, otaku) {
        (Phrase::NotARegularFile, false) => "Not a regular file"@,
        (Phrase::NonUtf8Content, false) => "Non-UTF-8 content"@,
        (Phrase::FileContainsCrlf, false) => "File contains CRLF line endings"@,
        (Phrase::PleaseFix, false) => "File doesn't end with LF, re-run without -c/--check to fix it"@,
        (Phrase::NotARegularFile, true) => "哼！(￣へ￣) 这破文件一点都不正经！"@,
        (Phrase::NonUtf8Content, true) => "哼！(￣へ￣) 不是UTF-8的坏文件！"@,
        (Phrase::FileContainsCrlf, true) =>
            "啊啦~ (。-`ω´-) 居然敢用 Windows 的换行符，看来这个文件需要好好\"教育\"一下呢！"@,
        (Phrase::PleaseFix, true) =>
            "呜呼~ (。-`ω´-) 又遇到没有 LF 结尾的文件啦？再运行一次就能修好哦，不要用 -c/--check 参数哦！"@,
    }
}

/// Looks up the wording of a phrase in the chosen voice.
pub fn phrase(p: Phrase, otaku: bool) -> (r: &'static str)
    ensures
        r@ == phrase_text(p, otaku),
{
    match (p, otaku) {
        (Phrase::NotARegularFile, false) => "Not a regular file",
        (Phrase::NonUtf8Content, false) => "Non-UTF-8 content",
        (Phrase::FileContainsCrlf, false) => "File contains CRLF line endings",
        (Phrase::PleaseFix, false) => "File doesn't end with LF, re-run without -c/--check to fix it",
        (Phrase::NotARegularFile, true) => "哼！(￣へ￣) 这破文件一点都不正经！",
        (Phrase::NonUtf8Content, true) => "哼！(￣へ￣) 不是UTF-8的坏文件！",
        (Phrase::FileContainsCrlf, true) =>
            "啊啦~ (。-`ω´-) 居然敢用 Windows 的换行符，看来这个文件需要好好\"教育\"一下呢！",
        (Phrase::PleaseFix, true) =>
            "呜呼~ (。-`ω´-) 又遇到没有 LF 结尾的文件啦？再运行一次就能修好哦，不要用 -c/--check 参数哦！",
    }
}

/// The stylized voice's own wording for the error kinds it singles out; the
/// other kinds keep the system's description.
pub open spec fn otaku_io_text(kind: ErrorKind) -> Option<Seq<char>> {
    match kind {
        ErrorKind::NotFound => Some("呜哇~文件酱不见啦！(´;ω;｀) 一定是害羞躲起来啦~"@),
        ErrorKind::PermissionDenied => Some(
            "噗噗~！(￣▽￣*) 权限酱傲娇地说\"不行就是不行\"！你这个没权限的小可爱~"@,
        ),
        ErrorKind::Other => None,
    }
}

/// The text that reports an operating-system error in the chosen voice.
pub open spec fn io_error_text(e: OsError, otaku: bool) -> Seq<char> {
    if otaku && otaku_io_text(e.kind) is Some {
        otaku_io_text(e.kind).unwrap()
    } else {
        e.description@
    }
}

/// The message that reports an outcome, or `None` for the outcomes of a
/// successful run, which print nothing.
pub open spec fn report_text(o: Outcome, otaku: bool) -> Option<Seq<char>> {
    match o {
        Outcome::AlreadyValid | Outcome::Fixed => None,
        Outcome::NeedsFix => Some(phrase_text(Phrase::PleaseFix, otaku)),
        Outcome::NotRegularFile => Some(phrase_text(Phrase::NotARegularFile, otaku)),
        Outcome::NotUtf8 => Some(phrase_text(Phrase::NonUtf8Content, otaku)),
        Outcome::ContainsCrlf => Some(phrase_text(Phrase::FileContainsCrlf, otaku)),
        Outcome::IoError(e) => Some(io_error_text(e, otaku)),
    }
}

/// A human-readable report, worded in one of the two voices.
#[derive(Debug, Clone, PartialEq, Eq)]
pub struct Message {
    msg: String,
}

impl View for Message {
    type V = Seq<char>;

    closed spec fn view(&self) -> Seq<char> {
        self.msg@
    }
}

impl Message {
    fn of_phrase(p: Phrase, otaku: bool) -> (r: Message)
        ensures
            r@ == phrase_text(p, otaku),
    {
        Message { msg: phrase(p, otaku).to_owned() }
    }

    /// Reports an operating-system error: the system's description, except in
    /// the stylized voice for a missing file or a denied permission.
    pub fn io_error(e: OsError, otaku: bool) -> (r: Message)
        ensures
            r@ == io_error_text(e, otaku),
    {
        let special: Option<&'static str> = if otaku {
            match e.kind {
                ErrorKind::NotFound => Some("呜哇~文件酱不见啦！(´;ω;｀) 一定是害羞躲起来啦~"),
                ErrorKind::PermissionDenied => Some(
                    "噗噗~！(￣▽￣*) 权限酱傲娇地说\"不行就是不行\"！你这个没权限的小可爱~",
                ),
                ErrorKind::Other => None,
            }
        } else {
            None
        };
        match special {
            Some(s) => Message { msg: s.to_owned() },
            None => Message { msg: e.description },
        }
    }

    /// Reports a path that names something other than a regular file.
    pub fn not_a_regular_file(otaku: bool) -> (r: Message)
        ensures
            r@ == phrase_text(Phrase::NotARegularFile, otaku),
    {
        Message::of_phrase(Phrase::NotARegularFile, otaku)
    }

    /// Reports content that is not valid UTF-8.
    pub fn non_utf8_content(otaku: bool) -> (r: Message)
        ensures
            r@ == phrase_text(Phrase::NonUtf8Content, otaku),
    {
        Message::of_phrase(Phrase::NonUtf8Content, otaku)
    }

    /// Reports content with CRLF line endings.
    pub fn file_contains_crlf_line_endings(otaku: bool) -> (r: Message)
        ensures
            r@ == phrase_text(Phrase::FileContainsCrlf, otaku),
    {
        Message::of_phrase(Phrase::FileContainsCrlf, otaku)
    }

    /// Reports, in check-only mode, a file that lacks its final line feed.
    pub fn please_fix(otaku: bool) -> (r: Message)
        ensures
            r@ == phrase_text(Phrase::PleaseFix, otaku),
    {
        Message::of_phrase(Phrase::PleaseFix, otaku)
    }

    /// The message as text.
    pub fn text(&self) -> (r: String)
        ensures
            r@ == self@,
    {
        self.msg.clone()
    }

    /// The message that reports an outcome, or `None` when the run succeeded.
    pub fn for_outcome(o: &Outcome, otaku: bool) -> (r: Option<Message>)
        ensures
            r is None <==> o.is_success(),
            r is None <==> report_text(*o, otaku) is None,
            r is Some ==> Some(r.unwrap()@) == report_text(*o, otaku),
    {
        match o {
            Outcome::AlreadyValid | Outcome::Fixed => None,
            Outcome::NeedsFix => Some(Message::please_fix(otaku)),
            Outcome::NotRegularFile => Some(Message::not_a_regular_file(otaku)),
            Outcome::NotUtf8 => Some(Message::non_utf8_content(otaku)),
            Outcome::ContainsCrlf => Some(Message::file_contains_crlf_line_endings(otaku)),
            Outcome::IoError(e) => {
                let copy = OsError { kind: e.kind, description: e.description.clone() };
                Some(Message::io_error(copy, otaku))
            },
        }
    }
}

/// The line written to standard error for a report:
/// `<program>: <path>: <message>`.
pub open spec fn diagnostic_text(program: Seq<char>, path: Seq<char>, m: Seq<char>) -> Seq<char> {
    program + ": "@ + path + ": "@ + m
}

/// Builds the line written to standard error for a report.
pub fn diagnostic(program: &str, path: &str, message: &Message) -> (r: String)
    ensures
        r@ == diagnostic_text(program@, path@, message@),
{
    let mut line = program.to_owned();
    line.append(": ");
    line.append(path);
    line.append(": ");
    line.append(message.msg.as_str());
    line
}

} // verus!
