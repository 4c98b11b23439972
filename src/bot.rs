//! The bot adapter's decisions: the requests a host submits, the
//! background loop's state across requests and long-poll answers, the
//! replies an inbound message yields, and download progress.
//!
//! The background loop races the next request against the next long-poll
//! answer; whichever comes first goes to [`BotLoop`], which says whether to
//! perform or forward it, and whether the loop is over.

use vstd::prelude::*;
use vstd::string::*;
use crate::service::Error;

verus! {

/// What the host asks the background loop to do.
#[derive(Debug)]
pub enum TeleRequest {
    /// chat id, id of the message replied to, text
    SendText(i64, i32, String),
    /// chat id, path of the audio file
    SendAudio(i64, String),
    /// chat id, path of the voice file
    SendVoice(i64, String),
    /// remote file id, directory to write it to
    GetFile(String, String),
    Whoami,
    Logout,
    /// End the background loop.
    Quit,
}

/// One thing that the background loop was handed.
pub enum BotInput {
    /// A request, or `None` once no request can come any more.
    Request(Option<TeleRequest>),
    /// An inbound update with this id.
    Update(u32),
    /// The long poll failed.
    PollError,
}

/// The background loop's state: whether it is over, and the offset of the
/// next long poll (one past the highest update id processed).
#[derive(Clone, Copy, PartialEq, Eq, Structural, Debug)]
pub struct BotLoop {
    pub stopped: bool,
    pub offset: Option<i64>,
}

/// The offset after processing update `id`.
pub open spec fn advanced(offset: Option<i64>, id: u32) -> Option<i64> {
    match offset {
        Some(o) => if o >= id + 1 {
            Some(o)
        } else {
            Some((id + 1) as i64)
        },
        None => Some((id + 1) as i64),
    }
}

/// Whether a request ends the loop: `Quit`, or no request source left.
pub open spec fn ends_loop(req: Option<TeleRequest>) -> bool {
    match req {
        Some(TeleRequest::Quit) => true,
        None => true,
        _ => false,
    }
}

/// The loop's next state after `input`, and whether the input produces
/// work that can reach the host (a request performed, an update
/// forwarded, an error reported). A stopped loop takes nothing.
pub open spec fn bot_step(s: BotLoop, input: BotInput) -> (BotLoop, bool) {
    if s.stopped {
        (s, false)
    } else {
        match input {
            BotInput::Request(req) => if ends_loop(req) {
                (BotLoop { stopped: true, offset: s.offset }, false)
            } else {
                (s, true)
            },
            BotInput::Update(id) => (BotLoop { stopped: false, offset: advanced(s.offset, id) }, true),
            BotInput::PollError => (s, true),
        }
    }
}

/// Whether any input of `inputs`, taken in order from `s`, produces work.
pub open spec fn run_produces(s: BotLoop, inputs: Seq<BotInput>) -> bool
    decreases inputs.len(),
{
    if inputs.len() == 0 {
        false
    } else {
        let (next, produced) = bot_step(s, inputs[0]);
        produced || run_produces(next, inputs.drop_first())
    }
}

/// Once a stopped loop, always a stopped loop that produces nothing.
pub proof fn lemma_stopped_is_final(s: BotLoop, inputs: Seq<BotInput>)
    requires
        s.stopped,
    ensures
        !run_produces(s, inputs),
    decreases inputs.len(),
{
    if inputs.len() > 0 {
        lemma_stopped_is_final(s, inputs.drop_first());
    }
}

/// `Quit` ends the loop at once: the loop stops on it, and no input after
/// it, whatever it is, produces anything for the host.
pub proof fn law_quit_ends_loop(s: BotLoop, later: Seq<BotInput>)
    ensures
        ({
            let (after, produced) = bot_step(s, BotInput::Request(Some(TeleRequest::Quit)));
            &&& after.stopped
            &&& !produced
            &&& !run_produces(after, later)
        }),
{
    let (after, _) = bot_step(s, BotInput::Request(Some(TeleRequest::Quit)));
    lemma_stopped_is_final(after, later);
}

impl BotLoop {
    /// A running loop that has processed no update.
    pub fn new() -> (r: BotLoop)
        ensures
            !r.stopped,
            r.offset is None,
    {
        BotLoop { stopped: false, offset: None }
    }

    /// Takes the next request: hands it back to be performed, or ends the
    /// loop on `Quit` and on a closed request source.
    pub fn on_request(&mut self, req: Option<TeleRequest>) -> (r: Option<TeleRequest>)
        ensures
            (*final(self), r is Some) == bot_step(*old(self), BotInput::Request(req)),
            r is Some ==> r == req,
    {
        if self.stopped {
            return None;
        }
        match req {
            Some(TeleRequest::Quit) => {
                self.stopped = true;
                None
            },
            None => {
                self.stopped = true;
                None
            },
            Some(other) => Some(other),
        }
    }

    /// Takes an inbound update: says whether to forward it, and moves the
    /// next long poll past it.
    pub fn on_update(&mut self, update_id: u32) -> (r: bool)
        ensures
            (*final(self), r) == bot_step(*old(self), BotInput::Update(update_id)),
    {
        if self.stopped {
            return false;
        }
        let next: i64 = update_id as i64 + 1;
        self.offset = match self.offset {
            Some(o) => if o >= next {
                Some(o)
            } else {
                Some(next)
            },
            None => Some(next),
        };
        true
    }

    /// Takes a failed long poll: says whether to report it.
    pub fn on_poll_error(&self) -> (r: bool)
        ensures
            (*self, r) == bot_step(*self, BotInput::PollError),
    {
        !self.stopped
    }

    /// Whether the loop goes on.
    pub fn is_running(&self) -> (r: bool)
        ensures
            r == !self.stopped,
    {
        !self.stopped
    }
}

/// The kinds of reply an inbound message can yield.
#[derive(Clone, Copy, PartialEq, Eq, Structural, Debug)]
pub enum ReplyKind {
    Text,
    Location,
    Sticker,
    Voice,
    Audio,
}

/// Which parts an inbound message carries.
#[derive(Clone, Copy, PartialEq, Eq, Structural, Debug)]
pub struct MessageParts {
    pub text: bool,
    pub location: bool,
    pub sticker: bool,
    pub voice: bool,
    pub audio: bool,
}

/// `k` once if `present`, else nothing.
pub open spec fn part(present: bool, k: ReplyKind) -> Seq<ReplyKind> {
    if present {
        seq![k]
    } else {
        Seq::empty()
    }
}

/// One reply per part the message carries: text, location, sticker, voice,
/// audio, in that order.
pub open spec fn kinds_of(m: MessageParts) -> Seq<ReplyKind> {
    part(m.text, ReplyKind::Text) + part(m.location, ReplyKind::Location) + part(
        m.sticker,
        ReplyKind::Sticker,
    ) + part(m.voice, ReplyKind::Voice) + part(m.audio, ReplyKind::Audio)
}

/// The replies an inbound message yields, in order.
pub fn reply_kinds(m: MessageParts) -> (r: Vec<ReplyKind>)
    ensures
        r@ == kinds_of(m),
{
    let mut r: Vec<ReplyKind> = Vec::new();
    if m.text {
        r.push(ReplyKind::Text);
    }
    if m.location {
        r.push(ReplyKind::Location);
    }
    if m.sticker {
        r.push(ReplyKind::Sticker);
    }
    if m.voice {
        r.push(ReplyKind::Voice);
    }
    if m.audio {
        r.push(ReplyKind::Audio);
    }
    assert(r@ =~= kinds_of(m));
    r
}

/// Percentage complete of `done` bytes out of `total`, capped at 100.
pub open spec fn percent(done: int, total: int) -> int {
    if 100 * done / total > 100 {
        100
    } else {
        100 * done / total
    }
}

/// Percentage complete of a transfer of known, non-zero size.
pub fn progress_percent(done: u64, total: u64) -> (r: u8)
    requires
        total > 0,
    ensures
        r as int == percent(done as int, total as int),
{
    let p: u128 = (100u128 * done as u128) / total as u128;
    if p > 100 {
        100
    } else {
        p as u8
    }
}

/// A download in progress: the size announced for it (0 when unknown) and
/// the bytes written so far.
#[derive(Clone, Copy, PartialEq, Eq, Structural, Debug)]
pub struct Transfer {
    pub total: u64,
    pub done: u64,
}

impl Transfer {
    /// Nothing written yet of a file of `total` bytes (0: unknown).
    pub fn new(total: u64) -> (r: Transfer)
        ensures
            r.total == total,
            r.done == 0,
    {
        Transfer { total, done: 0 }
    }

    /// Counts a written chunk of `len` bytes (saturating) and gives the
    /// progress to report, when the size is known.
    pub fn add_chunk(&mut self, len: u64) -> (r: Option<u8>)
        ensures
            final(self).total == old(self).total,
            final(self).done == (if old(self).done + len > u64::MAX {
                u64::MAX as int
            } else {
                old(self).done + len
            }),
            old(self).total == 0 ==> r is None,
            old(self).total > 0 ==> (r matches Some(p) && p as int == percent(
                final(self).done as int,
                old(self).total as int,
            )),
    {
        self.done = if len > u64::MAX - self.done {
            u64::MAX
        } else {
            self.done + len
        };
        if self.total > 0 {
            Some(progress_percent(self.done, self.total))
        } else {
            None
        }
    }
}

/// What the remote API answered to a call.
pub enum ApiAnswer {
    /// It answered, with this `ok` flag.
    Answered(bool),
    /// The call failed, with the error's text.
    Failed(String),
}

/// The error text that the answer to a request raises, if any. Sending
/// audio or voice also fails on an answer that is not `ok`; fetching a file
/// needs an `ok` answer before it goes on.
pub open spec fn request_error_text(req: TeleRequest, answer: ApiAnswer) -> Option<Seq<char>> {
    match answer {
        ApiAnswer::Failed(e) => match req {
            TeleRequest::SendText(..) => Some("send message error: "@ + e@),
            TeleRequest::SendAudio(..) => Some("send audio error: "@ + e@),
            TeleRequest::SendVoice(..) => Some("send voice error: "@ + e@),
            TeleRequest::GetFile(..) => Some("get file error: "@ + e@),
            TeleRequest::Whoami => Some("whoami error: "@ + e@),
            TeleRequest::Logout => Some("logout error: "@ + e@),
            TeleRequest::Quit => None,
        },
        ApiAnswer::Answered(ok) => if ok {
            None
        } else {
            match req {
                TeleRequest::SendAudio(..) => Some("can't send audio"@),
                TeleRequest::SendVoice(..) => Some("can't send voice"@),
                TeleRequest::GetFile(..) => Some("can't get file"@),
                _ => None,
            }
        },
    }
}

fn joined_text(prefix: &str, detail: &String) -> (r: String)
    ensures
        r@ == prefix@ + detail@,
{
    String::from_str(prefix).concat(detail.as_str())
}

/// The error notice text that the answer to `req` raises, if any.
pub fn request_error(req: &TeleRequest, answer: ApiAnswer) -> (r: Option<String>)
    ensures
        match (r, request_error_text(*req, answer)) {
            (Some(m), Some(t)) => m@ == t,
            (None, None) => true,
            _ => false,
        },
{
    match answer {
        ApiAnswer::Failed(e) => match req {
            TeleRequest::SendText(..) => Some(joined_text("send message error: ", &e)),
            TeleRequest::SendAudio(..) => Some(joined_text("send audio error: ", &e)),
            TeleRequest::SendVoice(..) => Some(joined_text("send voice error: ", &e)),
            TeleRequest::GetFile(..) => Some(joined_text("get file error: ", &e)),
            TeleRequest::Whoami => Some(joined_text("whoami error: ", &e)),
            TeleRequest::Logout => Some(joined_text("logout error: ", &e)),
            TeleRequest::Quit => None,
        },
        ApiAnswer::Answered(ok) => if ok {
            None
        } else {
            match req {
                TeleRequest::SendAudio(..) => Some(String::from_str("can't send audio")),
                TeleRequest::SendVoice(..) => Some(String::from_str("can't send voice")),
                TeleRequest::GetFile(..) => Some(String::from_str("can't get file")),
                _ => None,
            }
        },
    }
}

/// How a file download ended, past the API's answer about the file.
pub enum DownloadEnd {
    /// The file has no remote path.
    NoPath,
    /// The HTTP request failed, with the error's text.
    RequestFailed(String),
    /// The server answered with a failure status: status and URL, as text.
    BadStatus(String),
    /// The local file could not be created, with the error's text.
    CreateFailed(String),
    /// Writing a chunk failed, with the error's text.
    WriteFailed(String),
    /// A progress notice could not be delivered.
    ProgressLost,
    /// Flushing the file failed, with the error's text.
    FlushFailed(String),
    /// Every chunk was written to this path.
    Written(String),
}

/// The notice that ends a download: an error for every failure, a debug
/// message naming the file on success.
pub open spec fn download_notice_text(end: DownloadEnd) -> (bool, Seq<char>) {
    match end {
        DownloadEnd::NoPath => (true, "can't get file path"@),
        DownloadEnd::RequestFailed(e) => (true, "get file error: "@ + e@),
        DownloadEnd::BadStatus(s) => (true, s@),
        DownloadEnd::CreateFailed(e) => (true, "file create error: "@ + e@),
        DownloadEnd::WriteFailed(e) => (true, "can't write to file: "@ + e@),
        DownloadEnd::ProgressLost => (true, "progress delivery failed"@),
        DownloadEnd::FlushFailed(e) => (true, "file flush error: "@ + e@),
        DownloadEnd::Written(p) => (false, "file downloaded to '"@ + p@ + "'"@),
    }
}

/// The notice that ends a download (see `download_notice_text`: the flag
/// says whether it is an error).
pub fn download_notice(end: DownloadEnd) -> (r: Error)
    ensures
        download_notice_text(end).0 ==> (r matches Error::Error(m) && m@ == download_notice_text(
            end,
        ).1),
        !download_notice_text(end).0 ==> (r matches Error::Debug(m) && m@ == download_notice_text(
            end,
        ).1),
{
    match end {
        DownloadEnd::NoPath => Error::Error(String::from_str("can't get file path")),
        DownloadEnd::RequestFailed(e) => Error::Error(joined_text("get file error: ", &e)),
        DownloadEnd::BadStatus(s) => Error::Error(s),
        DownloadEnd::CreateFailed(e) => Error::Error(joined_text("file create error: ", &e)),
        DownloadEnd::WriteFailed(e) => Error::Error(joined_text("can't write to file: ", &e)),
        DownloadEnd::ProgressLost => Error::Error(String::from_str("progress delivery failed")),
        DownloadEnd::FlushFailed(e) => Error::Error(joined_text("file flush error: ", &e)),
        DownloadEnd::Written(p) => Error::Debug(
            joined_text("file downloaded to '", &p).concat("'"),
        ),
    }
}

} // verus!
