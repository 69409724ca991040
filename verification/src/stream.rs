//! The recording stream: what happens to the record and to the log for each
//! thing that the socket of a recording session reports.

use vstd::prelude::*;
use crate::clock::utc_file_stamp;
use crate::frames::{address_of, address_text};
use crate::recorder::{move_tokens, record, record_output, RecorderView, TlcsRecorder};

verus! {

/// How grave a log entry is.
#[derive(Clone, Copy, Debug, PartialEq, Eq, Structural)]
pub enum LogLevel {
    Info,
    Debug,
    Error,
}

/// The word that stands for `level` in a log line.
pub open spec fn level_text(level: LogLevel) -> Seq<char> {
    match level {
        LogLevel::Info => "INFO"@,
        LogLevel::Debug => "DEBUG"@,
        LogLevel::Error => "ERROR"@,
    }
}

impl LogLevel {
    /// The word that stands for this level in a log line.
    pub fn text(&self) -> (t: &'static str)
        ensures
            t@ == level_text(*self),
    {
        match self {
            LogLevel::Info => "INFO",
            LogLevel::Debug => "DEBUG",
            LogLevel::Error => "ERROR",
        }
    }
}

/// What can happen on the socket of a recording session.
#[derive(Clone, Debug, PartialEq, Eq)]
pub enum StreamEvent {
    /// The socket is open.
    Connected,
    /// The socket could not be opened, with the text of the error.
    ConnectFailed(String),
    /// The owner asked the stream to stop.
    StopRequested,
    /// The relay sent a line.
    Line(String),
    /// The relay closed the connection.
    RemoteClosed,
    /// Reading failed, with the text of the error.
    ReadFailed(String),
}

/// What a [`StreamEvent`] holds, as the contracts speak of it.
pub enum StreamEventView {
    Connected,
    ConnectFailed(Seq<char>),
    StopRequested,
    Line(Seq<char>),
    RemoteClosed,
    ReadFailed(Seq<char>),
}

impl View for StreamEvent {
    type V = StreamEventView;

    open spec fn view(&self) -> StreamEventView {
        match self {
            StreamEvent::Connected => StreamEventView::Connected,
            StreamEvent::ConnectFailed(e) => StreamEventView::ConnectFailed(e@),
            StreamEvent::StopRequested => StreamEventView::StopRequested,
            StreamEvent::Line(l) => StreamEventView::Line(l@),
            StreamEvent::RemoteClosed => StreamEventView::RemoteClosed,
            StreamEvent::ReadFailed(e) => StreamEventView::ReadFailed(e@),
        }
    }
}

/// What the caller has to do after an event.
#[derive(Clone, Debug, PartialEq, Eq)]
pub struct StreamOutput {
    /// The level of the log entry to write.
    pub level: LogLevel,
    /// The message of the log entry to write.
    pub message: String,
    /// The text to append to the record.
    pub pgn: String,
    /// Whether the stream ends here.
    pub stop: bool,
}

/// What a [`StreamOutput`] holds, as the contracts speak of it.
pub struct StreamOutputView {
    pub level: LogLevel,
    pub message: Seq<char>,
    pub pgn: Seq<char>,
    pub stop: bool,
}

impl View for StreamOutput {
    type V = StreamOutputView;

    open spec fn view(&self) -> StreamOutputView {
        StreamOutputView {
            level: self.level,
            message: self.message@,
            pgn: self.pgn@,
            stop: self.stop,
        }
    }
}

/// The output that logs `message` at `level` and writes nothing to the
/// record.
pub open spec fn logged(level: LogLevel, message: Seq<char>, stop: bool) -> StreamOutputView {
    StreamOutputView { level, message, pgn: Seq::empty(), stop }
}

/// What the event `e` does to the record `s`: a line adds its moves to the
/// record and goes on; the opening of the socket goes on; everything else
/// ends the stream. Each event leaves one entry in the log.
pub open spec fn stream_step_spec(s: RecorderView, e: StreamEventView) -> (
    RecorderView,
    StreamOutputView,
) {
    match e {
        StreamEventView::Connected => (
            s,
            logged(LogLevel::Info, "Connected to TLCS server"@, false),
        ),
        StreamEventView::ConnectFailed(err) => (
            s,
            logged(LogLevel::Error, "Unable to connect to TLCS server: "@ + err, true),
        ),
        StreamEventView::StopRequested => (
            s,
            logged(LogLevel::Info, "TLCS stream stop requested"@, true),
        ),
        StreamEventView::Line(line) => (
            record(s, move_tokens(line)),
            StreamOutputView {
                level: LogLevel::Debug,
                message: "RX: "@ + line,
                pgn: record_output(s, move_tokens(line)),
                stop: false,
            },
        ),
        StreamEventView::RemoteClosed => (
            s,
            logged(LogLevel::Info, "TLCS stream closed by server"@, true),
        ),
        StreamEventView::ReadFailed(err) => (
            s,
            logged(LogLevel::Error, "TLCS stream read error: "@ + err, true),
        ),
    }
}

fn entry(level: LogLevel, head: &str, tail: &str, stop: bool) -> (out: StreamOutput)
    ensures
        out@ == logged(level, head@ + tail@, stop),
{
    let mut message = String::from_str(head);
    message.append(tail);
    StreamOutput { level, message, pgn: String::new(), stop }
}

/// Applies one event of the socket to the record and says what the caller
/// has to log, to write and to do.
pub fn stream_step(recorder: &mut TlcsRecorder, event: StreamEvent) -> (out: StreamOutput)
    ensures
        (final(recorder)@, out@) == stream_step_spec(old(recorder)@, event@),
{
    proof {
        reveal_strlit("");
    }
    match event {
        StreamEvent::Connected => {
            let out = entry(LogLevel::Info, "Connected to TLCS server", "", false);
            assert("Connected to TLCS server"@ + ""@ =~= "Connected to TLCS server"@);
            out
        },
        StreamEvent::ConnectFailed(error) => entry(
            LogLevel::Error,
            "Unable to connect to TLCS server: ",
            error.as_str(),
            true,
        ),
        StreamEvent::StopRequested => {
            let out = entry(LogLevel::Info, "TLCS stream stop requested", "", true);
            assert("TLCS stream stop requested"@ + ""@ =~= "TLCS stream stop requested"@);
            out
        },
        StreamEvent::Line(line) => {
            let pgn = recorder.append_moves_from_line(line.as_str());
            let mut message = String::from_str("RX: ");
            message.append(line.as_str());
            StreamOutput { level: LogLevel::Debug, message, pgn, stop: false }
        },
        StreamEvent::RemoteClosed => {
            let out = entry(LogLevel::Info, "TLCS stream closed by server", "", true);
            assert("TLCS stream closed by server"@ + ""@ =~= "TLCS stream closed by server"@);
            out
        },
        StreamEvent::ReadFailed(error) => entry(
            LogLevel::Error,
            "TLCS stream read error: ",
            error.as_str(),
            true,
        ),
    }
}

/// The log message that announces a stream from `host:port` into the record
/// at `pgn_path`.
pub open spec fn start_message_text(host: Seq<char>, port: u16, pgn_path: Seq<char>) -> Seq<char> {
    "Starting TLCS stream "@ + address_text(host, port) + " -> "@ + pgn_path
}

/// The log message that announces a stream.
pub fn start_message(host: &str, port: u16, pgn_path: &str) -> (m: String)
    ensures
        m@ == start_message_text(host@, port, pgn_path@),
{
    let mut m = String::from_str("Starting TLCS stream ");
    let address = address_of(host, port);
    m.append(address.as_str());
    m.append(" -> ");
    m.append(pgn_path);
    m
}

/// The name of the record file made at the moment `stamp`.
pub open spec fn record_file_name_text(stamp: Seq<char>) -> Seq<char> {
    "tlcs-"@ + stamp + ".pgn"@
}

/// The name of the record file made at the moment `stamp`.
pub fn record_file_name(stamp: &str) -> (name: String)
    ensures
        name@ == record_file_name_text(stamp@),
{
    let mut name = String::from_str("tlcs-");
    name.append(stamp);
    name.append(".pgn");
    name
}

/// The name of a record file made now.
pub fn new_record_file_name() -> (name: String)
    ensures
        exists|stamp: Seq<char>| name@ == #[trigger] record_file_name_text(stamp),
{
    let stamp = utc_file_stamp();
    let name = record_file_name(stamp.as_str());
    assert(name@ == record_file_name_text(stamp@));
    name
}

/// Only a line changes the record, and only a line and the opening of the
/// socket let the stream go on.
pub proof fn lemma_stream_goes_on(s: RecorderView, e: StreamEventView)
    ensures
        !(e is Line) ==> stream_step_spec(s, e).0 == s && stream_step_spec(s, e).1.pgn
            == Seq::<char>::empty(),
        stream_step_spec(s, e).1.stop <==> !(e is Line) && !(e is Connected),
{
}

} // verus!
