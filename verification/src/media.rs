//! What is playing: the description of a media session, when a change is
//! worth reporting, and the reports on playback commands.

use vstd::prelude::*;
use vstd::string::StringExecFns;

verus! {

/// A position has changed when it moved by more than this many milliseconds.
pub const POSITION_TOLERANCE_MS: u64 = 1000;

/// Length of a millisecond in the 100-nanosecond ticks of the system's time
/// spans.
pub const TICKS_PER_MILLISECOND: u64 = 10_000;

/// What is known of the current media session.
#[derive(Debug, PartialEq, Eq)]
pub struct MediaInfo {
    pub title: Option<String>,
    pub artist: Option<String>,
    pub album: Option<String>,
    pub playback_status: String,
    /// Milliseconds from the start of the track.
    pub position: Option<u64>,
    /// Length of the track in milliseconds.
    pub duration: Option<u64>,
    pub app_name: Option<String>,
    pub has_artwork: bool,
}

/// The mathematical value of a [`MediaInfo`].
pub struct MediaView {
    pub title: Option<Seq<char>>,
    pub artist: Option<Seq<char>>,
    pub album: Option<Seq<char>>,
    pub playback_status: Seq<char>,
    pub position: Option<u64>,
    pub duration: Option<u64>,
    pub app_name: Option<Seq<char>>,
    pub has_artwork: bool,
}

/// The view of optional text.
pub open spec fn text_view(text: Option<String>) -> Option<Seq<char>> {
    match text {
        Some(t) => Some(t@),
        None => None,
    }
}

impl View for MediaInfo {
    type V = MediaView;

    open spec fn view(&self) -> MediaView {
        MediaView {
            title: text_view(self.title),
            artist: text_view(self.artist),
            album: text_view(self.album),
            playback_status: self.playback_status@,
            position: self.position,
            duration: self.duration,
            app_name: text_view(self.app_name),
            has_artwork: self.has_artwork,
        }
    }
}

/// The view of an optional description.
pub open spec fn info_view(info: Option<MediaInfo>) -> Option<MediaView> {
    match info {
        Some(i) => Some(i@),
        None => None,
    }
}

/// The description of no session: nothing known, status `Unknown`.
pub open spec fn empty_info() -> MediaView {
    MediaView {
        title: None,
        artist: None,
        album: None,
        playback_status: "Unknown"@,
        position: None,
        duration: None,
        app_name: None,
        has_artwork: false,
    }
}

impl Default for MediaInfo {
    fn default() -> (info: MediaInfo)
        ensures
            info@ == empty_info(),
    {
        MediaInfo {
            title: None,
            artist: None,
            album: None,
            playback_status: String::from_str("Unknown"),
            position: None,
            duration: None,
            app_name: None,
            has_artwork: false,
        }
    }
}

/// The playback state of a session, as the system numbers it.
#[derive(Clone, Copy, Debug, PartialEq, Eq, Structural)]
pub enum PlaybackStatus {
    Closed,
    Opened,
    Changing,
    Stopped,
    Playing,
    Paused,
}

impl PlaybackStatus {
    /// The state with the given number, if the number is one of the six.
    pub open spec fn of_code(code: i32) -> Option<PlaybackStatus> {
        if code == 0 {
            Some(PlaybackStatus::Closed)
        } else if code == 1 {
            Some(PlaybackStatus::Opened)
        } else if code == 2 {
            Some(PlaybackStatus::Changing)
        } else if code == 3 {
            Some(PlaybackStatus::Stopped)
        } else if code == 4 {
            Some(PlaybackStatus::Playing)
        } else if code == 5 {
            Some(PlaybackStatus::Paused)
        } else {
            None
        }
    }

    /// The state with the given number, if the number is one of the six.
    pub fn from_code(code: i32) -> (status: Option<PlaybackStatus>)
        ensures
            status == Self::of_code(code),
    {
        if code == 0 {
            Some(PlaybackStatus::Closed)
        } else if code == 1 {
            Some(PlaybackStatus::Opened)
        } else if code == 2 {
            Some(PlaybackStatus::Changing)
        } else if code == 3 {
            Some(PlaybackStatus::Stopped)
        } else if code == 4 {
            Some(PlaybackStatus::Playing)
        } else if code == 5 {
            Some(PlaybackStatus::Paused)
        } else {
            None
        }
    }
}

/// The name under which a playback state is reported. Only playing, paused
/// and stopped have a name of their own.
pub open spec fn status_label(status: Option<PlaybackStatus>) -> Seq<char> {
    match status {
        Some(PlaybackStatus::Playing) => "Playing"@,
        Some(PlaybackStatus::Paused) => "Paused"@,
        Some(PlaybackStatus::Stopped) => "Stopped"@,
        _ => "Unknown"@,
    }
}

/// The milliseconds in a time span of `ticks` ticks. A negative span is read
/// as the unsigned number with the same 64 bits.
pub open spec fn millis_of_ticks(ticks: i64) -> u64 {
    if ticks >= 0 {
        (ticks / 10_000) as u64
    } else {
        ((ticks + 0x1_0000_0000_0000_0000) / 10_000) as u64
    }
}

/// The milliseconds of an optional time span.
pub open spec fn optional_millis(ticks: Option<i64>) -> Option<u64> {
    match ticks {
        Some(t) => Some(millis_of_ticks(t)),
        None => None,
    }
}

/// Text that was read and is not empty.
pub open spec fn present_text(text: Option<Seq<char>>) -> Option<Seq<char>> {
    match text {
        Some(t) => if t.len() > 0 {
            Some(t)
        } else {
            None
        },
        None => None,
    }
}

/// What was read from a media session. A field is `None` where reading it
/// failed.
#[derive(Debug, PartialEq, Eq)]
pub struct SessionReading {
    /// Number of the playback state.
    pub playback_status: Option<i32>,
    /// Position in the track, in ticks.
    pub position_ticks: Option<i64>,
    /// End of the track, in ticks.
    pub end_ticks: Option<i64>,
    /// Whether the media properties could be read at all; without them title,
    /// artist, album and artwork are unknown.
    pub has_properties: bool,
    pub title: Option<String>,
    pub artist: Option<String>,
    pub album: Option<String>,
    /// The album artwork was there and could be saved.
    pub artwork_saved: bool,
    /// Identifier of the application that owns the session.
    pub source_app: Option<String>,
}

/// The description that a reading gives.
pub open spec fn described(reading: SessionReading) -> MediaView {
    MediaView {
        title: if reading.has_properties {
            present_text(text_view(reading.title))
        } else {
            None
        },
        artist: if reading.has_properties {
            present_text(text_view(reading.artist))
        } else {
            None
        },
        album: if reading.has_properties {
            present_text(text_view(reading.album))
        } else {
            None
        },
        playback_status: match reading.playback_status {
            Some(code) => status_label(PlaybackStatus::of_code(code)),
            None => "Unknown"@,
        },
        position: optional_millis(reading.position_ticks),
        duration: optional_millis(reading.end_ticks),
        app_name: present_text(text_view(reading.source_app)),
        has_artwork: reading.has_properties && reading.artwork_saved,
    }
}

/// Two positions differ by more than the tolerance, or only one is known.
pub open spec fn position_moved(last: Option<u64>, current: Option<u64>) -> bool {
    match (last, current) {
        (Some(a), Some(b)) => a - b > POSITION_TOLERANCE_MS || b - a > POSITION_TOLERANCE_MS,
        (None, None) => false,
        _ => true,
    }
}

/// A description differs from the last one reported in a way worth
/// reporting: in title, artist, album, status, application or artwork, or in
/// a position that moved. The duration alone is not worth a report.
pub open spec fn info_changed(last: MediaView, current: MediaView) -> bool {
    ||| last.title != current.title
    ||| last.artist != current.artist
    ||| last.album != current.album
    ||| last.playback_status != current.playback_status
    ||| last.app_name != current.app_name
    ||| last.has_artwork != current.has_artwork
    ||| position_moved(last.position, current.position)
}

/// Whether a description is to be reported after `last`: always when nothing
/// was reported before.
pub open spec fn worth_reporting(last: Option<MediaView>, current: MediaView) -> bool {
    match last {
        Some(l) => info_changed(l, current),
        None => true,
    }
}

/// The name under which a playback state is reported.
pub fn playback_status_label(status: Option<PlaybackStatus>) -> (label: &'static str)
    ensures
        label@ == status_label(status),
{
    match status {
        Some(PlaybackStatus::Playing) => "Playing",
        Some(PlaybackStatus::Paused) => "Paused",
        Some(PlaybackStatus::Stopped) => "Stopped",
        _ => "Unknown",
    }
}

/// Converts a time span from ticks to milliseconds.
pub fn ticks_to_millis(ticks: i64) -> (millis: u64)
    ensures
        millis == millis_of_ticks(ticks),
{
    if ticks >= 0 {
        (ticks as u64) / TICKS_PER_MILLISECOND
    } else {
        let below: u64 = (-(ticks + 1)) as u64;
        (u64::MAX - below) / TICKS_PER_MILLISECOND
    }
}

/// Keeps text that is not empty.
pub fn non_empty(text: Option<String>) -> (kept: Option<String>)
    ensures
        text_view(kept) == present_text(text_view(text)),
{
    match text {
        Some(t) => if t.as_str().is_empty() {
            None
        } else {
            Some(t)
        },
        None => None,
    }
}

/// Whether two optional texts are the same.
pub fn same_text(a: &Option<String>, b: &Option<String>) -> (same: bool)
    ensures
        same == (text_view(*a) == text_view(*b)),
{
    match (a, b) {
        (Some(x), Some(y)) => *x == *y,
        (None, None) => true,
        _ => false,
    }
}

/// A copy of optional text.
fn copy_text(text: &Option<String>) -> (copy: Option<String>)
    ensures
        text_view(copy) == text_view(*text),
{
    match text {
        Some(t) => Some(t.clone()),
        None => None,
    }
}

impl MediaInfo {
    /// The description that a reading of a session gives.
    pub fn from_reading(reading: SessionReading) -> (info: MediaInfo)
        ensures
            info@ == described(reading),
    {
        let status = match reading.playback_status {
            Some(code) => playback_status_label(PlaybackStatus::from_code(code)),
            None => "Unknown",
        };
        let position = match reading.position_ticks {
            Some(t) => Some(ticks_to_millis(t)),
            None => None,
        };
        let duration = match reading.end_ticks {
            Some(t) => Some(ticks_to_millis(t)),
            None => None,
        };
        let has_properties = reading.has_properties;
        let title = non_empty(reading.title);
        let artist = non_empty(reading.artist);
        let album = non_empty(reading.album);
        MediaInfo {
            title: if has_properties {
                title
            } else {
                None
            },
            artist: if has_properties {
                artist
            } else {
                None
            },
            album: if has_properties {
                album
            } else {
                None
            },
            playback_status: String::from_str(status),
            position,
            duration,
            app_name: non_empty(reading.source_app),
            has_artwork: has_properties && reading.artwork_saved,
        }
    }

    /// A copy of the description.
    pub fn duplicate(&self) -> (copy: MediaInfo)
        ensures
            copy@ == self@,
    {
        MediaInfo {
            title: copy_text(&self.title),
            artist: copy_text(&self.artist),
            album: copy_text(&self.album),
            playback_status: self.playback_status.clone(),
            position: self.position,
            duration: self.duration,
            app_name: copy_text(&self.app_name),
            has_artwork: self.has_artwork,
        }
    }
}

/// Whether two positions differ by more than the tolerance, or only one of
/// them is known.
pub fn has_position_moved(last: Option<u64>, current: Option<u64>) -> (moved: bool)
    ensures
        moved == position_moved(last, current),
{
    match (last, current) {
        (Some(a), Some(b)) => if a >= b {
            a - b > POSITION_TOLERANCE_MS
        } else {
            b - a > POSITION_TOLERANCE_MS
        },
        (None, None) => false,
        _ => true,
    }
}

/// Whether `current` is to be reported after `last`, the description that
/// was reported last.
pub fn should_print(last: &Option<MediaInfo>, current: &MediaInfo) -> (print: bool)
    ensures
        print == worth_reporting(info_view(*last), current@),
{
    match last {
        Some(l) => {
            !same_text(&l.title, &current.title) || !same_text(&l.artist, &current.artist)
                || !same_text(&l.album, &current.album) || l.playback_status
                != current.playback_status || !same_text(&l.app_name, &current.app_name)
                || l.has_artwork != current.has_artwork || has_position_moved(
                l.position,
                current.position,
            )
        },
        None => true,
    }
}

/// Remembers the description that was reported last.
#[derive(Debug)]
pub struct MediaMonitor {
    pub last: Option<MediaInfo>,
}

impl MediaMonitor {
    /// A monitor that has reported nothing yet.
    pub fn new() -> (monitor: MediaMonitor)
        ensures
            monitor.last is None,
    {
        MediaMonitor { last: None }
    }

    /// Takes the outcome of one look at the media session, `None` where the
    /// look failed, and gives what is to be reported now.
    ///
    /// A description is reported when it is worth reporting after the last
    /// one, and is then remembered. A failed look is reported as the empty
    /// description, once: only when something was remembered, which is then
    /// forgotten.
    pub fn observe(&mut self, reading: Option<MediaInfo>) -> (report: Option<MediaInfo>)
        ensures
            match reading {
                Some(info) => if worth_reporting(info_view(old(self).last), info@) {
                    info_view(report) == Some(info@) && info_view(final(self).last) == Some(info@)
                } else {
                    report is None && final(self).last == old(self).last
                },
                None => if old(self).last is Some {
                    info_view(report) == Some(empty_info()) && final(self).last is None
                } else {
                    report is None && final(self).last is None
                },
            },
    {
        match reading {
            Some(info) => {
                if should_print(&self.last, &info) {
                    let report = info.duplicate();
                    self.last = Some(info);
                    Some(report)
                } else {
                    None
                }
            },
            None => {
                if self.last.is_some() {
                    self.last = None;
                    Some(MediaInfo::default())
                } else {
                    None
                }
            },
        }
    }
}

/// A playback command.
#[derive(Clone, Copy, Debug, PartialEq, Eq, Structural)]
pub enum MediaCommand {
    SkipTrack,
    PreviousTrack,
    TogglePlayPause,
    Pause,
    Resume,
    Monitor,
}

/// How a playback command ended.
#[derive(Clone, Copy, Debug, PartialEq, Eq, Structural)]
pub enum ControlOutcome {
    /// There is no media session to send the command to.
    NoSession,
    /// The session answered; the flag says whether it did what was asked.
    Completed(bool),
    /// The session does not take the command.
    Unsupported,
}

impl MediaCommand {
    /// The command's name.
    pub open spec fn name(self) -> Seq<char> {
        match self {
            MediaCommand::SkipTrack => "SkipTrack"@,
            MediaCommand::PreviousTrack => "PreviousTrack"@,
            MediaCommand::TogglePlayPause => "TogglePlayPause"@,
            MediaCommand::Pause => "Pause"@,
            MediaCommand::Resume => "Resume"@,
            MediaCommand::Monitor => "Monitor"@,
        }
    }

    /// The command's name.
    pub fn as_str(self) -> (s: &'static str)
        ensures
            s@ == self.name(),
    {
        match self {
            MediaCommand::SkipTrack => "SkipTrack",
            MediaCommand::PreviousTrack => "PreviousTrack",
            MediaCommand::TogglePlayPause => "TogglePlayPause",
            MediaCommand::Pause => "Pause",
            MediaCommand::Resume => "Resume",
            MediaCommand::Monitor => "Monitor",
        }
    }

    /// Whether the command is sent to the session. `Monitor` is not: it asks
    /// for nothing to be done.
    pub fn is_sent(self) -> (sent: bool)
        ensures
            sent == (self != MediaCommand::Monitor),
    {
        match self {
            MediaCommand::Monitor => false,
            _ => true,
        }
    }
}

/// The line that reports how a command ended, if one is due. Without a
/// session the line says so, whatever the command. `Monitor` is not sent and
/// gets no line.
pub open spec fn report_line(command: MediaCommand, outcome: ControlOutcome) -> Option<Seq<char>> {
    match outcome {
        ControlOutcome::NoSession => Some("{\"error\": \"No active media session found\"}"@),
        _ => if command == MediaCommand::Monitor {
            None
        } else {
            match outcome {
                ControlOutcome::Completed(true) => Some(
                    "{\"success\": true, \"command\": \""@ + command.name() + "\"}"@,
                ),
                ControlOutcome::Completed(false) => Some(
                    "{\"success\": false, \"command\": \""@ + command.name()
                        + "\", \"error\": \"Command failed\"}"@,
                ),
                _ => Some(
                    "{\"success\": false, \"command\": \""@ + command.name()
                        + "\", \"error\": \"Command not supported\"}"@,
                ),
            }
        },
    }
}

/// The line that reports how a command ended, if one is due.
pub fn control_report(command: MediaCommand, outcome: ControlOutcome) -> (line: Option<String>)
    ensures
        text_view(line) == report_line(command, outcome),
{
    match outcome {
        ControlOutcome::NoSession => Some(
            String::from_str("{\"error\": \"No active media session found\"}"),
        ),
        ControlOutcome::Completed(done) => {
            if !command.is_sent() {
                None
            } else if done {
                let text = String::from_str("{\"success\": true, \"command\": \"");
                Some(text.concat(command.as_str()).concat("\"}"))
            } else {
                let text = String::from_str("{\"success\": false, \"command\": \"");
                Some(text.concat(command.as_str()).concat("\", \"error\": \"Command failed\"}"))
            }
        },
        ControlOutcome::Unsupported => {
            if !command.is_sent() {
                None
            } else {
                let text = String::from_str("{\"success\": false, \"command\": \"");
                Some(
                    text.concat(command.as_str()).concat(
                        "\", \"error\": \"Command not supported\"}",
                    ),
                )
            }
        },
    }
}

} // verus!
