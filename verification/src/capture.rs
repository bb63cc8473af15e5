use vstd::prelude::*;
use crate::text::{push_str, push_decimal, push_signed, decimal, signed_decimal};

verus! {

/// Command-line settings of the sharing host.
#[derive(Debug)]
pub struct Args {
    /// The index of the display to capture.
    pub display: usize,
    /// Whether to print profiler output.
    pub profiler: bool,
    /// If given, the stream goes to this file instead of to viewers.
    pub file: Option<String>,
    /// Path of the configuration file.
    pub config: Option<String>,
    /// Whether viewers' remote control is ignored.
    pub disable_control: bool,
}

/// Errors of a display source.
#[derive(PartialEq, Eq, Structural, Debug, Clone, Copy)]
pub enum CaptureError {
    /// The display list could not be read.
    Unavailable,
}

/// A source of displays that one of can be chosen for capture.
pub trait DisplaySelector {
    /// How a display is named.
    type Display;

    /// The displays that can be captured now.
    fn available_displays(&mut self) -> Result<Vec<Self::Display>, CaptureError>;

    /// Chooses `display` for capture.
    fn select_display(&mut self, display: &Self::Display) -> Result<(), CaptureError>;

    /// The display chosen for capture, if any.
    fn selected_display(&self) -> Result<Option<Self::Display>, CaptureError>;
}

/// The link a viewer opens to join: the viewer address with the room, the
/// passcode and the signalling server as query parameters.
pub open spec fn invite_link_text(
    viewer_url: Seq<char>,
    room_id: Seq<char>,
    password: Seq<char>,
    signaller_url: Seq<char>,
) -> Seq<char> {
    viewer_url + "?room="@ + room_id + "&pwd="@ + password + "&signaller="@ + signaller_url
}

/// The invite link of a session; an unknown room id is written as empty.
pub fn invite_link(
    viewer_url: &str,
    room_id: Option<String>,
    room_password: &str,
    signaller_url: &str,
) -> (link: String)
    ensures
        link@ == invite_link_text(
            viewer_url@,
            match room_id {
                Some(id) => id@,
                None => Seq::<char>::empty(),
            },
            room_password@,
            signaller_url@,
        ),
{
    let room = match room_id {
        Some(id) => id,
        None => String::new(),
    };
    let mut link = String::new();
    push_str(&mut link, viewer_url);
    push_str(&mut link, "?room=");
    push_str(&mut link, room.as_str());
    push_str(&mut link, "&pwd=");
    push_str(&mut link, room_password);
    push_str(&mut link, "&signaller=");
    push_str(&mut link, signaller_url);
    assert(link@ =~= invite_link_text(viewer_url@, room@, room_password@, signaller_url@));
    link
}

/// The session passcode to show, or `None` while no passcode has been set.
pub fn room_password(password: &String) -> (res: Option<String>)
    ensures
        password@.len() == 0 ==> res is None,
        password@.len() != 0 ==> (res matches Some(p) && p@ == password@),
{
    if !password.as_str().is_empty() {
        Some(password.clone())
    } else {
        None
    }
}

/// The label of a display in the picker: its name and its size in pixels.
pub open spec fn display_label_text(name: Seq<char>, width: int, height: int) -> Seq<char> {
    name + " ("@ + signed_decimal(width) + " x "@ + signed_decimal(height) + ")"@
}

/// `"<name> (<width> x <height>)"`.
pub fn display_label(name: &str, width: i64, height: i64) -> (label: String)
    ensures
        label@ == display_label_text(name@, width as int, height as int),
{
    let mut label = String::new();
    push_str(&mut label, name);
    push_str(&mut label, " (");
    push_signed(&mut label, width);
    push_str(&mut label, " x ");
    push_signed(&mut label, height);
    push_str(&mut label, ")");
    assert(label@ =~= display_label_text(name@, width as int, height as int));
    label
}

/// The name given to a display the system has no name for.
pub fn fallback_display_name(id: u32) -> (name: String)
    ensures
        name@ == "Display "@ + decimal(id as nat),
{
    let mut name = String::new();
    push_str(&mut name, "Display ");
    push_decimal(&mut name, id as u64);
    name
}

/// The display to capture after the list of displays is refreshed: the
/// current one if it is still listed, otherwise the first listed, if any.
pub open spec fn reselected(selected: Option<u64>, available: Seq<u64>) -> Option<u64> {
    let first = if available.len() > 0 {
        Some(available[0])
    } else {
        None
    };
    match selected {
        Some(id) => if available.contains(id) {
            Some(id)
        } else {
            first
        },
        None => first,
    }
}

/// After a refresh a display is chosen exactly when some display is listed,
/// the chosen one is always listed, the current choice is kept whenever it
/// is still listed, and refreshing again with the same list changes nothing.
pub proof fn law_reselection(selected: Option<u64>, available: Seq<u64>)
    ensures
        reselected(selected, available) is None <==> available.len() == 0,
        reselected(selected, available) matches Some(id) ==> available.contains(id),
        (selected matches Some(id) && available.contains(id)) ==> reselected(selected, available)
            == selected,
        reselected(reselected(selected, available), available) == reselected(selected, available),
{
    if available.len() > 0 {
        assert(available.contains(available[0]));
    }
}

/// With no display chosen yet, or the chosen one no longer listed, the
/// first listed display is chosen, and none when none is listed.
pub proof fn law_reselect_first_listed(selected: Option<u64>, available: Seq<u64>)
    requires
        selected matches Some(id) ==> !available.contains(id),
    ensures
        available.len() > 0 ==> reselected(selected, available) == Some(available[0]),
        available.len() == 0 ==> reselected(selected, available) is None,
{
}

/// Chooses the display to capture after a refresh of the available displays.
pub fn reselect(selected: Option<u64>, available: &Vec<u64>) -> (res: Option<u64>)
    ensures
        res == reselected(selected, available@),
{
    if let Some(id) = selected {
        let mut i: usize = 0;
        while i < available.len()
            invariant
                selected == Some(id),
                0 <= i <= available@.len(),
                forall|j: int| 0 <= j < i ==> available@[j] != id,
            decreases available@.len() - i,
        {
            if available[i] == id {
                assert(available@.contains(id)) by {
                    assert(available@[i as int] == id);
                }
                return Some(id);
            }
            i += 1;
        }
    }
    if available.len() > 0 {
        Some(available[0])
    } else {
        None
    }
}

/// Whether a frame whose capture status code is `status` carries a picture
/// to encode: only complete frames (code 0) and idle repeats (code 1) do.
pub fn frame_status_usable(status: i64) -> (res: bool)
    ensures
        res == (status == 0 || status == 1),
{
    status == 0 || status == 1
}

/// Milliseconds between two encoded frames at a cap of `max_fps` frames
/// per second, rounded down.
pub fn frame_interval_ms(max_fps: u32) -> (ms: u64)
    requires
        max_fps > 0,
    ensures
        ms == 1000int / (max_fps as int),
{
    (1000 / max_fps) as u64
}

/// Byte lengths of the luma and chroma planes of a captured NV12 picture,
/// or `None` for an empty picture.
pub fn yuv_plane_lengths(
    width: usize,
    height: usize,
    luminance_stride: usize,
    chrominance_stride: usize,
) -> (res: Option<(usize, usize)>)
    requires
        height * luminance_stride <= usize::MAX,
        height * chrominance_stride <= usize::MAX,
    ensures
        (width == 0 || height == 0) ==> res is None,
        (width != 0 && height != 0) ==> res == Some(
            (
                (height * luminance_stride) as usize,
                ((height * chrominance_stride) / 2) as usize,
            ),
        ),
{
    if width == 0 || height == 0 {
        return None;
    }
    Some((height * luminance_stride, height * chrominance_stride / 2))
}

/// Whether the screen recorder runs, and whether it has listed the
/// available content once.
#[derive(Debug, Clone, Copy, PartialEq, Eq, Structural)]
pub struct RecorderState {
    pub is_running: bool,
    pub is_setup: bool,
}

/// What to do when asked to start recording.
#[derive(Debug, Clone, Copy, PartialEq, Eq, Structural)]
pub enum StartAction {
    /// The recorder already runs: nothing to do.
    AlreadyRunning,
    /// Start the capture engine, first listing the available content when
    /// `refresh_content` holds.
    Start { refresh_content: bool },
}

/// The recorder after a start request, and what the request asks for.
pub open spec fn after_start(s: RecorderState) -> (RecorderState, StartAction) {
    if s.is_running {
        (s, StartAction::AlreadyRunning)
    } else {
        (
            RecorderState { is_running: true, is_setup: true },
            StartAction::Start { refresh_content: !s.is_setup },
        )
    }
}

/// The recorder after a stop request, and whether the engine is stopped.
pub open spec fn after_stop(s: RecorderState) -> (RecorderState, bool) {
    (RecorderState { is_running: false, is_setup: s.is_setup }, s.is_running)
}

/// Starting a running recorder does nothing; a start followed by a stop
/// leaves the recorder stopped and stops the engine; the available content
/// is listed on the first start only, never on a restart.
pub proof fn law_recorder_lifecycle(s: RecorderState)
    requires
        s.wf(),
    ensures
        after_start(s).0.wf(),
        after_stop(s).0.wf(),
        after_start(after_start(s).0).1 == StartAction::AlreadyRunning,
        after_start(after_start(s).0).0 == after_start(s).0,
        !after_stop(after_start(s).0).0.is_running,
        after_stop(after_start(s).0).1,
        after_start(after_stop(after_start(s).0).0).1 == (StartAction::Start {
            refresh_content: false,
        }),
        !after_stop(after_stop(s).0).1,
{
}

impl RecorderState {
    /// A recorder only runs once it has listed the available content.
    pub open spec fn wf(&self) -> bool {
        self.is_running ==> self.is_setup
    }

    /// A recorder that neither runs nor has listed content.
    pub fn new() -> (s: Self)
        ensures
            !s.is_running,
            !s.is_setup,
            s.wf(),
    {
        RecorderState { is_running: false, is_setup: false }
    }

    /// Whether watching for available content must list it now.
    pub fn needs_content_refresh(&self) -> (res: bool)
        ensures
            res == !self.is_setup,
    {
        !self.is_setup
    }

    /// Decides a start request and records its effect.
    pub fn start(&mut self) -> (action: StartAction)
        ensures
            (*final(self), action) == after_start(*old(self)),
    {
        if self.is_running {
            return StartAction::AlreadyRunning;
        }
        let refresh_content = !self.is_setup;
        self.is_setup = true;
        self.is_running = true;
        StartAction::Start { refresh_content }
    }

    /// Decides a stop request: `true` when the capture engine must be
    /// stopped, which happens exactly when the recorder was running.
    pub fn stop(&mut self) -> (stop_engine: bool)
        ensures
            (*final(self), stop_engine) == after_stop(*old(self)),
    {
        if !self.is_running {
            return false;
        }
        self.is_running = false;
        true
    }
}

/// Whether a sharing session runs, held as the token that stops it.
pub struct SessionControl<T> {
    shutdown_token: Option<T>,
}

impl<T> SessionControl<T> {
    /// The stop token of the running session, if one runs.
    pub closed spec fn token(&self) -> Option<T> {
        self.shutdown_token
    }

    /// No session runs.
    pub fn new() -> (c: Self)
        ensures
            c.token() is None,
    {
        SessionControl { shutdown_token: None }
    }

    /// Records a session started with stop token `token`; a token held
    /// before is dropped without being used.
    pub fn run(&mut self, token: T)
        ensures
            final(self).token() == Some(token),
    {
        self.shutdown_token = Some(token);
    }

    /// Ends the session: hands back its stop token to be cancelled, `None`
    /// when no session ran.
    pub fn shutdown(&mut self) -> (token: Option<T>)
        ensures
            token == old(self).token(),
            final(self).token() is None,
    {
        self.shutdown_token.take()
    }

    /// Whether a session runs.
    pub fn is_running(&self) -> (res: bool)
        ensures
            res == self.token() is Some,
    {
        self.shutdown_token.is_some()
    }
}

} // verus!
