//! Crash-restart policy of the supervisor.
//!
//! The supervisor restarts a crashed child process (the GUI or the audio
//! worker) unless it has crashed too often in a short time: at most
//! `MAX_RAPID_RESTARTS` restarts are counted inside one window of
//! `RAPID_RESTART_WINDOW_MS` (compared exactly, in nanoseconds); a crash
//! after the window has run out starts a new window.
use vstd::prelude::*;
use crate::clock::{clock_now, nanos_between};
use crate::protocol::{AudioCommand, GuiAction, SupervisorUpdate};
use crate::text::{decimal, push_decimal, push_str};

verus! {

/// Maximum number of rapid restarts before giving up (per child type).
pub const MAX_RAPID_RESTARTS: u32 = 5;

/// Time window for counting "rapid" restarts, in milliseconds.
pub const RAPID_RESTART_WINDOW_MS: u64 = 30_000;

/// The same window in nanoseconds; elapsed times are compared with it
/// exactly.
pub const RAPID_RESTART_WINDOW_NS: u128 = 30_000_000_000;

/// Result of the message relay loop.
#[derive(Debug)]
pub enum LoopResult {
    /// GUI shut down normally (window closed).
    CleanShutdown,
    /// GUI process crashed or disconnected.
    Crashed(String),
}

/// How the relay loop ends when the GUI process has exited: cleanly on
/// success, otherwise as a crash reported with the exit status text.
pub fn gui_exit_result(success: bool, status_text: &str) -> (r: LoopResult)
    ensures
        success ==> r is CleanShutdown,
        !success ==> (r matches LoopResult::Crashed(m) && m@ == "GUI exited with "@ + status_text@),
{
    if success {
        LoopResult::CleanShutdown
    } else {
        let mut m = String::new();
        push_str(&mut m, "GUI exited with ");
        push_str(&mut m, status_text);
        LoopResult::Crashed(m)
    }
}

/// What to do about a crashed audio worker.
#[derive(Debug, Clone, Copy)]
pub enum RestartDecision {
    /// Restart it; this is restart number `attempt` of the current window.
    Restart { attempt: u32 },
    /// Give up: it crashed `crashes` times within the window.
    GiveUp { crashes: u32 },
}

/// Restart count of the audio worker after one more crash, `elapsed_ns`
/// nanoseconds after its counting window opened, and whether a new window
/// opens now.
pub open spec fn audio_count_after_crash(count: nat, elapsed_ns: nat) -> (nat, bool) {
    if count + 1 == 1 || elapsed_ns > RAPID_RESTART_WINDOW_NS {
        (1, true)
    } else {
        (count + 1, false)
    }
}

/// GUI restart count before a new GUI is spawned, `elapsed_ns` nanoseconds
/// after its counting window opened, and whether a new window opens now.
pub open spec fn gui_count_before_spawn(count: nat, elapsed_ns: nat) -> (nat, bool) {
    if count > 0 && elapsed_ns > RAPID_RESTART_WINDOW_NS {
        (0, true)
    } else {
        (count, false)
    }
}

/// Counts the restarts of one child process inside the current window.
pub struct RestartTracker {
    count: u32,
    window_start: std::time::Instant,
}

impl RestartTracker {
    /// The number of restarts counted in the current window.
    pub closed spec fn spec_count(self) -> nat {
        self.count as nat
    }

    /// When the current counting window opened.
    pub closed spec fn spec_window_start(self) -> std::time::Instant {
        self.window_start
    }

    /// A tracker with no restarts counted, its window opening at `now`.
    pub fn starting_at(now: std::time::Instant) -> (t: Self)
        ensures
            t.spec_count() == 0,
            t.spec_window_start() == now,
    {
        RestartTracker { count: 0, window_start: now }
    }

    /// A tracker with no restarts counted, its window opening now.
    pub fn new() -> (t: Self)
        ensures
            t.spec_count() == 0,
    {
        Self::starting_at(clock_now())
    }

    /// The number of restarts counted in the current window.
    pub fn count(&self) -> (c: u32)
        ensures
            c == self.spec_count(),
    {
        self.count
    }

    /// Record an audio worker crash at `now`, `elapsed_ns` nanoseconds after
    /// the window opened, and decide: restart while at most
    /// `MAX_RAPID_RESTARTS` restarts fall in the window, give up otherwise.
    /// A crash that opens a new window opens it at `now`.
    pub fn audio_crash_at(&mut self, now: std::time::Instant, elapsed_ns: u128) -> (d: RestartDecision)
        requires
            old(self).spec_count() < u32::MAX,
        ensures
            final(self).spec_count() == audio_count_after_crash(old(self).spec_count(), elapsed_ns as nat).0,
            final(self).spec_window_start() == (if audio_count_after_crash(old(self).spec_count(), elapsed_ns as nat).1 {
                now
            } else {
                old(self).spec_window_start()
            }),
            final(self).spec_count() <= MAX_RAPID_RESTARTS ==> d == (RestartDecision::Restart {
                attempt: final(self).spec_count() as u32,
            }),
            final(self).spec_count() > MAX_RAPID_RESTARTS ==> d == (RestartDecision::GiveUp {
                crashes: final(self).spec_count() as u32,
            }),
    {
        self.count = self.count + 1;
        if self.count == 1 || elapsed_ns > RAPID_RESTART_WINDOW_NS {
            self.count = 1;
            self.window_start = now;
        }
        if self.count > MAX_RAPID_RESTARTS {
            RestartDecision::GiveUp { crashes: self.count }
        } else {
            RestartDecision::Restart { attempt: self.count }
        }
    }

    /// Record an audio worker crash now and decide whether to restart it.
    pub fn audio_crash(&mut self) -> (d: RestartDecision)
        requires
            old(self).spec_count() < u32::MAX,
        ensures
            exists|elapsed_ns: u128|
                final(self).spec_count() == (#[trigger] audio_count_after_crash(old(self).spec_count(), elapsed_ns as nat)).0
                    && (!audio_count_after_crash(old(self).spec_count(), elapsed_ns as nat).1 ==> final(self).spec_window_start()
                    == old(self).spec_window_start()),
            final(self).spec_count() <= MAX_RAPID_RESTARTS ==> d == (RestartDecision::Restart {
                attempt: final(self).spec_count() as u32,
            }),
            final(self).spec_count() > MAX_RAPID_RESTARTS ==> d == (RestartDecision::GiveUp {
                crashes: final(self).spec_count() as u32,
            }),
    {
        let now = clock_now();
        let elapsed = nanos_between(&now, &self.window_start);
        self.audio_crash_at(now, elapsed)
    }

    /// Before spawning a new GUI, `elapsed_ns` nanoseconds after the window
    /// opened, at time `now`: forget the crashes of a window that has run
    /// out (a new window opens at `now`), then allow the spawn while fewer
    /// than `MAX_RAPID_RESTARTS` crashes are counted.
    pub fn gui_may_spawn_at(&mut self, now: std::time::Instant, elapsed_ns: u128) -> (allowed: bool)
        ensures
            final(self).spec_count() == gui_count_before_spawn(old(self).spec_count(), elapsed_ns as nat).0,
            final(self).spec_window_start() == (if gui_count_before_spawn(old(self).spec_count(), elapsed_ns as nat).1 {
                now
            } else {
                old(self).spec_window_start()
            }),
            allowed == (final(self).spec_count() < MAX_RAPID_RESTARTS),
    {
        if self.count > 0 && elapsed_ns > RAPID_RESTART_WINDOW_NS {
            self.count = 0;
            self.window_start = now;
        }
        self.count < MAX_RAPID_RESTARTS
    }

    /// Before spawning a new GUI now: whether the spawn is allowed.
    pub fn gui_may_spawn(&mut self) -> (allowed: bool)
        ensures
            exists|elapsed_ns: u128|
                final(self).spec_count() == (#[trigger] gui_count_before_spawn(old(self).spec_count(), elapsed_ns as nat)).0
                    && (!gui_count_before_spawn(old(self).spec_count(), elapsed_ns as nat).1 ==> final(self).spec_window_start()
                    == old(self).spec_window_start()),
            allowed == (final(self).spec_count() < MAX_RAPID_RESTARTS),
    {
        let now = clock_now();
        let elapsed = nanos_between(&now, &self.window_start);
        self.gui_may_spawn_at(now, elapsed)
    }

    /// Count a GUI crash at `now`; the first crash of a window opens it at
    /// `now`.
    pub fn gui_crash_at(&mut self, now: std::time::Instant)
        requires
            old(self).spec_count() < u32::MAX,
        ensures
            final(self).spec_count() == old(self).spec_count() + 1,
            final(self).spec_window_start() == (if old(self).spec_count() == 0 {
                now
            } else {
                old(self).spec_window_start()
            }),
    {
        self.count = self.count + 1;
        if self.count == 1 {
            self.window_start = now;
        }
    }

    /// Count a GUI crash now.
    pub fn gui_crash(&mut self)
        requires
            old(self).spec_count() < u32::MAX,
        ensures
            final(self).spec_count() == old(self).spec_count() + 1,
            old(self).spec_count() > 0 ==> final(self).spec_window_start() == old(self).spec_window_start(),
    {
        let now = clock_now();
        self.gui_crash_at(now);
    }
}

/// However the clock runs, the audio worker is restarted at most
/// `MAX_RAPID_RESTARTS` times in a row within one window: a crash that
/// falls inside the window adds one to the count, and the decision gives
/// up as soon as the count passes the maximum.
pub proof fn lemma_audio_window(count: nat, elapsed_ns: nat)
    ensures
        elapsed_ns <= RAPID_RESTART_WINDOW_NS && count > 0 ==> audio_count_after_crash(count, elapsed_ns).0
            == count + 1,
        elapsed_ns > RAPID_RESTART_WINDOW_NS || count == 0 ==> audio_count_after_crash(count, elapsed_ns)
            == (1nat, true),
        audio_count_after_crash(count, elapsed_ns).0 >= 1,
{
}

/// The command the supervisor forwards to the audio worker for a GUI
/// action, and whether the action ends the relay (a shutdown).
pub fn forward_gui_action(action: GuiAction) -> (r: (AudioCommand, bool))
    ensures
        r.1 == (action is Shutdown),
        r.0 == AudioCommand::Action(action),
{
    let shutdown = match action {
        GuiAction::Shutdown => true,
        _ => false,
    };
    (AudioCommand::Action(action), shutdown)
}

/// Why the supervisor gives up on an audio worker that crashed `crashes`
/// times within one window.
pub fn give_up_reason(crashes: u32) -> (s: String)
    ensures
        s@ == "Audio worker crashed "@ + decimal(crashes as nat) + " times within "@ + decimal(
            (RAPID_RESTART_WINDOW_MS / 1000) as nat,
        ) + "s"@,
{
    let mut s = String::new();
    push_str(&mut s, "Audio worker crashed ");
    push_decimal(&mut s, crashes as u64);
    push_str(&mut s, " times within ");
    push_decimal(&mut s, RAPID_RESTART_WINDOW_MS / 1000);
    push_str(&mut s, "s");
    s
}

/// The notice sent to the GUI after the audio worker was restarted, with
/// the restart's number in the current window.
pub fn restart_notice(attempt: u32) -> (u: SupervisorUpdate)
    ensures
        u matches SupervisorUpdate::AudioProcessRestarted { message, restart_count } && restart_count == attempt
            && message@ == "⚠ Audio process crashed and was restarted (attempt "@ + decimal(attempt as nat)
            + "). Plugins need to be re-activated."@,
{
    let mut message = String::new();
    push_str(&mut message, "⚠ Audio process crashed and was restarted (attempt ");
    push_decimal(&mut message, attempt as u64);
    push_str(&mut message, "). Plugins need to be re-activated.");
    SupervisorUpdate::AudioProcessRestarted { message, restart_count: attempt }
}

/// The status line sent to the GUI when the audio worker could not be
/// restarted, for `reason`: after its connection closed the user is asked
/// to restart the host; after it exited abnormally the crash is reported.
pub fn restart_failed_update(after_disconnect: bool, reason: &str) -> (u: SupervisorUpdate)
    ensures
        u matches SupervisorUpdate::StatusMessage { message } && message@ == (if after_disconnect {
            "✗ Audio process failed to restart: "@ + reason@ + ". Please restart the host."@
        } else {
            "✗ Audio process crashed and could not be restarted: "@ + reason@
        }),
{
    let mut message = String::new();
    if after_disconnect {
        push_str(&mut message, "✗ Audio process failed to restart: ");
        push_str(&mut message, reason);
        push_str(&mut message, ". Please restart the host.");
    } else {
        push_str(&mut message, "✗ Audio process crashed and could not be restarted: ");
        push_str(&mut message, reason);
    }
    SupervisorUpdate::StatusMessage { message }
}

/// The two kinds of child process the supervisor starts.
#[derive(Debug, Clone, Copy, PartialEq, Eq, Structural)]
pub enum ChildKind {
    /// The audio worker (engine and plugins).
    AudioWorker,
    /// The GUI process.
    GuiWorker,
}

/// The file name, in the temporary directory, of the socket a child of
/// the supervisor with process id `pid` connects to.
pub fn socket_file_name(kind: ChildKind, pid: u32) -> (s: String)
    ensures
        s@ == (match kind {
            ChildKind::AudioWorker => "rs-vst-host-audio-"@,
            ChildKind::GuiWorker => "rs-vst-host-gui-"@,
        }) + decimal(pid as nat) + ".sock"@,
{
    let mut s = String::new();
    match kind {
        ChildKind::AudioWorker => push_str(&mut s, "rs-vst-host-audio-"),
        ChildKind::GuiWorker => push_str(&mut s, "rs-vst-host-gui-"),
    }
    push_decimal(&mut s, pid as u64);
    push_str(&mut s, ".sock");
    s
}

/// The command-line arguments of a child: its subcommand and socket, the
/// plugin folders (audio worker only, when there are any), then the
/// safe-mode and malloc-debug flags when set.
pub open spec fn child_args_of(
    kind: ChildKind,
    socket_path: Seq<char>,
    paths: Seq<Seq<char>>,
    safe_mode: bool,
    malloc_debug: bool,
) -> Seq<Seq<char>> {
    let head = seq![
        match kind {
            ChildKind::AudioWorker => "audio-worker"@,
            ChildKind::GuiWorker => "gui-worker"@,
        },
        "--socket"@,
        socket_path,
    ];
    let with_paths = if kind == ChildKind::AudioWorker && paths.len() > 0 {
        head + seq!["--paths"@] + paths
    } else {
        head
    };
    let with_safe = if safe_mode {
        with_paths.push("--safe-mode"@)
    } else {
        with_paths
    };
    if malloc_debug {
        with_safe.push("--malloc-debug"@)
    } else {
        with_safe
    }
}

/// The texts of a list of strings.
pub open spec fn texts(v: Seq<String>) -> Seq<Seq<char>> {
    v.map_values(|s: String| s@)
}

/// The command-line arguments to start a child with (see `child_args_of`).
pub fn child_args(kind: ChildKind, socket_path: &str, paths: &Vec<String>, safe_mode: bool, malloc_debug: bool) -> (r:
    Vec<String>)
    ensures
        texts(r@) == child_args_of(kind, socket_path@, texts(paths@), safe_mode, malloc_debug),
{
    let mut r: Vec<String> = Vec::new();
    match kind {
        ChildKind::AudioWorker => r.push("audio-worker".to_string()),
        ChildKind::GuiWorker => r.push("gui-worker".to_string()),
    }
    r.push("--socket".to_string());
    r.push(socket_path.to_string());
    let ghost head = texts(r@);
    assert(head =~= seq![
        match kind {
            ChildKind::AudioWorker => "audio-worker"@,
            ChildKind::GuiWorker => "gui-worker"@,
        },
        "--socket"@,
        socket_path@,
    ]);
    if kind == ChildKind::AudioWorker && paths.len() > 0 {
        r.push("--paths".to_string());
        let mut i: usize = 0;
        while i < paths.len()
            invariant
                i <= paths@.len(),
                texts(r@) == head + seq!["--paths"@] + texts(paths@).take(i as int),
            decreases paths@.len() - i,
        {
            let ghost before = texts(r@);
            r.push(paths[i].clone());
            i = i + 1;
            assert(texts(r@) =~= before.push(paths@[i - 1]@));
            assert(texts(paths@).take(i as int) =~= texts(paths@).take(i - 1).push(paths@[i - 1]@));
        }
        assert(texts(paths@).take(paths@.len() as int) =~= texts(paths@));
    }
    let ghost with_paths = texts(r@);
    if safe_mode {
        r.push("--safe-mode".to_string());
        assert(texts(r@) =~= with_paths.push("--safe-mode"@));
    }
    let ghost with_safe = texts(r@);
    if malloc_debug {
        r.push("--malloc-debug".to_string());
        assert(texts(r@) =~= with_safe.push("--malloc-debug"@));
    }
    r
}

/// Why the supervisor gives up on a GUI that crashed `crashes` times
/// within one window.
pub fn gui_give_up_reason(crashes: u32) -> (s: String)
    ensures
        s@ == "GUI process crashed "@ + decimal(crashes as nat) + " times rapidly — cannot recover"@,
{
    let mut s = String::new();
    push_str(&mut s, "GUI process crashed ");
    push_decimal(&mut s, crashes as u64);
    push_str(&mut s, " times rapidly — cannot recover");
    s
}

} // verus!
