//! Decides whether tutorial screenshots are captured, and when.
use vstd::prelude::*;

verus! {

/// Whether a value of the capture switch turns capture on: one of
/// `1`, `true`, `TRUE`, `yes`, `YES`, `on`, `ON`.
pub open spec fn enables_capture(value: Seq<char>) -> bool {
    ||| value == "1"@
    ||| value == "true"@
    ||| value == "TRUE"@
    ||| value == "yes"@
    ||| value == "YES"@
    ||| value == "on"@
    ||| value == "ON"@
}

/// The capture switch is on for exactly seven values, `1`, `true`, `TRUE`,
/// `yes`, `YES`, `on` and `ON`, and off for every other value (such as
/// `off`, `no`, `0`, `false`, or the empty string).
pub proof fn lemma_capture_switch_values(value: Seq<char>)
    ensures
        enables_capture(value) <==> {
            ||| value == "1"@
            ||| value == "true"@
            ||| value == "TRUE"@
            ||| value == "yes"@
            ||| value == "YES"@
            ||| value == "on"@
            ||| value == "ON"@
        },
        value == "off"@ ==> !enables_capture(value),
        value == "no"@ ==> !enables_capture(value),
        value == "0"@ ==> !enables_capture(value),
        value == "false"@ ==> !enables_capture(value),
        value.len() == 0 ==> !enables_capture(value),
{
    reveal_strlit("1");
    reveal_strlit("true");
    reveal_strlit("TRUE");
    reveal_strlit("yes");
    reveal_strlit("YES");
    reveal_strlit("on");
    reveal_strlit("ON");
    reveal_strlit("off");
    reveal_strlit("no");
    reveal_strlit("0");
    reveal_strlit("false");
    assert("off"@ != "1"@) by {
        assert("off"@[0] != "1"@[0]);
    }
    assert("off"@ != "true"@) by {
        assert("off"@[0] != "true"@[0]);
    }
    assert("off"@ != "TRUE"@) by {
        assert("off"@[0] != "TRUE"@[0]);
    }
    assert("off"@ != "yes"@) by {
        assert("off"@[0] != "yes"@[0]);
    }
    assert("off"@ != "YES"@) by {
        assert("off"@[0] != "YES"@[0]);
    }
    assert("off"@ != "on"@) by {
        assert("off"@[1] != "on"@[1]);
    }
    assert("off"@ != "ON"@) by {
        assert("off"@[0] != "ON"@[0]);
    }
    assert("no"@ != "1"@) by {
        assert("no"@[0] != "1"@[0]);
    }
    assert("no"@ != "true"@) by {
        assert("no"@[0] != "true"@[0]);
    }
    assert("no"@ != "TRUE"@) by {
        assert("no"@[0] != "TRUE"@[0]);
    }
    assert("no"@ != "yes"@) by {
        assert("no"@[0] != "yes"@[0]);
    }
    assert("no"@ != "YES"@) by {
        assert("no"@[0] != "YES"@[0]);
    }
    assert("no"@ != "on"@) by {
        assert("no"@[0] != "on"@[0]);
    }
    assert("no"@ != "ON"@) by {
        assert("no"@[0] != "ON"@[0]);
    }
    assert("0"@ != "1"@) by {
        assert("0"@[0] != "1"@[0]);
    }
    assert("0"@ != "true"@) by {
        assert("0"@[0] != "true"@[0]);
    }
    assert("0"@ != "TRUE"@) by {
        assert("0"@[0] != "TRUE"@[0]);
    }
    assert("0"@ != "yes"@) by {
        assert("0"@[0] != "yes"@[0]);
    }
    assert("0"@ != "YES"@) by {
        assert("0"@[0] != "YES"@[0]);
    }
    assert("0"@ != "on"@) by {
        assert("0"@[0] != "on"@[0]);
    }
    assert("0"@ != "ON"@) by {
        assert("0"@[0] != "ON"@[0]);
    }
    assert("false"@ != "1"@) by {
        assert("false"@[0] != "1"@[0]);
    }
    assert("false"@ != "true"@) by {
        assert("false"@[0] != "true"@[0]);
    }
    assert("false"@ != "TRUE"@) by {
        assert("false"@[0] != "TRUE"@[0]);
    }
    assert("false"@ != "yes"@) by {
        assert("false"@[0] != "yes"@[0]);
    }
    assert("false"@ != "YES"@) by {
        assert("false"@[0] != "YES"@[0]);
    }
    assert("false"@ != "on"@) by {
        assert("false"@[0] != "on"@[0]);
    }
    assert("false"@ != "ON"@) by {
        assert("false"@[0] != "ON"@[0]);
    }
}

/// Compares two strings character by character.
fn same_chars(a: &str, b: &str) -> (same: bool)
    ensures
        same == (a@ == b@),
{
    let n = a.unicode_len();
    if n != b.unicode_len() {
        return false;
    }
    let mut i: usize = 0;
    while i < n
        invariant
            n == a@.len(),
            n == b@.len(),
            i <= n,
            forall|j: int| 0 <= j < i ==> a@[j] == b@[j],
        decreases n - i,
    {
        if a.get_char(i) != b.get_char(i) {
            return false;
        }
        i += 1;
    }
    assert(a@ =~= b@);
    true
}

/// Whether the capture switch, read as `value` (`None` where it is unset
/// or not valid Unicode), turns tutorial capture on.
pub fn tutorial_capture_enabled(value: Option<&str>) -> (enabled: bool)
    ensures
        enabled == (value is Some && enables_capture(value->0@)),
        enabled == (value is Some && {
            let v = value->0@;
            ||| v == "1"@
            ||| v == "true"@
            ||| v == "TRUE"@
            ||| v == "yes"@
            ||| v == "YES"@
            ||| v == "on"@
            ||| v == "ON"@
        }),
{
    match value {
        None => false,
        Some(v) => {
            same_chars(v, "1") || same_chars(v, "true") || same_chars(v, "TRUE")
                || same_chars(v, "yes") || same_chars(v, "YES") || same_chars(v, "on")
                || same_chars(v, "ON")
        },
    }
}


/// The model of a pending tutorial screenshot: the file it is saved to, the
/// frame at which it is taken, the frames counted so far, and whether it has
/// been requested.
pub struct ScreenshotView {
    pub path: Seq<char>,
    pub target_frame: nat,
    pub current_frame: nat,
    pub requested: bool,
}

/// The state in which a screenshot of `path` at `target_frame` starts.
pub open spec fn fresh_screenshot(path: Seq<char>, target_frame: nat) -> ScreenshotView {
    ScreenshotView { path, target_frame, current_frame: 0, requested: false }
}

/// One frame of the screenshot system: the next state, and whether the
/// screenshot is requested in this frame. A requested screenshot is left as
/// it is; otherwise the frame is counted, and once the count reaches the
/// target frame the screenshot is requested.
pub open spec fn frame_step(s: ScreenshotView) -> (ScreenshotView, bool) {
    if s.requested {
        (s, false)
    } else if s.current_frame + 1 < s.target_frame {
        (ScreenshotView { current_frame: s.current_frame + 1, ..s }, false)
    } else {
        (ScreenshotView { current_frame: s.current_frame + 1, requested: true, ..s }, true)
    }
}

/// What the screenshot system asks of the app in one frame.
#[derive(Debug)]
pub enum FrameAction {
    /// Nothing to do in this frame.
    Wait,
    /// Take a screenshot of the primary window, save it to this path, and exit.
    Capture(String),
}

/// The state of the tutorial screenshot system: counts frames and requests
/// one screenshot once the target frame is reached.
pub struct TutorialScreenshot {
    path: String,
    target_frame: u32,
    current_frame: u32,
    requested: bool,
}

impl View for TutorialScreenshot {
    type V = ScreenshotView;

    closed spec fn view(&self) -> ScreenshotView {
        ScreenshotView {
            path: self.path@,
            target_frame: self.target_frame as nat,
            current_frame: self.current_frame as nat,
            requested: self.requested,
        }
    }
}

impl TutorialScreenshot {
    /// Until the screenshot is requested, the frame count stays below the
    /// target frame (or is zero), so counting one more frame cannot overflow.
    #[verifier::type_invariant]
    spec fn counting_in_range(self) -> bool {
        self.requested || self.current_frame == 0 || self.current_frame < self.target_frame
    }

    /// A screenshot of `path` to be taken at frame `target_frame`.
    pub fn new(path: String, target_frame: u32) -> (s: Self)
        ensures
            s@ == fresh_screenshot(path@, target_frame as nat),
    {
        TutorialScreenshot { path, target_frame, current_frame: 0, requested: false }
    }

    /// Runs the screenshot system for one frame.
    pub fn advance_frame(&mut self) -> (action: FrameAction)
        ensures
            final(self)@ == frame_step(old(self)@).0,
            frame_step(old(self)@).1 <==> action is Capture,
            action matches FrameAction::Capture(p) ==> p@ == old(self)@.path,
            old(self)@.requested ==> action is Wait && final(self)@ == old(self)@,
            !old(self)@.requested ==> {
                &&& final(self)@.current_frame == old(self)@.current_frame + 1
                &&& final(self)@.path == old(self)@.path
                &&& final(self)@.target_frame == old(self)@.target_frame
                &&& (action is Capture <==> old(self)@.current_frame + 1
                    >= old(self)@.target_frame)
                &&& final(self)@.requested == action is Capture
            },
    {
        proof {
            use_type_invariant(&*self);
        }
        if self.requested {
            return FrameAction::Wait;
        }
        let counted = self.current_frame + 1;
        if counted < self.target_frame {
            self.current_frame = counted;
            return FrameAction::Wait;
        }
        self.requested = true;
        self.current_frame = counted;
        FrameAction::Capture(self.path.clone())
    }
}


/// The state after `n` frames of the screenshot system, starting from `s`.
pub open spec fn frames_after(s: ScreenshotView, n: nat) -> ScreenshotView
    decreases n,
{
    if n == 0 {
        s
    } else {
        frames_after(frame_step(s).0, (n - 1) as nat)
    }
}

/// How many screenshots are requested in `n` frames, starting from `s`.
pub open spec fn captures_within(s: ScreenshotView, n: nat) -> nat
    decreases n,
{
    if n == 0 {
        0
    } else {
        (if frame_step(s).1 { 1nat } else { 0nat }) + captures_within(frame_step(s).0, (n - 1) as nat)
    }
}

/// The number of frames, counted from `s`, after which a screenshot that is
/// not yet requested is requested: the frames left to the target, and at
/// least one.
pub open spec fn frames_to_capture(s: ScreenshotView) -> nat {
    if s.current_frame + 1 >= s.target_frame {
        1
    } else {
        (s.target_frame - s.current_frame) as nat
    }
}

/// Once the screenshot has been requested, later frames change nothing and
/// request no other screenshot.
pub proof fn lemma_requested_is_final(s: ScreenshotView, n: nat)
    requires
        s.requested,
    ensures
        frames_after(s, n) == s,
        captures_within(s, n) == 0,
    decreases n,
{
    if n > 0 {
        lemma_requested_is_final(s, (n - 1) as nat);
    }
}

/// The path and the target frame of a screenshot never change.
pub proof fn lemma_path_and_target_kept(s: ScreenshotView, n: nat)
    ensures
        frames_after(s, n).path == s.path,
        frames_after(s, n).target_frame == s.target_frame,
    decreases n,
{
    if n > 0 {
        lemma_path_and_target_kept(frame_step(s).0, (n - 1) as nat);
    }
}

/// A screenshot that is not yet requested is requested exactly once, in
/// frame `frames_to_capture(s)`; until then each frame is counted.
pub proof fn lemma_capture_schedule(s: ScreenshotView, n: nat)
    requires
        !s.requested,
    ensures
        captures_within(s, n) == (if n >= frames_to_capture(s) { 1nat } else { 0nat }),
        frames_after(s, n).requested == (n >= frames_to_capture(s)),
        frames_after(s, n).current_frame == s.current_frame + (if n >= frames_to_capture(s) {
            frames_to_capture(s)
        } else {
            n
        }),
    decreases n,
{
    if n > 0 {
        let next = frame_step(s).0;
        if frame_step(s).1 {
            lemma_requested_is_final(next, (n - 1) as nat);
        } else {
            lemma_capture_schedule(next, (n - 1) as nat);
        }
    }
}

/// Whatever the state, the screenshot system requests at most one
/// screenshot over any number of frames.
pub proof fn lemma_at_most_one_capture(s: ScreenshotView, n: nat)
    ensures
        captures_within(s, n) <= 1,
{
    if s.requested {
        lemma_requested_is_final(s, n);
    } else {
        lemma_capture_schedule(s, n);
    }
}

/// A new screenshot at `target_frame` is requested exactly once, in frame
/// `target_frame` (in the first frame where the target is zero), and it is
/// saved to the path it was made with.
pub proof fn lemma_fresh_screenshot_taken_once(path: Seq<char>, target_frame: nat, n: nat)
    ensures
        captures_within(fresh_screenshot(path, target_frame), n) == (if n >= target_frame && n >= 1 {
            1nat
        } else {
            0nat
        }),
        frames_after(fresh_screenshot(path, target_frame), n).requested == (n >= target_frame
            && n >= 1),
        frames_after(fresh_screenshot(path, target_frame), n).path == path,
{
    lemma_capture_schedule(fresh_screenshot(path, target_frame), n);
    lemma_path_and_target_kept(fresh_screenshot(path, target_frame), n);
}

} // verus!
