//! Stack frames as the symbolication engine reports them, their
//! classification as user or infrastructure code, and the operational-log
//! rendering of a reconstructed stack.

use vstd::prelude::*;
use vstd::string::StrSliceExecFns;
use vstd::string::StringExecFns;
use crate::text::dec_str;
use crate::text::u64_to_dec;

verus! {

/// One reconstructed stack frame.
pub struct StackFrame {
    /// The symbol name of the function.
    pub name: String,
    /// The source file the frame points into.
    pub file: String,
    /// The source line within that file.
    pub line: u32,
}

/// The mathematical content of a stack frame.
pub ghost struct FrameData {
    pub name: Seq<char>,
    pub file: Seq<char>,
    pub line: u32,
}

impl View for StackFrame {
    type V = FrameData;

    open spec fn view(&self) -> FrameData {
        FrameData { name: self.name@, file: self.file@, line: self.line }
    }
}

/// A frame is user code (rather than runtime or library infrastructure) when
/// its file path neither starts with `/` nor with the literal `library/`.
pub open spec fn in_app_spec(path: Seq<char>) -> bool {
    &&& !(path.len() > 0 && path[0] == '/')
    &&& !(path.len() >= 8 && path.subrange(0, 8) == "library/"@)
}

/// Classifies a frame's file path as user code or infrastructure.
pub fn is_in_app(path: &str) -> (r: bool)
    ensures
        r == in_app_spec(path@),
{
    proof {
        reveal_strlit("library/");
    }
    let n = path.unicode_len();
    if n > 0 && path.get_char(0) == '/' {
        return false;
    }
    if n >= 8 {
        let m = path.get_char(0) == 'l' && path.get_char(1) == 'i' && path.get_char(2) == 'b'
            && path.get_char(3) == 'r' && path.get_char(4) == 'a' && path.get_char(5) == 'r'
            && path.get_char(6) == 'y' && path.get_char(7) == '/';
        proof {
            assert(forall|k: int| 0 <= k < 8 ==> path@.subrange(0, 8)[k] == path@[k]);
            if m {
                assert(path@.subrange(0, 8) =~= "library/"@);
            } else {
                assert(path@.subrange(0, 8) != "library/"@);
            }
        }
        return !m;
    }
    true
}

/// One line of the operational stack log.
pub open spec fn log_line(f: FrameData) -> Seq<char> {
    "    at "@ + f.name + " ("@ + f.file + ":"@ + dec_str(f.line as int) + ")"@
}

/// Renders one frame as a line of the operational stack log.
pub fn render_log_line(f: &StackFrame) -> (r: String)
    ensures
        r@ == log_line(f@),
{
    let mut s = String::from_str("    at ");
    s.append(f.name.as_str());
    s.append(" (");
    s.append(f.file.as_str());
    s.append(":");
    let lineno = u64_to_dec(f.line as u64);
    s.append(lineno.as_str());
    s.append(")");
    proof {
        assert(s@ =~= log_line(f@));
    }
    s
}

/// Renders the stack for the operational log. The engine yields frames
/// outermost call first; the log displays the innermost frame first, so the
/// lines stand in the exact reverse of the engine's order.
pub fn log_lines(frames: &Vec<StackFrame>) -> (r: Vec<String>)
    ensures
        r@.len() == frames@.len(),
        forall|i: int|
            0 <= i < frames@.len() ==> r@[i]@ == log_line(
                frames@.reverse()[i]@,
            ),
{
    let mut out: Vec<String> = Vec::new();
    let mut i: usize = frames.len();
    while i > 0
        invariant
            i <= frames@.len(),
            out@.len() == frames@.len() - i,
            forall|j: int|
                0 <= j < out@.len() ==> out@[j]@ == log_line(
                    frames@[frames@.len() - 1 - j]@,
                ),
        decreases i,
    {
        i = i - 1;
        let line = render_log_line(&frames[i]);
        out.push(line);
    }
    proof {
        assert(forall|i: int|
            0 <= i < frames@.len() ==> frames@.reverse()[i] == frames@[frames@.len() - 1 - i]);
    }
    out
}

/// Reversing the display order a second time reproduces the engine's order.
pub proof fn lemma_display_round_trip(frames: Seq<StackFrame>)
    ensures
        frames.reverse().reverse() == frames,
{
    assert(frames.reverse().reverse() =~= frames);
}

/// One frame of the outgoing incident report.
pub struct SentryFrame {
    /// The source file of the frame.
    pub filename: String,
    /// The symbol name of the function.
    pub function: String,
    /// The source line within the file.
    pub lineno: u32,
    /// Whether the frame is user code.
    pub in_app: bool,
}

/// Turns reconstructed frames into report frames, in the engine's order,
/// classifying each one.
pub fn sentry_frames(frames: &Vec<StackFrame>) -> (r: Vec<SentryFrame>)
    ensures
        r@.len() == frames@.len(),
        forall|i: int|
            0 <= i < frames@.len() ==> {
                &&& r@[i].filename@ == frames@[i]@.file
                &&& r@[i].function@ == frames@[i]@.name
                &&& r@[i].lineno == frames@[i]@.line
                &&& r@[i].in_app == in_app_spec(frames@[i]@.file)
            },
{
    let mut out: Vec<SentryFrame> = Vec::new();
    let mut i: usize = 0;
    while i < frames.len()
        invariant
            i <= frames@.len(),
            out@.len() == i,
            forall|j: int|
                0 <= j < i ==> {
                    &&& out@[j].filename@ == frames@[j]@.file
                    &&& out@[j].function@ == frames@[j]@.name
                    &&& out@[j].lineno == frames@[j]@.line
                    &&& out@[j].in_app == in_app_spec(frames@[j]@.file)
                },
        decreases frames@.len() - i,
    {
        let f = &frames[i];
        let in_app = is_in_app(f.file.as_str());
        out.push(
            SentryFrame {
                filename: f.file.clone(),
                function: f.name.clone(),
                lineno: f.line,
                in_app,
            },
        );
        i = i + 1;
    }
    out
}

} // verus!
