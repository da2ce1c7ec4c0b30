//! The capture state machine: turns a stream of symbolic keypresses into
//! discrete command strings.
//!
//! A command is delimited by two consecutive "/" keypresses (the start
//! marker) and a later two consecutive "/" keypresses (the stop marker).
//! While capture is on, "<Backspace>" removes the last buffered character,
//! any single-character symbol is appended, and multi-character named symbols
//! are ignored. A lone "/" inside a command is kept: it is appended
//! speculatively and taken back only when a second "/" completes the stop
//! marker.

use vstd::prelude::*;

use crate::chars::chars_to_string;
use crate::chars::str_eq;

verus! {

/// Mathematical model of the capture state.
pub ghost struct CaptureSpec {
    /// The characters buffered for the current command.
    pub buf: Seq<char>,
    /// Whether the previous symbol was the first "/" of a potential marker.
    pub slash: bool,
    /// Whether a start marker has been seen and capture is on.
    pub started: bool,
}

/// One step of the capture state machine: the new state, and the completed
/// command when the symbol closed a stop marker.
pub open spec fn capture_step(st: CaptureSpec, sym: Seq<char>) -> (CaptureSpec, Option<Seq<char>>) {
    if sym == seq!['/'] {
        if st.slash {
            if st.started {
                (
                    CaptureSpec { buf: Seq::empty(), slash: false, started: false },
                    Some(st.buf.drop_last()),
                )
            } else {
                (CaptureSpec { buf: Seq::empty(), slash: false, started: true }, None)
            }
        } else {
            (
                CaptureSpec {
                    buf: if st.started {
                        st.buf.push('/')
                    } else {
                        st.buf
                    },
                    slash: true,
                    started: st.started,
                },
                None,
            )
        }
    } else if !st.started {
        (CaptureSpec { buf: st.buf, slash: false, started: false }, None)
    } else if sym == "<Backspace>"@ {
        (
            CaptureSpec {
                buf: if st.buf.len() > 0 {
                    st.buf.drop_last()
                } else {
                    st.buf
                },
                slash: false,
                started: true,
            },
            None,
        )
    } else if sym.len() == 1 {
        (CaptureSpec { buf: st.buf.push(sym[0]), slash: false, started: true }, None)
    } else {
        (CaptureSpec { buf: st.buf, slash: false, started: true }, None)
    }
}

/// The capture state: an edit buffer, a one-slash-seen flag, and whether
/// capture is on.
pub struct CaptureState {
    buffer: Vec<char>,
    slash_seen: bool,
    started: bool,
}

impl View for CaptureState {
    type V = CaptureSpec;

    closed spec fn view(&self) -> CaptureSpec {
        CaptureSpec { buf: self.buffer@, slash: self.slash_seen, started: self.started }
    }
}

/// A well-formed capture state: nothing is buffered before the start marker,
/// and after a speculative "/" the buffer ends with that "/".
pub open spec fn capture_wf(st: CaptureSpec) -> bool {
    &&& (!st.started ==> st.buf.len() == 0)
    &&& (st.started && st.slash ==> st.buf.len() > 0 && st.buf.last() == '/')
}

/// One capture step preserves well-formedness.
pub proof fn lemma_capture_step_wf(st: CaptureSpec, sym: Seq<char>)
    requires
        capture_wf(st),
    ensures
        capture_wf(capture_step(st, sym).0),
{
}

impl CaptureState {
    /// Well-formedness of the state, preserved by every step.
    pub open spec fn wf(self) -> bool {
        capture_wf(self@)
    }

    /// A fresh capture state: empty buffer, no slash seen, capture off.
    pub fn new() -> (s: Self)
        ensures
            s.wf(),
            s@.buf == Seq::<char>::empty(),
            !s@.slash,
            !s@.started,
    {
        let s = CaptureState { buffer: Vec::new(), slash_seen: false, started: false };
        proof {
            assert(s@.buf =~= Seq::<char>::empty());
        }
        s
    }

    /// Feeds one symbolic keypress to the state machine; returns the
    /// completed command when the symbol closed a stop marker.
    pub fn step(&mut self, key: &str) -> (r: Option<String>)
        requires
            old(self).wf(),
        ensures
            final(self).wf(),
            (final(self)@, (match r {
                Some(cmd) => Some(cmd@),
                None => None::<Seq<char>>,
            })) == capture_step(old(self)@, key@),
    {
        let is_slash = key.unicode_len() == 1 && key.get_char(0) == '/';
        proof {
            if is_slash {
                assert(key@ =~= seq!['/']);
            } else {
                assert(key@ != seq!['/']);
            }
        }
        if is_slash {
            if self.slash_seen {
                if self.started {
                    // Stop marker: drop the speculative trailing "/" and emit.
                    let cmd = chars_to_string(&self.buffer, 0, self.buffer.len() - 1);
                    proof {
                        assert(self.buffer@.subrange(0, self.buffer@.len() - 1)
                            =~= self.buffer@.drop_last());
                    }
                    self.buffer = Vec::new();
                    self.slash_seen = false;
                    self.started = false;
                    proof {
                        assert(self@.buf =~= Seq::<char>::empty());
                    }
                    Some(cmd)
                } else {
                    // Start marker: discard anything seen so far, capture on.
                    self.buffer = Vec::new();
                    self.slash_seen = false;
                    self.started = true;
                    proof {
                        assert(self@.buf =~= Seq::<char>::empty());
                    }
                    None
                }
            } else {
                // First "/" of a potential marker: append speculatively while
                // capture is on.
                if self.started {
                    self.buffer.push('/');
                }
                self.slash_seen = true;
                None
            }
        } else {
            self.slash_seen = false;
            if !self.started {
                None
            } else if str_eq(key, "<Backspace>") {
                if self.buffer.len() > 0 {
                    self.buffer.pop();
                }
                None
            } else if key.unicode_len() == 1 {
                self.buffer.push(key.get_char(0));
                None
            } else {
                None
            }
        }
    }
}

} // verus!
