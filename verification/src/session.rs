//! The session state machine.  A session holds two flags — stacking and
//! strumming — and the list of currently-sounding tones.  One command per
//! input line moves the state; a malformed chord is reported and changes
//! nothing.

use vstd::prelude::*;
use vstd::string::{StrSliceExecFns, StringExecFns};
use crate::note::{Harmonym, spec_render};
use crate::chord::{Chord, spec_split_pascal, failing_groups, sorted_by_pitch};
use crate::parser::ParseError;

verus! {

/// The running state of one interactive session.
#[derive(Debug, Clone)]
pub struct Session {
    pub stacking: bool,
    pub strumming: bool,
    pub tones: Vec<Harmonym>,
}

/// What a session answers to one input line; any outside effect (starting
/// or stopping sound, printing) belongs to the caller.
#[derive(Debug)]
pub enum SessionReply {
    /// Stacking was toggled; the payload is the new value.  Toggling it
    /// off also cleared the accumulated tones.
    StackToggled(bool),
    /// All accumulated tones were cleared; the flags are unchanged.
    Stopped,
    /// The concatenated rendered notation of the accumulated tones, in
    /// accumulation order; no state changed.
    Gathered(String),
    /// Strumming was toggled; the payload is the new value.
    StrumToggled(bool),
    /// A help text should be shown; no state changed.
    Help,
    /// The session should end; no state changed.
    Exit,
    /// The line parsed as a chord: play it, sorted ascending.  When the
    /// session is stacking the tones were also accumulated and the sound
    /// is to be held; otherwise it plays for a fixed window.
    Play(Chord, bool),
    /// The line parsed as no command and no chord; nothing changed.
    Rejected(ParseError),
}

/// Whether two strings hold the same characters.
pub fn str_equal(a: &str, b: &str) -> (r: bool)
    ensures
        r == (a@ == b@),
{
    let n = a.unicode_len();
    if n != b.unicode_len() {
        proof {
            assert(a@ != b@);
        }
        return false;
    }
    let mut i: usize = 0;
    while i < n
        invariant
            i <= n,
            n == a@.len(),
            n == b@.len(),
            forall|k: int| 0 <= k < i ==> a@[k] == b@[k],
        decreases n - i,
    {
        if a.get_char(i) != b.get_char(i) {
            return false;
        }
        i = i + 1;
    }
    proof {
        assert(a@ =~= b@);
    }
    true
}

/// The concatenated rendered notation of the tones from index `i` on.
pub open spec fn spec_gather(ts: Seq<Harmonym>, i: int) -> Seq<char>
    decreases ts.len() - i,
{
    if i < 0 || i >= ts.len() {
        Seq::empty()
    } else {
        spec_render(ts[i]) + spec_gather(ts, i + 1)
    }
}

impl Session {
    /// Every accumulated tone is a well-formed pitch vector.
    pub open spec fn wf(self) -> bool {
        forall|i: int| 0 <= i < self.tones@.len() ==> (#[trigger] self.tones@[i]).wf()
    }

    /// A fresh session: both flags off, nothing sounding.
    pub fn new() -> (r: Session)
        ensures
            !r.stacking,
            !r.strumming,
            r.tones@.len() == 0,
            r.wf(),
    {
        Session { stacking: false, strumming: false, tones: Vec::new() }
    }

    /// Toggles stacking.  Turning it off also clears the accumulated
    /// tones; turning it on keeps them.
    pub fn toggle_stack(&mut self)
        requires
            old(self).wf(),
        ensures
            final(self).stacking == !old(self).stacking,
            final(self).strumming == old(self).strumming,
            final(self).tones@ == if old(self).stacking {
                Seq::<Harmonym>::empty()
            } else {
                old(self).tones@
            },
            final(self).wf(),
    {
        if self.stacking {
            self.stacking = false;
            self.tones = Vec::new();
        } else {
            self.stacking = true;
        }
    }

    /// Clears the accumulated tones; both flags stay as they are.
    pub fn stop(&mut self)
        ensures
            final(self).stacking == old(self).stacking,
            final(self).strumming == old(self).strumming,
            final(self).tones@.len() == 0,
            final(self).wf(),
    {
        self.tones = Vec::new();
    }

    /// Toggles strumming; nothing else changes.
    pub fn toggle_strum(&mut self)
        ensures
            final(self).stacking == old(self).stacking,
            final(self).strumming == !old(self).strumming,
            final(self).tones@ == old(self).tones@,
    {
        self.strumming = !self.strumming;
    }

    /// Reports the accumulated tones: their rendered notations
    /// concatenated in accumulation order.  Read-only.
    pub fn gather(&self) -> (r: String)
        requires
            self.wf(),
        ensures
            r@ == spec_gather(self.tones@, 0),
    {
        let n = self.tones.len();
        let mut out = String::new();
        let mut i: usize = 0;
        while i < n
            invariant
                i <= n,
                n == self.tones@.len(),
                self.wf(),
                out@ + spec_gather(self.tones@, i as int) =~= spec_gather(self.tones@, 0),
            decreases n - i,
        {
            let piece = self.tones[i].render_notation();
            out.append(piece.as_str());
            i = i + 1;
        }
        proof {
            assert(spec_gather(self.tones@, n as int) =~= Seq::<char>::empty());
            assert(out@ =~= spec_gather(self.tones@, 0));
        }
        out
    }

    /// Accumulates a played chord's tones when stacking is on; the flags
    /// never change here.  Returns whether the sound is to be held open.
    pub fn on_played(&mut self, chord: &Chord) -> (r: bool)
        requires
            old(self).wf(),
            chord.wf(),
        ensures
            final(self).stacking == old(self).stacking,
            final(self).strumming == old(self).strumming,
            final(self).tones@ == if old(self).stacking {
                old(self).tones@ + chord.tones@
            } else {
                old(self).tones@
            },
            final(self).wf(),
            r == old(self).stacking,
    {
        if self.stacking {
            let mut extra = clone_tones(&chord.tones);
            self.tones.append(&mut extra);
            true
        } else {
            false
        }
    }

    /// Interprets one input line against the command vocabulary (exact,
    /// case-sensitive): `stack`, `stop`, `gather`, `strum`, `help`,
    /// `exit`; any other non-empty line is parsed as a chord, which is
    /// sorted ascending and, when stacking, accumulated.  A malformed
    /// chord changes nothing.
    pub fn handle_line(&mut self, line: &str) -> (r: SessionReply)
        requires
            old(self).wf(),
        ensures
            final(self).wf(),
            line@ == "stack"@ ==> ({
                &&& final(self).stacking == !old(self).stacking
                &&& final(self).strumming == old(self).strumming
                &&& r matches SessionReply::StackToggled(b) && b == final(self).stacking
                &&& final(self).tones@ == (if old(self).stacking {
                    Seq::<Harmonym>::empty()
                } else {
                    old(self).tones@
                })
            }),
            line@ == "stop"@ ==> ({
                &&& final(self).tones@.len() == 0
                &&& final(self).stacking == old(self).stacking
                &&& final(self).strumming == old(self).strumming
                &&& r matches SessionReply::Stopped
            }),
            line@ == "gather"@ ==> ({
                &&& *final(self) == *old(self)
                &&& r matches SessionReply::Gathered(s) && s@ == spec_gather(old(self).tones@, 0)
            }),
            line@ == "strum"@ ==> ({
                &&& final(self).strumming == !old(self).strumming
                &&& final(self).stacking == old(self).stacking
                &&& final(self).tones@ == old(self).tones@
                &&& r matches SessionReply::StrumToggled(b) && b == final(self).strumming
            }),
            line@ == "help"@ ==> *final(self) == *old(self) && (r matches SessionReply::Help),
            line@ == "exit"@ ==> *final(self) == *old(self) && (r matches SessionReply::Exit),
            (line@ != "stack"@ && line@ != "stop"@ && line@ != "gather"@ && line@ != "strum"@
                && line@ != "help"@ && line@ != "exit"@) ==> ({
                ||| (r matches SessionReply::Rejected(e) && *final(self) == *old(self)
                    && failing_groups(spec_split_pascal(line@), 0).len() > 0)
                ||| (r matches SessionReply::Play(c, held) && ({
                    &&& failing_groups(spec_split_pascal(line@), 0).len() == 0
                    &&& c.wf()
                    &&& sorted_by_pitch(c.tones@)
                    &&& c.tones@.len() == spec_split_pascal(line@).len()
                    &&& held == old(self).stacking
                    &&& final(self).stacking == old(self).stacking
                    &&& final(self).strumming == old(self).strumming
                    &&& final(self).tones@ == (if old(self).stacking {
                        old(self).tones@ + c.tones@
                    } else {
                        old(self).tones@
                    })
                }))
            }),
    {
        proof {
            lemma_commands_distinct();
        }
        if str_equal(line, "stack") {
            self.toggle_stack();
            let on = self.stacking;
            SessionReply::StackToggled(on)
        } else if str_equal(line, "stop") {
            self.stop();
            SessionReply::Stopped
        } else if str_equal(line, "gather") {
            SessionReply::Gathered(self.gather())
        } else if str_equal(line, "strum") {
            self.toggle_strum();
            let on = self.strumming;
            SessionReply::StrumToggled(on)
        } else if str_equal(line, "help") {
            SessionReply::Help
        } else if str_equal(line, "exit") {
            SessionReply::Exit
        } else {
            match Chord::parse_chord(line) {
                Err(e) => SessionReply::Rejected(e),
                Ok(mut chord) => {
                    chord.sort();
                    let held = self.on_played(&chord);
                    SessionReply::Play(chord, held)
                },
            }
        }
    }
}

/// The six command words are pairwise distinct.
pub proof fn lemma_commands_distinct()
    ensures
        "stack"@ != "stop"@,
        "stack"@ != "gather"@,
        "stack"@ != "strum"@,
        "stack"@ != "help"@,
        "stack"@ != "exit"@,
        "stop"@ != "gather"@,
        "stop"@ != "strum"@,
        "stop"@ != "help"@,
        "stop"@ != "exit"@,
        "gather"@ != "strum"@,
        "gather"@ != "help"@,
        "gather"@ != "exit"@,
        "strum"@ != "help"@,
        "strum"@ != "exit"@,
        "help"@ != "exit"@,
{
    reveal_strlit("stack");
    reveal_strlit("stop");
    reveal_strlit("gather");
    reveal_strlit("strum");
    reveal_strlit("help");
    reveal_strlit("exit");
    assert("stack"@[2] == 'a' && "strum"@[2] == 'r');
    assert("stop"@[0] == 's' && "help"@[0] == 'h' && "exit"@[0] == 'e');
}

/// Copies a tone list.
fn clone_tones(ts: &Vec<Harmonym>) -> (r: Vec<Harmonym>)
    ensures
        r@ == ts@,
{
    let mut out: Vec<Harmonym> = Vec::new();
    let mut i: usize = 0;
    while i < ts.len()
        invariant
            i <= ts@.len(),
            out@ =~= ts@.subrange(0, i as int),
        decreases ts@.len() - i,
    {
        out.push(ts[i]);
        i = i + 1;
    }
    proof {
        assert(out@ =~= ts@);
    }
    out
}

} // verus!
