//! The conversation session: the role-tagged transcript, the round
//! lifecycle, and the state machine that interprets each input line.

use vstd::prelude::*;
use crate::casing::{lower_of, lowercase};
use crate::persona::Persona;
use crate::tables::spec_secret_name;

verus! {

/// Who a transcript entry is attributed to.
#[derive(Clone, Copy, Debug, PartialEq, Eq, Structural)]
pub enum Role {
    User,
    Assistant,
}

/// One turn of the conversation.
#[derive(Debug)]
pub struct Message {
    pub role: Role,
    pub content: String,
}

impl Message {
    /// Wraps a line of guard input as a user turn.
    pub fn as_user(content: String) -> (m: Message)
        ensures
            m.role == Role::User,
            m.content == content,
    {
        Message { role: Role::User, content }
    }

    /// The preamble turn that opens a persona's round.
    pub fn from_preamble(p: &Persona) -> (m: Message)
        requires
            p.wf(),
        ensures
            m.role == Role::User,
            m.content@ == p.spec_preamble(),
    {
        Message { role: Role::User, content: p.preamble_text() }
    }
}

/// The transcript strictly alternates roles, starting with the user.
pub open spec fn alternates(t: Seq<Message>) -> bool {
    forall|i: int|
        0 <= i < t.len() ==> (#[trigger] t[i]).role == (if i % 2 == 0 {
            Role::User
        } else {
            Role::Assistant
        })
}

/// How many user-role entries a transcript holds.
pub open spec fn user_count(t: Seq<Message>) -> nat
    decreases t.len(),
{
    if t.len() == 0 {
        0
    } else {
        user_count(t.drop_last()) + (if t.last().role == Role::User {
            1nat
        } else {
            0nat
        })
    }
}

/// The transcript a round reset leaves behind: exactly the persona's
/// preamble, as a single user turn.
pub open spec fn is_reset_transcript(t: Seq<Message>, p: Persona) -> bool {
    &&& t.len() == 1
    &&& t[0].role == Role::User
    &&& t[0].content@ == p.spec_preamble()
}

/// What the caller must do after a line has been interpreted.
pub enum Action {
    /// The guard ruled: print this verdict, then start a new round.
    Verdict(String),
    /// The guard asked for a reset: print the intro, then start a new round.
    NewRound,
    /// The line was appended as a user turn: obtain the assistant's reply
    /// and record it.
    Sent,
}

/// The verdict a ruling earns. It opens with praise exactly when the call
/// was right: accepting an innocent persona, or rejecting one with a secret.
pub open spec fn spec_verdict(p: Persona, accepted: bool) -> Seq<char> {
    (if accepted == (p.secret is None) {
        "Good job! "@
    } else {
        "Rut roh! "@
    }) + p.spec_name() + (match p.secret {
        Some(s) => " was a secret "@ + spec_secret_name(s as int) + "."@,
        None => " was innocent."@,
    })
}

/// Renders the verdict for an accept (true) or reject (false) ruling on the
/// given persona.
pub fn verdict_text(p: &Persona, accepted: bool) -> (r: String)
    requires
        p.wf(),
    ensures
        r@ == spec_verdict(*p, accepted),
{
    let mut r = if (p.secret.is_none()) == accepted {
        String::from_str("Good job! ")
    } else {
        String::from_str("Rut roh! ")
    };
    let n = p.name();
    r.append(n.as_str());
    match p.secret_label() {
        Some(label) => {
            r.append(" was a secret ");
            r.append(label.as_str());
            r.append(".");
        },
        None => {
            r.append(" was innocent.");
        },
    }
    proof {
        assert(r@ =~= spec_verdict(*p, accepted));
    }
    r
}

/// The banner printed at startup and on every reset.
pub open spec fn spec_intro() -> Seq<char> {
    "Welcome to Papers Plz GPT!\n\nYou play the role of a border guard who must interview people passing through a checkpoint.\n\nBeware! Some people have a dark secret and you must not let them through!\n\nType \"Accept\" or \"Reject\" to make your determination and move on to the next person.\n"@
}

/// Renders the banner.
pub fn intro_text() -> (r: String)
    ensures
        r@ == spec_intro(),
{
    String::from_str(
        "Welcome to Papers Plz GPT!\n\nYou play the role of a border guard who must interview people passing through a checkpoint.\n\nBeware! Some people have a dark secret and you must not let them through!\n\nType \"Accept\" or \"Reject\" to make your determination and move on to the next person.\n",
    )
}

/// The current round: the transcript so far and the persona under
/// interrogation.
pub struct Session {
    pub transcript: Vec<Message>,
    pub persona: Persona,
}

impl Session {
    /// The transcript alternates roles starting with the user, and the
    /// persona is well formed.
    pub open spec fn wf(self) -> bool {
        &&& alternates(self.transcript@)
        &&& self.persona.wf()
    }

    /// A session that has not opened its first round: an empty transcript
    /// and a freshly drawn persona.
    pub fn new() -> (s: Session)
        ensures
            s.wf(),
            s.transcript@.len() == 0,
    {
        Session { transcript: Vec::new(), persona: Persona::new_random() }
    }

    /// Discards the transcript and the persona and opens a round for the
    /// given persona: afterwards the transcript is exactly its preamble turn.
    pub fn begin_round(&mut self, p: Persona)
        requires
            p.wf(),
        ensures
            final(self).persona == p,
            is_reset_transcript(final(self).transcript@, p),
            final(self).wf(),
    {
        self.transcript.clear();
        self.persona = p;
        let m = Message::from_preamble(&self.persona);
        self.transcript.push(m);
    }

    /// Discards the transcript and the persona and opens a round for a
    /// freshly drawn persona.
    pub fn start_round(&mut self)
        ensures
            final(self).persona.wf(),
            is_reset_transcript(final(self).transcript@, final(self).persona),
            final(self).wf(),
    {
        let p = Persona::new_random();
        self.begin_round(p);
    }

    /// Appends a guard line as a user turn. The transcript must be awaiting
    /// the guard (even length: every user turn so far has its reply).
    pub fn push_user(&mut self, line: String)
        requires
            old(self).wf(),
            old(self).transcript@.len() % 2 == 0,
        ensures
            final(self).persona == old(self).persona,
            final(self).transcript@ == old(self).transcript@.push(
                (Message { role: Role::User, content: line }),
            ),
            final(self).wf(),
    {
        let m = Message { role: Role::User, content: line };
        self.transcript.push(m);
        proof {
            let t0 = old(self).transcript@;
            let t1 = self.transcript@;
            assert forall|i: int| 0 <= i < t1.len() implies (#[trigger] t1[i]).role == (if i % 2
                == 0 {
                Role::User
            } else {
                Role::Assistant
            }) by {
                if i < t0.len() {
                    assert(t1[i] == t0[i]);
                }
            }
        }
    }

    /// Records the assistant's reply to the pending user turn (odd length:
    /// the last entry is a user turn).
    pub fn push_assistant(&mut self, reply: String)
        requires
            old(self).wf(),
            old(self).transcript@.len() % 2 == 1,
        ensures
            final(self).persona == old(self).persona,
            final(self).transcript@ == old(self).transcript@.push(
                (Message { role: Role::Assistant, content: reply }),
            ),
            final(self).wf(),
    {
        let m = Message { role: Role::Assistant, content: reply };
        self.transcript.push(m);
        proof {
            let t0 = old(self).transcript@;
            let t1 = self.transcript@;
            assert forall|i: int| 0 <= i < t1.len() implies (#[trigger] t1[i]).role == (if i % 2
                == 0 {
                Role::User
            } else {
                Role::Assistant
            }) by {
                if i < t0.len() {
                    assert(t1[i] == t0[i]);
                }
            }
        }
    }

    /// Interprets one line of guard input while the session awaits it. A
    /// reserved word (matched case-insensitively) ends the round: accept and
    /// reject earn a verdict on the persona as it stood when the line came
    /// in, reset asks for a fresh round outright; in every such case the
    /// transcript is left untouched. Any other line is appended as a user
    /// turn, and the caller owes the transcript the assistant's reply.
    pub fn step(&mut self, line: String) -> (a: Action)
        requires
            old(self).wf(),
            old(self).transcript@.len() % 2 == 0,
        ensures
            final(self).persona == old(self).persona,
            final(self).wf(),
            lower_of(line@) == "accept"@ ==> (a matches Action::Verdict(t) && t@ == spec_verdict(
                old(self).persona,
                true,
            )) && final(self).transcript@ == old(self).transcript@,
            lower_of(line@) == "reject"@ ==> (a matches Action::Verdict(t) && t@ == spec_verdict(
                old(self).persona,
                false,
            )) && final(self).transcript@ == old(self).transcript@,
            lower_of(line@) == "reset"@ ==> a is NewRound && final(self).transcript@ == old(
                self,
            ).transcript@,
            (lower_of(line@) != "accept"@ && lower_of(line@) != "reject"@ && lower_of(line@)
                != "reset"@) ==> a is Sent && final(self).transcript@ == old(
                self,
            ).transcript@.push((Message { role: Role::User, content: line })),
    {
        proof {
            broadcast use vstd::string::group_string_axioms;

            reveal_strlit("accept");
            reveal_strlit("reject");
            reveal_strlit("reset");
            assert("accept"@[0] == 'a');
            assert("reject"@[0] == 'r');
            assert("reset"@[0] == 'r');
            assert("reject"@[2] == 'j');
            assert("reset"@[2] == 's');
            assert("accept"@ != "reject"@);
            assert("accept"@ != "reset"@);
            assert("reject"@ != "reset"@);
        }
        let lowered = lowercase(line.as_str());
        if lowered == String::from_str("accept") {
            Action::Verdict(verdict_text(&self.persona, true))
        } else if lowered == String::from_str("reject") {
            Action::Verdict(verdict_text(&self.persona, false))
        } else if lowered == String::from_str("reset") {
            Action::NewRound
        } else {
            self.push_user(line);
            Action::Sent
        }
    }
}

/// For all rounds: right after a reset, once the first assistant reply is
/// recorded, the transcript is exactly one user-role entry holding the
/// persona preamble followed by one assistant-role entry.
pub proof fn lemma_round_opening(t0: Seq<Message>, t1: Seq<Message>, p: Persona, reply: Message)
    requires
        is_reset_transcript(t0, p),
        reply.role == Role::Assistant,
        t1 == t0.push(reply),
    ensures
        t1.len() == 2,
        t1[0].role == Role::User,
        t1[0].content@ == p.spec_preamble(),
        t1[1].role == Role::Assistant,
        user_count(t1) == 1,
        alternates(t1),
{
    assert(t1[0] == t0[0]);
    assert(t1.drop_last() =~= t0);
    assert(t0.drop_last() =~= Seq::<Message>::empty());
    assert(user_count(Seq::<Message>::empty()) == 0);
    assert(user_count(t0) == 1);
}

/// The verdict text reflects the persona's secret: its first character is
/// the praising 'G' exactly when the ruling was right, the rueful 'R'
/// exactly when it was wrong.
pub proof fn lemma_verdict_reflects_secret(p: Persona, accepted: bool)
    ensures
        spec_verdict(p, accepted).len() > 0,
        accepted == (p.secret is None) ==> spec_verdict(p, accepted)[0] == 'G',
        accepted != (p.secret is None) ==> spec_verdict(p, accepted)[0] == 'R',
{
    reveal_strlit("Good job! ");
    reveal_strlit("Rut roh! ");
}

} // verus!
