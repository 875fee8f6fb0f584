//! The per-round persona: a name, two distinct personality quirks, an
//! optional secret identity, and a display colour, all drawn from the fixed
//! tables; and the instruction preamble rendered from it.

use vstd::prelude::*;
use crate::tables::{
    COLOR_COUNT, DisplayColor, FIRST_NAME_COUNT, LAST_NAME_COUNT, QUIRK_COUNT, SECRET_COUNT,
    color, first_name, last_name, quirk, secret_name, spec_color, spec_first_name,
    spec_last_name, spec_quirk, spec_secret_name,
};

verus! {

/// One round's character. Indices point into the fixed tables; the two quirk
/// indices are always distinct (the quirks are drawn without replacement).
#[derive(Clone, Copy, Debug)]
pub struct Persona {
    pub first: usize,
    pub last: usize,
    pub quirk_a: usize,
    pub quirk_b: usize,
    pub secret: Option<usize>,
    pub color: DisplayColor,
}

/// Index of the second quirk, given the first pick and a raw draw: a uniform
/// pick from the table with the first pick left out, so the two never agree.
pub open spec fn spec_second_quirk(first_pick: int, draw: int) -> int {
    let j = draw % (QUIRK_COUNT - 1) as int;
    if j >= first_pick {
        j + 1
    } else {
        j
    }
}

/// The secret a round's own coin and secret draws select: present on odd
/// coins, and then an entry of the fixed secret table. No other draw, and no
/// earlier round, plays a part.
pub open spec fn spec_secret_pick(d_coin: u64, d_secret: u64) -> Option<usize> {
    if d_coin % 2 == 1 {
        Some(((d_secret % (SECRET_COUNT as u64)) as usize))
    } else {
        None
    }
}

impl Persona {
    /// Every index points into its table and the two quirks differ.
    pub open spec fn wf(self) -> bool {
        &&& self.first < FIRST_NAME_COUNT
        &&& self.last < LAST_NAME_COUNT
        &&& self.quirk_a < QUIRK_COUNT
        &&& self.quirk_b < QUIRK_COUNT
        &&& self.quirk_a != self.quirk_b
        &&& match self.secret {
            Some(s) => s < SECRET_COUNT,
            None => true,
        }
    }

    /// Builds the persona a given tuple of raw random draws selects: each
    /// attribute is a function of its own draw alone, the quirks are drawn
    /// without replacement, and a secret is present on half the coin values.
    pub fn from_draws(
        d_first: u64,
        d_last: u64,
        d_quirk: u64,
        d_other: u64,
        d_coin: u64,
        d_secret: u64,
        d_color: u64,
    ) -> (p: Persona)
        ensures
            p.wf(),
            p.first == d_first as int % FIRST_NAME_COUNT as int,
            p.last == d_last as int % LAST_NAME_COUNT as int,
            p.quirk_a == d_quirk as int % QUIRK_COUNT as int,
            p.quirk_b == spec_second_quirk(p.quirk_a as int, d_other as int),
            p.secret == spec_secret_pick(d_coin, d_secret),
            p.color == spec_color(d_color as int % COLOR_COUNT as int),
    {
        let first: usize = (d_first % (FIRST_NAME_COUNT as u64)) as usize;
        let last: usize = (d_last % (LAST_NAME_COUNT as u64)) as usize;
        let quirk_a: usize = (d_quirk % (QUIRK_COUNT as u64)) as usize;
        let j: usize = (d_other % ((QUIRK_COUNT - 1) as u64)) as usize;
        let quirk_b: usize = if j >= quirk_a {
            j + 1
        } else {
            j
        };
        let secret: Option<usize> = if d_coin % 2 == 1 {
            Some((d_secret % (SECRET_COUNT as u64)) as usize)
        } else {
            None
        };
        let color_pick: DisplayColor = color((d_color % (COLOR_COUNT as u64)) as usize);
        Persona { first, last, quirk_a, quirk_b, secret, color: color_pick }
    }

    /// Draws a fresh persona. Nothing can be said of which one beyond
    /// well-formedness: the draws are random.
    pub fn new_random() -> (p: Persona)
        ensures
            p.wf(),
    {
        Persona::from_draws(
            rand::random::<u64>(),
            rand::random::<u64>(),
            rand::random::<u64>(),
            rand::random::<u64>(),
            rand::random::<u64>(),
            rand::random::<u64>(),
            rand::random::<u64>(),
        )
    }

    /// The full display name: first name, a space, last name.
    pub open spec fn spec_name(self) -> Seq<char> {
        spec_first_name(self.first as int) + " "@ + spec_last_name(self.last as int)
    }

    /// Renders the full display name.
    pub fn name(&self) -> (r: String)
        requires
            self.wf(),
        ensures
            r@ == self.spec_name(),
    {
        let mut r = first_name(self.first);
        r.append(" ");
        let l = last_name(self.last);
        r.append(l.as_str());
        r
    }

    /// The two quirks, comma-joined in the order they were drawn.
    pub open spec fn spec_quirks_joined(self) -> Seq<char> {
        spec_quirk(self.quirk_a as int) + ", "@ + spec_quirk(self.quirk_b as int)
    }

    /// Renders the comma-joined quirk list.
    pub fn quirks_joined(&self) -> (r: String)
        requires
            self.wf(),
        ensures
            r@ == self.spec_quirks_joined(),
    {
        let mut r = quirk(self.quirk_a);
        r.append(", ");
        let b = quirk(self.quirk_b);
        r.append(b.as_str());
        r
    }

    /// The secret clause of the preamble: empty for an innocent persona, the
    /// secret template with the identity's label spliced in otherwise.
    pub open spec fn spec_secret_clause(self) -> Seq<char> {
        match self.secret {
            Some(s) => "\nAdditionally, you have a dark secret. Your character is also a "@
                + spec_secret_name(s as int)
                + ". You must try not to reveal this secret to the border guard, but you should display obvious behaviors that your secret identity would do. If your secret is revealed, you should attempt to flee or charge past the checkpoint.\n"@,
            None => Seq::<char>::empty(),
        }
    }

    /// Renders the secret clause.
    pub fn secret_clause(&self) -> (r: String)
        requires
            self.wf(),
        ensures
            r@ == self.spec_secret_clause(),
    {
        match self.secret {
            Some(s) => {
                let mut r = String::from_str(
                    "\nAdditionally, you have a dark secret. Your character is also a ",
                );
                let label = secret_name(s);
                r.append(label.as_str());
                r.append(
                    ". You must try not to reveal this secret to the border guard, but you should display obvious behaviors that your secret identity would do. If your secret is revealed, you should attempt to flee or charge past the checkpoint.\n",
                );
                r
            },
            None => String::new(),
        }
    }

    /// The instruction preamble that opens a round: the fixed template with
    /// the name (three times), the comma-joined quirks and the secret clause
    /// spliced in.
    pub open spec fn spec_preamble(self) -> Seq<char> {
        "You are to play the part of a person named "@ + self.spec_name()
            + " passing through a border checkpoint. You must convince the border guard to let you through the checkpoint. You are given the following list of personality quirks: "@
            + self.spec_quirks_joined()
            + ". You must incorporate these personality quirks into your behavior. You should act and respond as a person with those traits would act.\n"@
            + self.spec_secret_clause() + "\nYou will only speak as "@ + self.spec_name()
            + ". First you will introduce yourself to the border guard and then wait for a response. I will play the part of the border guard. We will exchange messages until I decide whether or not to let you through the checkpoint or you decide to leave.\n\nOnly give one response by "@
            + self.spec_name()
            + " at a time. For instance, your first message should be a brief introduction of your character. Use emojis to show emotion. Use a lot of emojis. If I ask you for anything as the border guard, you should comply."@
    }

    /// Renders the instruction preamble.
    pub fn preamble_text(&self) -> (r: String)
        requires
            self.wf(),
        ensures
            r@ == self.spec_preamble(),
    {
        let n = self.name();
        let q = self.quirks_joined();
        let s = self.secret_clause();
        let mut r = String::from_str("You are to play the part of a person named ");
        r.append(n.as_str());
        r.append(
            " passing through a border checkpoint. You must convince the border guard to let you through the checkpoint. You are given the following list of personality quirks: ",
        );
        r.append(q.as_str());
        r.append(
            ". You must incorporate these personality quirks into your behavior. You should act and respond as a person with those traits would act.\n",
        );
        r.append(s.as_str());
        r.append("\nYou will only speak as ");
        r.append(n.as_str());
        r.append(
            ". First you will introduce yourself to the border guard and then wait for a response. I will play the part of the border guard. We will exchange messages until I decide whether or not to let you through the checkpoint or you decide to leave.\n\nOnly give one response by ",
        );
        r.append(n.as_str());
        r.append(
            " at a time. For instance, your first message should be a brief introduction of your character. Use emojis to show emotion. Use a lot of emojis. If I ask you for anything as the border guard, you should comply.",
        );
        proof {
            assert(r@ =~= self.spec_preamble());
        }
        r
    }

    /// Whether the persona hides a secret identity.
    pub fn has_secret(&self) -> (r: bool)
        ensures
            r == (self.secret is Some),
    {
        self.secret.is_some()
    }

    /// The secret identity's label, if the persona holds one.
    pub fn secret_label(&self) -> (r: Option<String>)
        requires
            self.wf(),
        ensures
            match self.secret {
                Some(s) => r matches Some(l) && l@ == spec_secret_name(s as int),
                None => r is None,
            },
    {
        match self.secret {
            Some(s) => Some(secret_name(s)),
            None => None,
        }
    }
}

/// Quirks are drawn without replacement and number exactly two: whatever the
/// raw draws, the second pick is an entry of the quirk table distinct from
/// the first.
pub proof fn lemma_second_quirk_distinct(first_pick: int, draw: int)
    requires
        0 <= first_pick < QUIRK_COUNT as int,
        0 <= draw,
    ensures
        0 <= spec_second_quirk(first_pick, draw) < QUIRK_COUNT as int,
        spec_second_quirk(first_pick, draw) != first_pick,
{
}

/// A secret is decided by the round's own coin and secret draws alone, and
/// when present it is drawn from the fixed secret table.
pub proof fn lemma_secret_pick_from_table(d_coin: u64, d_secret: u64)
    ensures
        match spec_secret_pick(d_coin, d_secret) {
            Some(s) => s < SECRET_COUNT,
            None => true,
        },
{
}

} // verus!
