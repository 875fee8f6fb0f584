//! The fixed candidate tables a persona is drawn from: first and last names,
//! personality quirks, secret identities, and the display colours.

use vstd::prelude::*;

verus! {

/// Number of entries in the first-name table.
pub const FIRST_NAME_COUNT: usize = 6;

/// Number of entries in the last-name table.
pub const LAST_NAME_COUNT: usize = 6;

/// Number of entries in the quirk table.
pub const QUIRK_COUNT: usize = 6;

/// Number of entries in the secret-identity table.
pub const SECRET_COUNT: usize = 4;

/// Number of display colours a persona can be shown in.
pub const COLOR_COUNT: usize = 6;

/// The first-name table, as the contracts see it.
pub open spec fn spec_first_name(i: int) -> Seq<char> {
    if i == 0 {
        "Viktor"@
    } else if i == 1 {
        "Anya"@
    } else if i == 2 {
        "Boris"@
    } else if i == 3 {
        "Milena"@
    } else if i == 4 {
        "Dmitri"@
    } else {
        "Sofia"@
    }
}

/// Looks a first name up in the fixed table.
pub fn first_name(i: usize) -> (r: String)
    requires
        i < FIRST_NAME_COUNT,
    ensures
        r@ == spec_first_name(i as int),
{
    if i == 0 {
        String::from_str("Viktor")
    } else if i == 1 {
        String::from_str("Anya")
    } else if i == 2 {
        String::from_str("Boris")
    } else if i == 3 {
        String::from_str("Milena")
    } else if i == 4 {
        String::from_str("Dmitri")
    } else {
        String::from_str("Sofia")
    }
}

/// The last-name table, as the contracts see it.
pub open spec fn spec_last_name(i: int) -> Seq<char> {
    if i == 0 {
        "Petrov"@
    } else if i == 1 {
        "Kovacs"@
    } else if i == 2 {
        "Marek"@
    } else if i == 3 {
        "Novak"@
    } else if i == 4 {
        "Dragomir"@
    } else {
        "Laszlo"@
    }
}

/// Looks a last name up in the fixed table.
pub fn last_name(i: usize) -> (r: String)
    requires
        i < LAST_NAME_COUNT,
    ensures
        r@ == spec_last_name(i as int),
{
    if i == 0 {
        String::from_str("Petrov")
    } else if i == 1 {
        String::from_str("Kovacs")
    } else if i == 2 {
        String::from_str("Marek")
    } else if i == 3 {
        String::from_str("Novak")
    } else if i == 4 {
        String::from_str("Dragomir")
    } else {
        String::from_str("Laszlo")
    }
}

/// The quirk table, as the contracts see it.
pub open spec fn spec_quirk(i: int) -> Seq<char> {
    if i == 0 {
        "speaks only in questions"@
    } else if i == 1 {
        "is obsessed with pigeons"@
    } else if i == 2 {
        "laughs nervously at everything"@
    } else if i == 3 {
        "name-drops famous people constantly"@
    } else if i == 4 {
        "insists it is about to rain"@
    } else {
        "whispers dramatically"@
    }
}

/// Looks a personality quirk up in the fixed table.
pub fn quirk(i: usize) -> (r: String)
    requires
        i < QUIRK_COUNT,
    ensures
        r@ == spec_quirk(i as int),
{
    if i == 0 {
        String::from_str("speaks only in questions")
    } else if i == 1 {
        String::from_str("is obsessed with pigeons")
    } else if i == 2 {
        String::from_str("laughs nervously at everything")
    } else if i == 3 {
        String::from_str("name-drops famous people constantly")
    } else if i == 4 {
        String::from_str("insists it is about to rain")
    } else {
        String::from_str("whispers dramatically")
    }
}

/// The secret-identity table, as the contracts see it.
pub open spec fn spec_secret_name(i: int) -> Seq<char> {
    if i == 0 {
        "smuggler"@
    } else if i == 1 {
        "spy"@
    } else if i == 2 {
        "vampire"@
    } else {
        "werewolf"@
    }
}

/// Looks a secret identity up in the fixed table.
pub fn secret_name(i: usize) -> (r: String)
    requires
        i < SECRET_COUNT,
    ensures
        r@ == spec_secret_name(i as int),
{
    if i == 0 {
        String::from_str("smuggler")
    } else if i == 1 {
        String::from_str("spy")
    } else if i == 2 {
        String::from_str("vampire")
    } else {
        String::from_str("werewolf")
    }
}

/// The colour a persona's name is shown in at the terminal. The binary maps
/// each variant onto its terminal colour code; the library only picks one.
#[derive(Clone, Copy, Debug, PartialEq, Eq, Structural)]
pub enum DisplayColor {
    Red,
    Green,
    Yellow,
    Blue,
    Magenta,
    Cyan,
}

/// The colour table, as the contracts see it.
pub open spec fn spec_color(i: int) -> DisplayColor {
    if i == 0 {
        DisplayColor::Red
    } else if i == 1 {
        DisplayColor::Green
    } else if i == 2 {
        DisplayColor::Yellow
    } else if i == 3 {
        DisplayColor::Blue
    } else if i == 4 {
        DisplayColor::Magenta
    } else {
        DisplayColor::Cyan
    }
}

/// Looks a display colour up in the fixed table.
pub fn color(i: usize) -> (r: DisplayColor)
    requires
        i < COLOR_COUNT,
    ensures
        r == spec_color(i as int),
{
    if i == 0 {
        DisplayColor::Red
    } else if i == 1 {
        DisplayColor::Green
    } else if i == 2 {
        DisplayColor::Yellow
    } else if i == 3 {
        DisplayColor::Blue
    } else if i == 4 {
        DisplayColor::Magenta
    } else {
        DisplayColor::Cyan
    }
}

} // verus!
