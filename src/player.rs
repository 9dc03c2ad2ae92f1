//! Locating the save snapshot and assembling the player state.

use vstd::prelude::*;
use crate::save_parser::{level_of, parse_save, scan, SaveField, SaveFields};
use crate::text::{chars_of, contains, contains_exec};

verus! {

/// The global-settings assignment that marks the text save format.
pub const SAVE_FORMAT_SETTING: &'static str = "uset g_save_format \"2\"";

/// The error given when no save slot can be read.
pub const NO_SAVE_MESSAGE: &'static str = "Couldn't read save. Make a quick save in-game.";

/// The player's progression as read from one save snapshot.
pub struct PlayerState {
    pub level: u32,
    pub skills: Vec<String>,
    pub discovered_cities: Vec<String>,
    pub owned_trailers: Vec<String>,
    pub save_format_ok: bool,
}

/// The compatibility flag for the global settings text, `None` when it
/// could not be read.
pub open spec fn format_flag(config: Option<String>) -> bool {
    match config {
        Some(c) => contains(c@, SAVE_FORMAT_SETTING@),
        None => false,
    }
}

/// `p` is the state read from save text `save` under compatibility flag `ok`.
pub open spec fn describes(p: PlayerState, save: Seq<char>, ok: bool) -> bool {
    &&& p.level == level_of(save)
    &&& p.skills.deep_view() == scan(save, 0, SaveField::SkillPoints)
    &&& p.discovered_cities.deep_view() == scan(save, 0, SaveField::CityDiscovered)
    &&& p.owned_trailers.deep_view() == scan(save, 0, SaveField::OwnedTrailer)
    &&& p.save_format_ok == ok
}

/// The first slot that holds a text, in slot order.
pub open spec fn first_some(slots: Seq<Option<String>>) -> Option<String>
    decreases slots.len(),
{
    if slots.len() == 0 {
        None
    } else if slots[0] is Some {
        slots[0]
    } else {
        first_some(slots.drop_first())
    }
}

/// The sub-directories of a profile's `save` directory that may hold a
/// snapshot, most preferred first: quick save, autosave, job autosave.
pub fn save_slot_dirs() -> (r: Vec<&'static str>)
    ensures
        r@.len() == 3,
        r@[0]@ == "quick"@,
        r@[1]@ == "autosave"@,
        r@[2]@ == "autosave_job"@,
{
    let mut v: Vec<&'static str> = Vec::new();
    v.push("quick");
    v.push("autosave");
    v.push("autosave_job");
    v
}

/// Whether the global settings text turns the text save format on.
pub fn save_format_ok(config: &str) -> (r: bool)
    ensures
        r == contains(config@, SAVE_FORMAT_SETTING@),
{
    contains_exec(&chars_of(config), &chars_of(SAVE_FORMAT_SETTING))
}

/// The text of the first readable slot; `slots` holds, in priority order,
/// what each candidate held (`None` for one that could not be read).
pub fn locate_save(slots: &Vec<Option<String>>) -> (r: Option<String>)
    ensures
        r == first_some(slots@),
{
    let mut i: usize = 0;
    proof {
        assert(slots@.skip(0) =~= slots@);
    }
    while i < slots.len()
        invariant
            i <= slots.len(),
            first_some(slots@.skip(i as int)) == first_some(slots@),
        decreases slots.len() - i,
    {
        proof {
            assert(slots@.skip(i as int).drop_first() =~= slots@.skip(i + 1));
        }
        match &slots[i] {
            Some(t) => {
                return Some(t.clone());
            },
            None => {},
        }
        i += 1;
    }
    proof {
        assert(slots@.skip(i as int).len() == 0);
    }
    None
}

/// Combines the scraped fields with the compatibility flag.
pub fn assemble(raw: SaveFields, save_format_ok: bool) -> (r: PlayerState)
    ensures
        r.level == raw.level,
        r.skills == raw.skills,
        r.discovered_cities == raw.discovered_cities,
        r.owned_trailers == raw.owned_trailers,
        r.save_format_ok == save_format_ok,
{
    PlayerState {
        level: raw.level,
        skills: raw.skills,
        discovered_cities: raw.discovered_cities,
        owned_trailers: raw.owned_trailers,
        save_format_ok,
    }
}

/// The player state from the slot texts (in priority order, `None` where a
/// slot could not be read) and the global settings text (`None` where it
/// could not be read); fails only when no slot could be read.
pub fn resolve_player_state(slots: &Vec<Option<String>>, config: &Option<String>) -> (r: Result<
    PlayerState,
    String,
>)
    ensures
        first_some(slots@) is Some <==> r is Ok,
        r is Ok ==> describes(r->Ok_0, first_some(slots@)->0@, format_flag(*config)),
        r is Ok ==> r->Ok_0.level >= 1,
        r is Err ==> r->Err_0@ == NO_SAVE_MESSAGE@,
{
    let ok = match config {
        Some(c) => save_format_ok(c.as_str()),
        None => false,
    };
    match locate_save(slots) {
        Some(text) => {
            let raw = parse_save(text.as_str());
            Ok(assemble(raw, ok))
        },
        None => Err(NO_SAVE_MESSAGE.to_owned()),
    }
}

/// Reading the same save text under the same settings twice gives the same
/// state.
pub proof fn player_state_is_deterministic(
    p1: PlayerState,
    p2: PlayerState,
    save: Seq<char>,
    ok: bool,
)
    requires
        describes(p1, save, ok),
        describes(p2, save, ok),
    ensures
        p1.level == p2.level,
        p1.skills.deep_view() == p2.skills.deep_view(),
        p1.discovered_cities.deep_view() == p2.discovered_cities.deep_view(),
        p1.owned_trailers.deep_view() == p2.owned_trailers.deep_view(),
        p1.save_format_ok == p2.save_format_ok,
{
}

} // verus!
