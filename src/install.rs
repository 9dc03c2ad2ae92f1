//! Choosing the game's install directory and reading content-package flags.

use vstd::prelude::*;

verus! {

/// The install directory used when neither the caller nor the registry gives one.
pub const DEFAULT_INSTALL: &'static str = "C:\\Program Files (x86)\\Steam\\steamapps\\common\\Euro Truck Simulator 2";

/// The install sub-directory that holds the content-package markers.
pub const DLC_DIR: &'static str = "dlc";

/// The number of optional content packages probed.
pub const DLC_COUNT: usize = 11;

/// The install directory chosen from an explicit path and a registry result
/// (already checked to exist), in that priority, else the default.
pub open spec fn resolved_install(explicit: Option<String>, registry: Option<String>) -> Seq<char> {
    match explicit {
        Some(e) => e@,
        None => match registry {
            Some(p) => p@,
            None => DEFAULT_INSTALL@,
        },
    }
}

/// Picks the install directory: `explicit` verbatim when given, else the
/// registry's directory when it was found on disk, else [`DEFAULT_INSTALL`].
pub fn resolve_install(explicit: Option<String>, registry: Option<String>) -> (r: String)
    ensures
        r@ == resolved_install(explicit, registry),
        explicit is Some ==> r@ == explicit->0@,
        explicit is None && registry is None ==> r@ == DEFAULT_INSTALL@,
{
    match explicit {
        Some(e) => e,
        None => match registry {
            Some(p) => p,
            None => DEFAULT_INSTALL.to_owned(),
        },
    }
}

/// Which optional content packages are installed.
pub struct DlcFlags {
    pub base: bool,
    pub heavy_cargo: bool,
    pub special_transport: bool,
    pub east: bool,
    pub north: bool,
    pub fr: bool,
    pub it: bool,
    pub balt: bool,
    pub rbs: bool,
    pub iberia: bool,
    pub wb: bool,
    pub greece: bool,
}

/// The marker file of each package, in the order of [`dlc_flags`]'s input.
pub fn dlc_marker_files() -> (r: Vec<&'static str>)
    ensures
        r@.len() == DLC_COUNT,
        r@[0]@ == "dlc_heavy_cargo.scs"@,
        r@[1]@ == "dlc_oversize.scs"@,
        r@[2]@ == "dlc_east.scs"@,
        r@[3]@ == "dlc_north.scs"@,
        r@[4]@ == "dlc_fr.scs"@,
        r@[5]@ == "dlc_it.scs"@,
        r@[6]@ == "dlc_balt.scs"@,
        r@[7]@ == "dlc_blke.scs"@,
        r@[8]@ == "dlc_iberia.scs"@,
        r@[9]@ == "dlc_westbalkans.scs"@,
        r@[10]@ == "dlc_greece.scs"@,
{
    let mut v: Vec<&'static str> = Vec::new();
    v.push("dlc_heavy_cargo.scs");
    v.push("dlc_oversize.scs");
    v.push("dlc_east.scs");
    v.push("dlc_north.scs");
    v.push("dlc_fr.scs");
    v.push("dlc_it.scs");
    v.push("dlc_balt.scs");
    v.push("dlc_blke.scs");
    v.push("dlc_iberia.scs");
    v.push("dlc_westbalkans.scs");
    v.push("dlc_greece.scs");
    v
}

/// Whether marker `k` was found; a missing entry counts as not found.
pub open spec fn found(present: Seq<bool>, k: int) -> bool {
    0 <= k < present.len() && present[k]
}

fn found_exec(present: &Vec<bool>, k: usize) -> (r: bool)
    ensures
        r == found(present@, k as int),
{
    k < present.len() && present[k]
}

/// The flags for a probe in which `present[k]` tells whether the `k`-th marker
/// of [`dlc_marker_files`] exists; `base` is set whenever a probe was made.
pub fn dlc_flags(present: &Vec<bool>) -> (r: DlcFlags)
    ensures
        r.base,
        r.heavy_cargo == found(present@, 0),
        r.special_transport == found(present@, 1),
        r.east == found(present@, 2),
        r.north == found(present@, 3),
        r.fr == found(present@, 4),
        r.it == found(present@, 5),
        r.balt == found(present@, 6),
        r.rbs == found(present@, 7),
        r.iberia == found(present@, 8),
        r.wb == found(present@, 9),
        r.greece == found(present@, 10),
{
    DlcFlags {
        base: true,
        heavy_cargo: found_exec(present, 0),
        special_transport: found_exec(present, 1),
        east: found_exec(present, 2),
        north: found_exec(present, 3),
        fr: found_exec(present, 4),
        it: found_exec(present, 5),
        balt: found_exec(present, 6),
        rbs: found_exec(present, 7),
        iberia: found_exec(present, 8),
        wb: found_exec(present, 9),
        greece: found_exec(present, 10),
    }
}

} // verus!
