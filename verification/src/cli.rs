//! Input resolution: each of the archive directory, the watch list and the
//! build command is what was given explicitly, else the default of the
//! detected toolchain profile, else an error.

use crate::lang::texts;
use crate::lang::Lang;
use vstd::prelude::*;

verus! {

/// An input was neither given nor to be had from a detected profile.
#[derive(Debug, Clone, PartialEq, Eq)]
pub enum FamoError {
    MissedOption { description: String },
}

pub open spec fn archive_missing() -> Seq<char> {
    "Archived directory is not specified. (--archive=[directory])\nYou can see help messages by 'famo -h'"@
}

pub open spec fn watches_missing() -> Seq<char> {
    "Watched files are not specified.\nYou can see help messages by 'famo -h'"@
}

pub open spec fn command_missing() -> Seq<char> {
    "Build command is not specified. (--command=\"build command\")\nYou can see help messages by 'famo -h'"@
}

/// The directory to archive: the one given, else the profile's.
pub fn archive<'a>(given: Option<&'a str>, lang: &'a Option<Lang>) -> (r: Result<
    &'a str,
    FamoError,
>)
    ensures
        match r {
            Ok(dir) => match given {
                Some(g) => dir@ == g@,
                None => lang is Some && dir@ == lang->0@.build,
            },
            Err(FamoError::MissedOption { description }) => given is None && lang is None
                && description@ == archive_missing(),
        },
{
    if let Some(archive) = given {
        return Ok(archive);
    }
    if let Some(lang) = lang {
        return Ok(*lang.build());
    }
    Err(
        FamoError::MissedOption {
            description: "Archived directory is not specified. (--archive=[directory])\nYou can see help messages by 'famo -h'".to_owned(),
        },
    )
}

/// The paths to watch: those given, else the profile's marker files.
pub fn watches<'a>(given: Option<Vec<&'a str>>, lang: &Option<Lang>) -> (r: Result<
    Vec<&'a str>,
    FamoError,
>)
    ensures
        match r {
            Ok(paths) => match given {
                Some(g) => paths@ == g@,
                None => lang is Some && paths@.map_values(|p: &'a str| p@) == lang->0@.watches,
            },
            Err(FamoError::MissedOption { description }) => given is None && lang is None
                && description@ == watches_missing(),
        },
{
    if let Some(watches) = given {
        return Ok(watches);
    }
    if let Some(lang) = lang {
        let defaults = lang.watches();
        let mut paths: Vec<&'a str> = Vec::new();
        let mut i: usize = 0;
        while i < defaults.len()
            invariant
                i <= defaults.len(),
                paths@.len() == i,
                forall|k: int| 0 <= k < i ==> paths@[k]@ == defaults@[k]@,
            decreases defaults.len() - i,
        {
            let path: &'static str = defaults[i];
            paths.push(path);
            i = i + 1;
        }
        proof {
            assert(paths@.map_values(|p: &'a str| p@) =~= texts(defaults@));
        }
        return Ok(paths);
    }
    Err(
        FamoError::MissedOption {
            description: "Watched files are not specified.\nYou can see help messages by 'famo -h'".to_owned(),
        },
    )
}

/// The build command: the one given, else the profile's.
pub fn command<'a>(given: Option<&'a str>, lang: &'a Option<Lang>) -> (r: Result<
    &'a str,
    FamoError,
>)
    ensures
        match r {
            Ok(line) => match given {
                Some(g) => line@ == g@,
                None => lang is Some && line@ == lang->0@.command,
            },
            Err(FamoError::MissedOption { description }) => given is None && lang is None
                && description@ == command_missing(),
        },
{
    if let Some(command) = given {
        return Ok(command);
    }
    if let Some(lang) = lang {
        return Ok(*lang.command());
    }
    Err(
        FamoError::MissedOption {
            description: "Build command is not specified. (--command=\"build command\")\nYou can see help messages by 'famo -h'".to_owned(),
        },
    )
}

} // verus!
