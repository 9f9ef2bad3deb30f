//! Where the player's files are: the configuration file and the station file, from the
//! directories the environment names. Reading the environment and the files is the
//! caller's part.
use crate::paths::{join, path_join};
use crate::text::owned;
use vstd::prelude::*;

verus! {

/// The configuration file: under `$XDG_CONFIG_HOME` when it is set, else under
/// `$HOME/.config`, else `config.json` in the working directory.
pub open spec fn config_file_spec(xdg: Option<Seq<char>>, home: Option<Seq<char>>) -> Seq<char> {
    match xdg {
        Some(x) => path_join(x, "cohors/config.json"@),
        None => match home {
            Some(h) => path_join(h, ".config/cohors/config.json"@),
            None => "config.json"@,
        },
    }
}

/// The configuration file, from the values of `XDG_CONFIG_HOME` and `HOME` (none when unset).
pub fn config_file(xdg: Option<&str>, home: Option<&str>) -> (p: String)
    ensures
        p@ == config_file_spec(
            match xdg {
                Some(x) => Some(x@),
                None => None,
            },
            match home {
                Some(h) => Some(h@),
                None => None,
            },
        ),
{
    match xdg {
        Some(x) => join(x, "cohors/config.json"),
        None => match home {
            Some(h) => join(h, ".config/cohors/config.json"),
            None => owned("config.json"),
        },
    }
}

/// Where the station list is looked for.
#[derive(Debug)]
pub enum StationFileLookup {
    /// The file given on the command line, and nothing else.
    Given(String),
    /// These files, in order: the first that exists is read.
    Search(Vec<String>),
}

/// The station file: the one given, else `stations.config.json` under `~/.config/cohors`
/// (when the home directory is known), else in the directory `cwd` (the working directory
/// when none is given).
pub fn station_file_lookup(given: Option<String>, home: Option<&str>, cwd: Option<&str>) -> (r: StationFileLookup)
    ensures
        match given {
            Some(g) => r == StationFileLookup::Given(g),
            None => r matches StationFileLookup::Search(v) && v@.map_values(|p: String| p@) == (match home {
                Some(h) => seq![path_join(h@, ".config/cohors/stations.config.json"@)],
                None => Seq::<Seq<char>>::empty(),
            }) + seq![path_join(
                match cwd {
                    Some(c) => c@,
                    None => "."@,
                },
                "stations.config.json"@,
            )],
        },
{
    match given {
        Some(g) => StationFileLookup::Given(g),
        None => {
            let mut v: Vec<String> = Vec::new();
            match home {
                Some(h) => v.push(join(h, ".config/cohors/stations.config.json")),
                None => {},
            }
            let dir = match cwd {
                Some(c) => owned(c),
                None => owned("."),
            };
            let ghost head = v@.map_values(|p: String| p@);
            v.push(join(dir.as_str(), "stations.config.json"));
            assert(v@.map_values(|p: String| p@) =~= head + seq![path_join(dir@, "stations.config.json"@)]);
            StationFileLookup::Search(v)
        },
    }
}

} // verus!
