//! The commands of the command line front end.

use vstd::prelude::*;

verus! {

/// How many departures the `departures` command shows unless told otherwise.
pub const DEFAULT_DEPARTURE_LIMIT: usize = 5;

/// The parsed command line.
pub struct Cli {
    pub command: Commands,
}

pub enum Commands {
    /// Look up departures for a specific station.
    Departures(DeparturesArgs),
    /// Fetch all favourites and show them.
    Monitor,
    /// Manage the favourite stations.
    Fav(FavArgs),
}

pub struct DeparturesArgs {
    /// Station name or global identifier.
    pub station: String,
    /// How many departures to show.
    pub limit: usize,
}

pub struct FavArgs {
    pub command: FavCommands,
}

pub enum FavCommands {
    /// List all saved favourites.
    List,
    /// Add a new favourite.
    Add {
        /// The name of the station to search for.
        station_query: String,
        /// A short name for this favourite (e.g. "Work").
        alias: String,
        /// Only show departures heading towards this direction (substring match).
        direction: Option<String>,
    },
    /// Remove a favourite by alias.
    Remove { alias: String },
}

} // verus!
