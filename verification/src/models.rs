use vstd::prelude::*;

verus! {

/// The kinds of vehicles that the MVG APIs report.
#[derive(Debug, Clone, Copy, PartialEq, Eq, Structural)]
pub enum TransportType {
    Bahn,
    Sbahn,
    Ubahn,
    Tram,
    Bus,
    RegionalBus,
    Sev,
    Schiff,
}

/// The human readable name of a transport type.
pub open spec fn label_of(t: TransportType) -> Seq<char> {
    match t {
        TransportType::Bahn => "Bahn"@,
        TransportType::Sbahn => "S-Bahn"@,
        TransportType::Ubahn => "U-Bahn"@,
        TransportType::Tram => "Tram"@,
        TransportType::Bus => "Bus"@,
        TransportType::RegionalBus => "Regionalbus"@,
        TransportType::Sev => "SEV"@,
        TransportType::Schiff => "Schiff"@,
    }
}

/// The icon name of a transport type; every road vehicle shares the bus icon.
pub open spec fn icon_of(t: TransportType) -> Seq<char> {
    match t {
        TransportType::Bahn => "mdi:train"@,
        TransportType::Sbahn => "mdi:subway-variant"@,
        TransportType::Ubahn => "mdi:subway"@,
        TransportType::Tram => "mdi:tram"@,
        _ => "mdi:bus"@,
    }
}

impl TransportType {
    pub fn label(&self) -> (r: &'static str)
        ensures
            r@ == label_of(*self),
    {
        match self {
            TransportType::Bahn => "Bahn",
            TransportType::Sbahn => "S-Bahn",
            TransportType::Ubahn => "U-Bahn",
            TransportType::Tram => "Tram",
            TransportType::Bus => "Bus",
            TransportType::RegionalBus => "Regionalbus",
            TransportType::Sev => "SEV",
            TransportType::Schiff => "Schiff",
        }
    }

    pub fn icon(&self) -> (r: &'static str)
        ensures
            r@ == icon_of(*self),
    {
        match self {
            TransportType::Bahn => "mdi:train",
            TransportType::Sbahn => "mdi:subway-variant",
            TransportType::Ubahn => "mdi:subway",
            TransportType::Tram => "mdi:tram",
            _ => "mdi:bus",
        }
    }
}


/// The code that the client sends in the departures API's `transportTypes`
/// filter: the variant's name as `Debug` prints it, in capitals. For
/// `RegionalBus` this is `REGIONALBUS`, which differs from the name the API
/// uses for that type in its answers (`REGIONAL_BUS`).
pub open spec fn api_code_of(t: TransportType) -> Seq<char> {
    match t {
        TransportType::Bahn => "BAHN"@,
        TransportType::Sbahn => "SBAHN"@,
        TransportType::Ubahn => "UBAHN"@,
        TransportType::Tram => "TRAM"@,
        TransportType::Bus => "BUS"@,
        TransportType::RegionalBus => "REGIONALBUS"@,
        TransportType::Sev => "SEV"@,
        TransportType::Schiff => "SCHIFF"@,
    }
}

impl TransportType {
    /// The filter code of this transport type (its name in capitals).
    pub fn api_code(&self) -> (r: &'static str)
        ensures
            r@ == api_code_of(*self),
    {
        match self {
            TransportType::Bahn => "BAHN",
            TransportType::Sbahn => "SBAHN",
            TransportType::Ubahn => "UBAHN",
            TransportType::Tram => "TRAM",
            TransportType::Bus => "BUS",
            TransportType::RegionalBus => "REGIONALBUS",
            TransportType::Sev => "SEV",
            TransportType::Schiff => "SCHIFF",
        }
    }
}

/// The filter codes are non-empty words of ASCII capitals (so they hold no
/// comma and the comma-separated filter can be read back), and no two
/// transport types share a code or a label.
pub proof fn lemma_codes_distinct(t: TransportType, u: TransportType)
    ensures
        api_code_of(t).len() >= 1,
        forall|i: int|
            0 <= i < api_code_of(t).len() ==> 'A' <= #[trigger] api_code_of(t)[i] && api_code_of(
                t,
            )[i] <= 'Z',
        t != u ==> api_code_of(t) != api_code_of(u),
        t != u ==> label_of(t) != label_of(u),
{
    reveal_strlit("BAHN");
    reveal_strlit("SBAHN");
    reveal_strlit("UBAHN");
    reveal_strlit("TRAM");
    reveal_strlit("BUS");
    reveal_strlit("REGIONALBUS");
    reveal_strlit("SEV");
    reveal_strlit("SCHIFF");
    reveal_strlit("Bahn");
    reveal_strlit("S-Bahn");
    reveal_strlit("U-Bahn");
    reveal_strlit("Tram");
    reveal_strlit("Bus");
    reveal_strlit("Regionalbus");
    reveal_strlit("SEV");
    reveal_strlit("Schiff");
    if t != u {
        assert(api_code_of(t).len() != api_code_of(u).len() || api_code_of(t)[0] != api_code_of(
            u,
        )[0] || api_code_of(t)[1] != api_code_of(u)[1]);
        assert(label_of(t).len() != label_of(u).len() || label_of(t)[0] != label_of(u)[0]
            || label_of(t)[1] != label_of(u)[1]);
    }
}

/// A station as the ZDM master data lists it.
#[derive(Debug, Clone)]
pub struct ZdmStation {
    pub name: String,
    pub place: String,
    pub id: String,
}

/// One departure from a station.
#[derive(Debug, Clone)]
pub struct Departure {
    /// Expected departure, in milliseconds since the Unix epoch.
    pub time_ms: i64,
    /// Planned departure, in milliseconds since the Unix epoch.
    pub planned_ms: i64,
    pub delay_in_minutes: Option<i32>,
    pub platform: Option<String>,
    pub realtime: bool,
    pub label: String,
    pub destination: String,
    pub transport_type: TransportType,
    pub cancelled: bool,
    pub messages: Vec<String>,
}

} // verus!
