//! The station directory: a fixed table from identifiers to streams.

use vstd::prelude::*;

verus! {

/// What a [`Station`] holds, as mathematical values.
pub struct StationView {
    pub url: Seq<char>,
    pub name: Seq<char>,
    pub uuid: Seq<char>,
}

/// A radio station: the address of its stream, its display name, and the
/// identifier by which callers ask for it.
#[derive(Clone)]
pub struct Station {
    url: String,
    name: String,
    uuid: String,
}

impl View for Station {
    type V = StationView;

    closed spec fn view(&self) -> StationView {
        StationView { url: self.url@, name: self.name@, uuid: self.uuid@ }
    }
}

impl Station {
    /// Builds a station from its three texts.
    pub fn new(url: &str, name: &str, uuid: &str) -> (station: Station)
        ensures
            station@ == (StationView { url: url@, name: name@, uuid: uuid@ }),
    {
        Station { url: url.to_owned(), name: name.to_owned(), uuid: uuid.to_owned() }
    }

    /// The address of the station's stream.
    pub fn get_url(&self) -> (url: &str)
        ensures
            url@ == self@.url,
    {
        self.url.as_str()
    }

    /// The station's display name.
    pub fn get_name(&self) -> (name: &str)
        ensures
            name@ == self@.name,
    {
        self.name.as_str()
    }

    /// The identifier the station is looked up by.
    pub fn get_uuid(&self) -> (uuid: &str)
        ensures
            uuid@ == self@.uuid,
    {
        self.uuid.as_str()
    }
}

/// The directory as a sequence of station values, in listing order.
pub open spec fn station_directory() -> Seq<StationView> {
    seq![
        StationView {
            url: "https://router.euddn.net/8103046e16b71d15d692b57c187875c7/elmar.aac"@,
            name: "Elmar"@,
            uuid: "test-uuid-1"@,
        },
        StationView {
            url: "https://stream.skymedia.ee/live/relax"@,
            name: "Relax FM"@,
            uuid: "test-uuid-2"@,
        },
    ]
}

/// The views of a list of stations, in order.
pub open spec fn station_views(stations: Seq<Station>) -> Seq<StationView> {
    Seq::new(stations.len(), |i: int| stations[i]@)
}

/// The position of the first entry of `directory` whose identifier is
/// `uuid`, counted from `from`; the length of `directory` when there is none.
pub open spec fn first_match(directory: Seq<StationView>, uuid: Seq<char>, from: int) -> int
    decreases directory.len() - from,
{
    if from < 0 || from >= directory.len() {
        directory.len() as int
    } else if directory[from].uuid == uuid {
        from
    } else {
        first_match(directory, uuid, from + 1)
    }
}

/// The first entry of `directory` whose identifier is `uuid`, if any.
pub open spec fn lookup(directory: Seq<StationView>, uuid: Seq<char>) -> Option<StationView> {
    let at = first_match(directory, uuid, 0);
    if at < directory.len() {
        Some(directory[at])
    } else {
        None
    }
}

/// `first_match` lands on a matching entry, or past the end when no entry
/// from `from` on matches.
proof fn lemma_first_match(directory: Seq<StationView>, uuid: Seq<char>, from: int)
    requires
        0 <= from <= directory.len(),
    ensures
        from <= first_match(directory, uuid, from) <= directory.len(),
        first_match(directory, uuid, from) < directory.len() ==> directory[first_match(
            directory,
            uuid,
            from,
        )].uuid == uuid,
        forall|i: int|
            from <= i < first_match(directory, uuid, from) ==> directory[i].uuid != uuid,
    decreases directory.len() - from,
{
    if from < directory.len() && directory[from].uuid != uuid {
        lemma_first_match(directory, uuid, from + 1);
    }
}

/// A lookup finds an entry with the identifier asked for, and the first
/// such entry; it finds nothing exactly when no entry has that identifier.
pub proof fn lemma_lookup(directory: Seq<StationView>, uuid: Seq<char>)
    ensures
        lookup(directory, uuid) matches Some(station) ==> station.uuid == uuid && exists|i: int|
            0 <= i < directory.len() && directory[i] == station && forall|j: int|
                0 <= j < i ==> directory[j].uuid != uuid,
        lookup(directory, uuid) is None <==> forall|i: int|
            0 <= i < directory.len() ==> directory[i].uuid != uuid,
{
    lemma_first_match(directory, uuid, 0);
}

/// In the directory of this library no two stations share an identifier,
/// so a lookup by a station's own identifier finds that station.
pub proof fn lemma_directory_is_keyed()
    ensures
        forall|i: int, j: int|
            0 <= i < j < station_directory().len() ==> station_directory()[i].uuid
                != station_directory()[j].uuid,
        forall|i: int|
            0 <= i < station_directory().len() ==> lookup(
                station_directory(),
                #[trigger] station_directory()[i].uuid,
            ) == Some(station_directory()[i]),
{
    reveal_strlit("test-uuid-1");
    reveal_strlit("test-uuid-2");
    let directory = station_directory();
    assert(directory[0].uuid != directory[1].uuid) by {
        assert(directory[0].uuid[10] == '1');
        assert(directory[1].uuid[10] == '2');
    }
    assert(first_match(directory, directory[1].uuid, 1) == 1);
}

/// All known stations, in listing order.
pub fn get_stations() -> (stations: Vec<Station>)
    ensures
        station_views(stations@) == station_directory(),
{
    let mut stations: Vec<Station> = Vec::new();
    stations.push(
        Station::new(
            "https://router.euddn.net/8103046e16b71d15d692b57c187875c7/elmar.aac",
            "Elmar",
            "test-uuid-1",
        ),
    );
    stations.push(Station::new("https://stream.skymedia.ee/live/relax", "Relax FM", "test-uuid-2"));
    stations
}

/// The station with the given identifier: the first such entry of the
/// directory, or `None` when the directory has no entry with it.
pub fn get_station_by_uuid(uuid: &str) -> (found: Option<Station>)
    ensures
        match found {
            Some(station) => lookup(station_directory(), uuid@) == Some(station@),
            None => lookup(station_directory(), uuid@) is None,
        },
{
    let mut stations = get_stations();
    let wanted = uuid.to_owned();
    let mut i: usize = 0;
    while i < stations.len()
        invariant
            i <= stations.len(),
            wanted@ == uuid@,
            station_views(stations@) == station_directory(),
            first_match(station_directory(), uuid@, 0) == first_match(
                station_directory(),
                uuid@,
                i as int,
            ),
        decreases stations.len() - i,
    {
        if stations[i].uuid == wanted {
            let station = stations.swap_remove(i);
            return Some(station);
        }
        i += 1;
    }
    None
}

} // verus!
