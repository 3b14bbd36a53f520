//! Data model: station records as they appear in search results and in the
//! persisted favorites / last-played entries.

use vstd::prelude::*;
use crate::text::{spec_trim, spec_dec, spec_join, trim_str, u32_to_string, join_strings};

verus! {

/// A station as stored in favorites and as the last-played entry.
/// Identity is the `stationuuid` alone; `name` is display text.
#[derive(Debug, Clone, PartialEq, Eq)]
pub struct StationRef {
    pub stationuuid: String,
    pub name: String,
}

/// Mathematical image of a [`StationRef`].
#[verifier::ext_equal]
pub ghost struct StationRefData {
    pub stationuuid: Seq<char>,
    pub name: Seq<char>,
}

impl View for StationRef {
    type V = StationRefData;

    open spec fn view(&self) -> StationRefData {
        StationRefData { stationuuid: self.stationuuid@, name: self.name@ }
    }
}

impl StationRef {
    /// An exact copy; unlike a derived `clone`, its contract says so.
    pub fn duplicate(&self) -> (r: Self)
        ensures
            r == *self,
    {
        StationRef { stationuuid: self.stationuuid.clone(), name: self.name.clone() }
    }
}

/// A full search-result record. Ephemeral: produced per search, never stored.
#[derive(Debug, Clone, PartialEq, Eq)]
pub struct Station {
    pub stationuuid: String,
    pub name: String,
    pub country: Option<String>,
    pub codec: Option<String>,
    pub bitrate: Option<u32>,
    pub votes: Option<u32>,
}

/// Mathematical image of a [`Station`].
#[verifier::ext_equal]
pub ghost struct StationData {
    pub stationuuid: Seq<char>,
    pub name: Seq<char>,
    pub country: Option<Seq<char>>,
    pub codec: Option<Seq<char>>,
    pub bitrate: Option<u32>,
    pub votes: Option<u32>,
}

impl View for Station {
    type V = StationData;

    open spec fn view(&self) -> StationData {
        StationData {
            stationuuid: self.stationuuid@,
            name: self.name@,
            country: match self.country {
                Some(c) => Some(c@),
                None => None,
            },
            codec: match self.codec {
                Some(c) => Some(c@),
                None => None,
            },
            bitrate: self.bitrate,
            votes: self.votes,
        }
    }
}

/// One entry of the directory's mirror list.
#[derive(Debug, Clone, PartialEq, Eq)]
pub struct RadioBrowserServer {
    pub name: String,
}

/// The images of a sequence of station references.
pub open spec fn refs_view(s: Seq<StationRef>) -> Seq<StationRefData> {
    s.map_values(|r: StationRef| r@)
}

/// The images of a sequence of stations.
pub open spec fn stations_view(s: Seq<Station>) -> Seq<StationData> {
    s.map_values(|r: Station| r@)
}

/// The images of a sequence of strings.
pub open spec fn strs_view(s: Seq<String>) -> Seq<Seq<char>> {
    s.map_values(|r: String| r@)
}

/// Copy a favorites list element by element, so that the result is known to
/// equal the input.
pub fn duplicate_refs(v: &Vec<StationRef>) -> (r: Vec<StationRef>)
    ensures
        r@ == v@,
{
    let mut out: Vec<StationRef> = Vec::new();
    let mut i: usize = 0;
    while i < v.len()
        invariant
            0 <= i <= v.len(),
            out@ =~= v@.subrange(0, i as int),
        decreases v.len() - i,
    {
        out.push(v[i].duplicate());
        proof {
            assert(out@ =~= v@.subrange(0, i as int + 1));
        }
        i += 1;
    }
    proof {
        assert(v@.subrange(0, v@.len() as int) =~= v@);
    }
    out
}

/// The parts joined into a station's subtitle: country and codec (trimmed,
/// when non-empty) and the bitrate as `<n> kbps`.
pub open spec fn spec_subtitle_parts(s: StationData) -> Seq<Seq<char>> {
    let country_part: Seq<Seq<char>> = match s.country {
        Some(c) => if spec_trim(c).len() > 0 {
            seq![spec_trim(c)]
        } else {
            Seq::empty()
        },
        None => Seq::empty(),
    };
    let codec_part: Seq<Seq<char>> = match s.codec {
        Some(c) => if spec_trim(c).len() > 0 {
            seq![spec_trim(c)]
        } else {
            Seq::empty()
        },
        None => Seq::empty(),
    };
    let bitrate_part: Seq<Seq<char>> = match s.bitrate {
        Some(b) => seq![spec_dec(b as int) + " kbps"@],
        None => Seq::empty(),
    };
    country_part + codec_part + bitrate_part
}

/// The subtitle shown under a search result: its parts joined by a separator
/// dot, empty when no part is available.
pub open spec fn spec_subtitle(s: StationData) -> Seq<char> {
    spec_join(spec_subtitle_parts(s), " · "@)
}

/// The subtitle shown under a search result in the station list.
pub fn station_subtitle(s: &Station) -> (r: String)
    ensures
        r@ == spec_subtitle(s@),
{
    let mut parts: Vec<String> = Vec::new();
    if let Some(c) = &s.country {
        let t = trim_str(c.as_str());
        if !t.as_str().is_empty() {
            parts.push(t);
        }
    }
    if let Some(c) = &s.codec {
        let t = trim_str(c.as_str());
        if !t.as_str().is_empty() {
            parts.push(t);
        }
    }
    if let Some(b) = s.bitrate {
        let mut t = u32_to_string(b);
        t.append(" kbps");
        parts.push(t);
    }
    proof {
        assert(strs_view(parts@) =~= spec_subtitle_parts(s@));
    }
    join_strings(&parts, " · ")
}

} // verus!
