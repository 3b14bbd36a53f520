//! Persisted application state: last station, last directory server, and the
//! favorites list, with the favorites-toggle logic and its laws.
//!
//! Reading and writing the config file is I/O and lives outside this crate;
//! here is the state itself and every way it changes.

use vstd::prelude::*;
use crate::models::{StationRef, StationRefData, refs_view};

verus! {

/// The persisted state: last played station, last successfully used directory
/// server, and the favorites list.
#[derive(Debug, Clone, PartialEq, Eq)]
pub struct AppConfig {
    pub last_station: Option<StationRef>,
    pub last_server: Option<String>,
    pub favorites: Vec<StationRef>,
}

/// Mathematical image of an [`AppConfig`].
#[verifier::ext_equal]
pub ghost struct ConfigData {
    pub last_station: Option<StationRefData>,
    pub last_server: Option<Seq<char>>,
    pub favorites: Seq<StationRefData>,
}

impl View for AppConfig {
    type V = ConfigData;

    open spec fn view(&self) -> ConfigData {
        ConfigData {
            last_station: match self.last_station {
                Some(s) => Some(s@),
                None => None,
            },
            last_server: match self.last_server {
                Some(s) => Some(s@),
                None => None,
            },
            favorites: refs_view(self.favorites@),
        }
    }
}

/// The empty configuration: nothing played yet, no favorites.
pub open spec fn spec_config_empty() -> ConfigData {
    ConfigData { last_station: None, last_server: None, favorites: Seq::empty() }
}

impl Default for AppConfig {
    fn default() -> (r: Self)
        ensures
            r@ == spec_config_empty(),
    {
        let r = AppConfig { last_station: None, last_server: None, favorites: Vec::new() };
        proof {
            assert(r@ =~= spec_config_empty());
        }
        r
    }
}

/// The index of the first favorite with the given id, or `-1` if none has it.
pub open spec fn fav_idx(favs: Seq<StationRefData>, id: Seq<char>) -> int
    decreases favs.len(),
{
    if favs.len() == 0 {
        -1
    } else if favs[0].stationuuid == id {
        0
    } else {
        let rest = fav_idx(favs.drop_first(), id);
        if rest < 0 {
            -1
        } else {
            1 + rest
        }
    }
}

/// Whether some favorite has the given id.
pub open spec fn has_fav(favs: Seq<StationRefData>, id: Seq<char>) -> bool {
    fav_idx(favs, id) >= 0
}

/// Toggling membership: remove the first entry with the station's id if one
/// exists, else append the station.
pub open spec fn spec_toggle_favorite(favs: Seq<StationRefData>, st: StationRefData) -> Seq<
    StationRefData,
> {
    if has_fav(favs, st.stationuuid) {
        favs.remove(fav_idx(favs, st.stationuuid))
    } else {
        favs.push(st)
    }
}

/// No two favorites share an id.
pub open spec fn favs_wf(favs: Seq<StationRefData>) -> bool {
    forall|i: int, j: int|
        0 <= i < j < favs.len() ==> favs[i].stationuuid != favs[j].stationuuid
}

/// What `fav_idx` returns: a nonnegative result is the first index holding
/// the id, and the result is nonnegative exactly when some index holds it.
pub proof fn lemma_fav_idx_spec(favs: Seq<StationRefData>, id: Seq<char>)
    ensures
        has_fav(favs, id) <==> (exists|k: int|
            0 <= k < favs.len() && favs[k].stationuuid == id),
        has_fav(favs, id) ==> 0 <= fav_idx(favs, id) < favs.len() && favs[fav_idx(
            favs,
            id,
        )].stationuuid == id && (forall|j: int|
            0 <= j < fav_idx(favs, id) ==> favs[j].stationuuid != id),
    decreases favs.len(),
{
    if favs.len() == 0 {
    } else if favs[0].stationuuid == id {
    } else {
        let rest = favs.drop_first();
        lemma_fav_idx_spec(rest, id);
        assert(forall|k: int| 0 <= k < rest.len() ==> rest[k] == favs[k + 1]);
        if fav_idx(rest, id) >= 0 {
            let ri = fav_idx(rest, id);
            assert(favs[ri + 1].stationuuid == id);
            assert forall|j: int| 1 <= j < ri + 1 implies favs[j].stationuuid != id by {
                assert(rest[j - 1].stationuuid != id);
            }
        } else {
            if exists|k: int| 0 <= k < favs.len() && favs[k].stationuuid == id {
                let k = choose|k: int| 0 <= k < favs.len() && favs[k].stationuuid == id;
                assert(k >= 1);
                assert(rest[k - 1].stationuuid == id);
                assert(false);
            }
        }
    }
}

impl AppConfig {
    /// An exact copy, made field by field so its contract can say so; used to
    /// hand a snapshot to the asynchronous persistence task.
    pub fn snapshot(&self) -> (r: Self)
        ensures
            r@ == self@,
            r.last_station == self.last_station,
            r.last_server == self.last_server,
            r.favorites@ == self.favorites@,
    {
        let last_station = match &self.last_station {
            Some(s) => Some(s.duplicate()),
            None => None,
        };
        let last_server = match &self.last_server {
            Some(s) => Some(s.clone()),
            None => None,
        };
        let favorites = crate::models::duplicate_refs(&self.favorites);
        let r = AppConfig { last_station, last_server, favorites };
        proof {
            assert(r@ =~= self@);
        }
        r
    }

    /// Toggle the station's membership in the favorites by id: remove the
    /// first entry carrying its id, or append the station if none does.
    pub fn toggle_favorite(&mut self, station: StationRef)
        ensures
            final(self).last_station == old(self).last_station,
            final(self).last_server == old(self).last_server,
            refs_view(final(self).favorites@) == spec_toggle_favorite(
                refs_view(old(self).favorites@),
                station@,
            ),
    {
        let ghost favs0 = refs_view(old(self).favorites@);
        let ghost id = station@.stationuuid;
        proof {
            lemma_fav_idx_spec(favs0, id);
        }
        let n = self.favorites.len();
        let mut i: usize = 0;
        while i < n
            invariant
                n == self.favorites@.len(),
                0 <= i <= n,
                self.favorites@ == old(self).favorites@,
                self.last_station == old(self).last_station,
                self.last_server == old(self).last_server,
                favs0 == refs_view(self.favorites@),
                id == station@.stationuuid,
                forall|j: int| 0 <= j < i ==> favs0[j].stationuuid != id,
            decreases n - i,
        {
            if crate::text::str_eq(
                self.favorites[i].stationuuid.as_str(),
                station.stationuuid.as_str(),
            ) {
                proof {
                    lemma_fav_idx_spec(favs0, id);
                    assert(favs0[i as int].stationuuid == id);
                    assert(has_fav(favs0, id));
                    let fi = fav_idx(favs0, id);
                    assert(fi <= i) by {
                        if fi > i {
                            assert(favs0[i as int].stationuuid != id);
                        }
                    }
                    assert(fi >= i) by {
                        if fi < i {
                            assert(favs0[fi].stationuuid != id);
                        }
                    }
                }
                self.favorites.remove(i);
                proof {
                    assert(refs_view(final(self).favorites@) =~= favs0.remove(i as int));
                }
                return;
            }
            i += 1;
        }
        proof {
            if has_fav(favs0, id) {
                let fi = fav_idx(favs0, id);
                assert(favs0[fi].stationuuid != id);
                assert(false);
            }
        }
        self.favorites.push(station);
        proof {
            assert(refs_view(final(self).favorites@) =~= favs0.push(station@));
        }
    }
}

/// Law: toggling a station whose id is not yet a favorite and then toggling
/// it again restores the favorites list exactly.
pub proof fn lemma_toggle_twice_restores(favs: Seq<StationRefData>, st: StationRefData)
    requires
        !has_fav(favs, st.stationuuid),
    ensures
        spec_toggle_favorite(spec_toggle_favorite(favs, st), st) == favs,
{
    let id = st.stationuuid;
    lemma_fav_idx_spec(favs, id);
    let favs1 = favs.push(st);
    lemma_fav_idx_spec(favs1, id);
    assert(favs1[favs.len() as int].stationuuid == id);
    assert(has_fav(favs1, id));
    let fi = fav_idx(favs1, id);
    assert(fi == favs.len()) by {
        if fi < favs.len() {
            assert(favs1[fi] == favs[fi]);
        }
    }
    assert(spec_toggle_favorite(favs1, st) == favs1.remove(favs.len() as int));
    assert(favs1.remove(favs.len() as int) =~= favs);
}

/// Law: under the no-duplicate invariant, toggling the same station id twice
/// leaves the set of favorite ids unchanged.
pub proof fn lemma_toggle_twice_preserves_ids(favs: Seq<StationRefData>, st: StationRefData)
    requires
        favs_wf(favs),
    ensures
        spec_toggle_favorite(spec_toggle_favorite(favs, st), st).map_values(
            |r: StationRefData| r.stationuuid,
        ).to_set() == favs.map_values(|r: StationRefData| r.stationuuid).to_set(),
{
    let id = st.stationuuid;
    let ids = |r: StationRefData| r.stationuuid;
    if !has_fav(favs, id) {
        lemma_toggle_twice_restores(favs, st);
    } else {
        lemma_fav_idx_spec(favs, id);
        let i = fav_idx(favs, id);
        let favs1 = favs.remove(i);
        assert(spec_toggle_favorite(favs, st) == favs1);
        assert(forall|k: int| 0 <= k < i ==> favs1[k] == favs[k]);
        assert(forall|k: int| i <= k < favs1.len() ==> favs1[k] == favs[k + 1]);
        lemma_fav_idx_spec(favs1, id);
        assert(!has_fav(favs1, id)) by {
            if has_fav(favs1, id) {
                let k = choose|k: int| 0 <= k < favs1.len() && favs1[k].stationuuid == id;
                if k < i {
                    assert(favs[k].stationuuid == id && favs[i].stationuuid == id);
                } else {
                    assert(favs[k + 1].stationuuid == id && favs[i].stationuuid == id);
                }
                assert(false);
            }
        }
        let favs2 = favs1.push(st);
        assert(spec_toggle_favorite(favs1, st) == favs2);
        let lhs = favs2.map_values(ids).to_set();
        let rhs = favs.map_values(ids).to_set();
        assert(lhs =~= rhs) by {
            assert forall|x: Seq<char>| lhs.contains(x) implies rhs.contains(x) by {
                let k = choose|k: int|
                    0 <= k < favs2.len() && favs2.map_values(ids)[k] == x;
                if k == favs2.len() - 1 {
                    assert(favs.map_values(ids)[i] == x);
                } else if k < i {
                    assert(favs.map_values(ids)[k] == x);
                } else {
                    assert(favs.map_values(ids)[k + 1] == x);
                }
            }
            assert forall|x: Seq<char>| rhs.contains(x) implies lhs.contains(x) by {
                let k = choose|k: int|
                    0 <= k < favs.len() && favs.map_values(ids)[k] == x;
                if k == i {
                    assert(favs2.map_values(ids)[favs2.len() - 1] == x);
                } else if k < i {
                    assert(favs2.map_values(ids)[k] == x);
                } else {
                    assert(favs2.map_values(ids)[k - 1] == x);
                }
            }
        }
    }
}

/// The no-duplicate invariant is preserved by every toggle.
pub proof fn lemma_toggle_preserves_wf(favs: Seq<StationRefData>, st: StationRefData)
    requires
        favs_wf(favs),
    ensures
        favs_wf(spec_toggle_favorite(favs, st)),
{
    let id = st.stationuuid;
    if has_fav(favs, id) {
        lemma_fav_idx_spec(favs, id);
        let i = fav_idx(favs, id);
        let favs1 = favs.remove(i);
        assert(forall|k: int| 0 <= k < i ==> favs1[k] == favs[k]);
        assert(forall|k: int| i <= k < favs1.len() ==> favs1[k] == favs[k + 1]);
        assert(favs_wf(favs1)) by {
            assert forall|a: int, b: int|
                0 <= a < b < favs1.len() implies favs1[a].stationuuid
                != favs1[b].stationuuid by {
                if a < i && b < i {
                } else if a < i {
                    assert(favs1[b] == favs[b + 1]);
                } else {
                    assert(favs1[a] == favs[a + 1] && favs1[b] == favs[b + 1]);
                }
            }
        }
    } else {
        lemma_fav_idx_spec(favs, id);
        let favs1 = favs.push(st);
        assert(favs_wf(favs1)) by {
            assert forall|a: int, b: int|
                0 <= a < b < favs1.len() implies favs1[a].stationuuid
                != favs1[b].stationuuid by {
                if b == favs1.len() - 1 {
                    assert(favs1[a] == favs[a]);
                    assert(favs[a].stationuuid != id);
                }
            }
        }
    }
}

} // verus!
