//! Saved connection profiles and the BSSID index over them.
//!
//! Each saved profile lists the hardware addresses it has been seen on; the
//! index maps every such address to the profile's object-path handle. When
//! two profiles claim the same address, the one processed last wins.

use crate::settings::{find_section, find_setting, Section, SettingItem, SettingItemView, SettingValue, SettingValueView, spec_find_section, spec_find_setting};
use vstd::prelude::*;

verus! {

/// The settings section that holds wireless configuration.
pub open spec fn spec_wireless_section_name() -> Seq<char> {
    "802-11-wireless"@
}

/// The key under which a profile lists the hardware addresses it was seen on.
pub open spec fn spec_seen_bssids_key() -> Seq<char> {
    "seen-bssids"@
}

/// The text elements of a list, in order, elements of other types skipped.
pub open spec fn spec_text_items(items: Seq<SettingItemView>) -> Seq<Seq<char>>
    decreases items.len(),
{
    if items.len() == 0 {
        Seq::empty()
    } else {
        let rest = spec_text_items(items.drop_last());
        match items.last() {
            SettingItemView::Text(t) => rest.push(t),
            SettingItemView::Other => rest,
        }
    }
}

/// The hardware addresses a profile's settings list: the text elements of the
/// list stored under the seen-BSSIDs key of the wireless section. A missing
/// section, a missing key, or a value of another type all mean no addresses,
/// never an error.
pub open spec fn spec_seen_bssids(sections: Seq<crate::settings::SectionView>) -> Seq<Seq<char>> {
    match spec_find_section(sections, spec_wireless_section_name()) {
        Some(sec) => match spec_find_setting(sec.settings, spec_seen_bssids_key()) {
            Some(SettingValueView::List(items)) => spec_text_items(items),
            _ => Seq::empty(),
        },
        None => Seq::empty(),
    }
}

/// Extract the hardware addresses a profile's settings list.
pub fn seen_bssids(sections: &Vec<Section>) -> (r: Vec<String>)
    ensures
        r.deep_view() == spec_seen_bssids(sections.deep_view()),
{
    let empty: Vec<String> = Vec::new();
    proof {
        assert(empty.deep_view() =~= Seq::<Seq<char>>::empty());
    }
    let sec = match find_section(sections, "802-11-wireless") {
        Some(sec) => sec,
        None => {
            return empty;
        },
    };
    let value = match find_setting(&sec.settings, "seen-bssids") {
        Some(value) => value,
        None => {
            return empty;
        },
    };
    let items = match value {
        SettingValue::List(items) => items,
        _ => {
            return empty;
        },
    };
    let ghost items0 = items.deep_view();
    let mut out: Vec<String> = Vec::new();
    let mut i: usize = 0;
    proof {
        assert(out.deep_view() =~= spec_text_items(items0.take(0)));
    }
    while i < items.len()
        invariant
            i <= items.len(),
            items0 == items.deep_view(),
            out.deep_view() == spec_text_items(items0.take(i as int)),
        decreases items.len() - i,
    {
        let ghost out0 = out.deep_view();
        match &items[i] {
            SettingItem::Text(t) => {
                out.push(t.clone());
                proof {
                    assert(out.deep_view() =~= out0.push(t@));
                }
            },
            SettingItem::Other => {},
        }
        proof {
            assert(items0.take(i as int + 1).drop_last() =~= items0.take(i as int));
            assert(items0.take(i as int + 1).last() == items0[i as int]);
        }
        i = i + 1;
    }
    proof {
        assert(items0.take(items0.len() as int) =~= items0);
    }
    out
}

/// The index a sequence of (bssid, profile path) entries denotes, earlier
/// entries overwritten by later ones.
pub open spec fn spec_entries_map(entries: Seq<(Seq<char>, Seq<char>)>) -> Map<
    Seq<char>,
    Seq<char>,
>
    decreases entries.len(),
{
    if entries.len() == 0 {
        Map::empty()
    } else {
        spec_entries_map(entries.drop_last()).insert(entries.last().0, entries.last().1)
    }
}

/// Some entry carries the given key.
pub open spec fn spec_has_key(entries: Seq<(Seq<char>, Seq<char>)>, key: Seq<char>) -> bool {
    exists|k: int| 0 <= k < entries.len() && entries[k].0 == key
}

/// The map an entry sequence denotes contains exactly the keys the entries
/// carry.
proof fn lemma_entries_map_contains(entries: Seq<(Seq<char>, Seq<char>)>, key: Seq<char>)
    ensures
        spec_entries_map(entries).contains_key(key) <==> spec_has_key(entries, key),
    decreases entries.len(),
{
    if entries.len() > 0 {
        let dl = entries.drop_last();
        lemma_entries_map_contains(dl, key);
        assert(forall|k: int| 0 <= k < dl.len() ==> dl[k] == entries[k]);
        assert(entries[entries.len() - 1] == entries.last());
        if spec_has_key(dl, key) {
            let k = choose|k: int| 0 <= k < dl.len() && dl[k].0 == key;
            assert(entries[k].0 == key);
        }
    }
}

/// With pairwise distinct keys, the map an entry sequence denotes sends each
/// entry's key to that entry's value.
proof fn lemma_entries_map_at(entries: Seq<(Seq<char>, Seq<char>)>, k: int)
    requires
        unique_keys(entries),
        0 <= k < entries.len(),
    ensures
        spec_entries_map(entries).contains_key(entries[k].0),
        spec_entries_map(entries)[entries[k].0] == entries[k].1,
    decreases entries.len(),
{
    if k == entries.len() - 1 {
        assert(entries[k] == entries.last());
    } else {
        let dl = entries.drop_last();
        assert(forall|i: int, j: int| 0 <= i < j < dl.len() ==> dl[i].0 != dl[j].0);
        assert(dl[k] == entries[k]);
        lemma_entries_map_at(dl, k);
        assert(entries.last().0 != entries[k].0);
    }
}

/// With pairwise distinct keys, overwriting one entry's value overwrites that
/// key in the denoted map.
proof fn lemma_entries_map_update(
    entries: Seq<(Seq<char>, Seq<char>)>,
    k: int,
    value: Seq<char>,
)
    requires
        unique_keys(entries),
        0 <= k < entries.len(),
    ensures
        spec_entries_map(entries.update(k, (entries[k].0, value))) == spec_entries_map(
            entries,
        ).insert(entries[k].0, value),
    decreases entries.len(),
{
    let key = entries[k].0;
    let upd = entries.update(k, (key, value));
    if k == entries.len() - 1 {
        assert(upd.drop_last() =~= entries.drop_last());
        assert(upd.last() == (key, value));
        assert(spec_entries_map(entries.drop_last()).insert(key, value) =~= spec_entries_map(
            entries.drop_last(),
        ).insert(key, entries.last().1).insert(key, value));
    } else {
        let dl = entries.drop_last();
        assert(forall|i: int, j: int| 0 <= i < j < dl.len() ==> dl[i].0 != dl[j].0);
        assert(dl[k] == entries[k]);
        lemma_entries_map_update(dl, k, value);
        assert(upd.drop_last() =~= dl.update(k, (key, value)));
        assert(upd.last() == entries.last());
        assert(entries.last().0 != key);
        assert(spec_entries_map(dl).insert(key, value).insert(
            entries.last().0,
            entries.last().1,
        ) =~= spec_entries_map(dl).insert(entries.last().0, entries.last().1).insert(key, value));
    }
}

/// With pairwise distinct keys, dropping one entry removes exactly that key
/// from the denoted map.
proof fn lemma_entries_map_remove(entries: Seq<(Seq<char>, Seq<char>)>, k: int)
    requires
        unique_keys(entries),
        0 <= k < entries.len(),
    ensures
        spec_entries_map(entries.remove(k)) == spec_entries_map(entries).remove(entries[k].0),
    decreases entries.len(),
{
    let key = entries[k].0;
    if k == entries.len() - 1 {
        assert(entries.remove(k) =~= entries.drop_last());
        assert(forall|i: int, j: int|
            0 <= i < j < entries.drop_last().len() ==> entries.drop_last()[i].0
                != entries.drop_last()[j].0);
        lemma_entries_map_contains(entries.drop_last(), key);
        assert(forall|i: int| 0 <= i < entries.len() - 1 ==> entries.drop_last()[i] == entries[i]);
        assert(!spec_has_key(entries.drop_last(), key));
        assert(spec_entries_map(entries.drop_last()) =~= spec_entries_map(
            entries.drop_last(),
        ).insert(key, entries.last().1).remove(key));
    } else {
        let dl = entries.drop_last();
        assert(forall|i: int, j: int| 0 <= i < j < dl.len() ==> dl[i].0 != dl[j].0);
        assert(dl[k] == entries[k]);
        lemma_entries_map_remove(dl, k);
        let r = entries.remove(k);
        assert(r.drop_last() =~= dl.remove(k));
        assert(r.last() == entries.last());
        assert(entries.last().0 != key);
        assert(spec_entries_map(dl).remove(key).insert(entries.last().0, entries.last().1)
            =~= spec_entries_map(dl).insert(entries.last().0, entries.last().1).remove(key));
    }
}

/// Entry keys are pairwise distinct.
pub open spec fn unique_keys(entries: Seq<(Seq<char>, Seq<char>)>) -> bool {
    forall|i: int, j: int| 0 <= i < j < entries.len() ==> entries[i].0 != entries[j].0
}

/// Mapping from hardware address to the object-path handle of the saved
/// profile last seen on it.
pub struct ProfileIndex {
    entries: Vec<(String, String)>,
}

impl View for ProfileIndex {
    type V = Map<Seq<char>, Seq<char>>;

    closed spec fn view(&self) -> Map<Seq<char>, Seq<char>> {
        spec_entries_map(self.entries.deep_view())
    }
}

impl ProfileIndex {
    /// The index keeps one entry per hardware address.
    pub closed spec fn wf(self) -> bool {
        unique_keys(self.entries.deep_view())
    }

    /// An empty index.
    pub fn new() -> (r: Self)
        ensures
            r.wf(),
            r@ == Map::<Seq<char>, Seq<char>>::empty(),
    {
        let r = ProfileIndex { entries: Vec::new() };
        proof {
            assert(r.entries.deep_view() =~= Seq::<(Seq<char>, Seq<char>)>::empty());
        }
        r
    }

    /// Map a hardware address to a profile handle, replacing whatever the
    /// address was mapped to before.
    pub fn insert(&mut self, bssid: String, path: String)
        requires
            old(self).wf(),
        ensures
            final(self).wf(),
            final(self)@ == old(self)@.insert(bssid@, path@),
    {
        let ghost entries0 = self.entries.deep_view();
        let mut i: usize = 0;
        while i < self.entries.len()
            invariant
                i <= self.entries.len(),
                entries0 == self.entries.deep_view(),
                old(self)@ == spec_entries_map(entries0),
                unique_keys(entries0),
                forall|j: int| 0 <= j < i ==> entries0[j].0 != bssid@,
            decreases self.entries.len() - i,
        {
            if self.entries[i].0.eq(&bssid) {
                proof {
                    assert(entries0[i as int].0 == bssid@);
                }
                let path_copy = path;
                self.entries.set(i, (bssid, path_copy));
                proof {
                    assert(path_copy@ == path@);
                    assert(self.entries.deep_view() =~= entries0.update(
                        i as int,
                        (entries0[i as int].0, path_copy@),
                    ));
                    lemma_entries_map_update(entries0, i as int, path_copy@);
                    assert(forall|p: int, q: int|
                        0 <= p < q < entries0.len() ==> self.entries.deep_view()[p].0
                            != self.entries.deep_view()[q].0);
                }
                return ;
            }
            i = i + 1;
        }
        let ghost b = bssid@;
        let ghost p = path@;
        self.entries.push((bssid, path));
        proof {
            assert(self.entries.deep_view() =~= entries0.push((b, p)));
            assert(self.entries.deep_view().drop_last() =~= entries0);
            assert(forall|q: int| 0 <= q < entries0.len() ==> entries0[q].0 != b);
        }
    }

    /// Look up the profile handle for a hardware address.
    pub fn get(&self, bssid: &String) -> (r: Option<&String>)
        requires
            self.wf(),
        ensures
            r matches Some(p) ==> self@.contains_key(bssid@) && p@ == self@[bssid@],
            r is None ==> !self@.contains_key(bssid@),
    {
        let ghost entries0 = self.entries.deep_view();
        let mut i: usize = 0;
        while i < self.entries.len()
            invariant
                i <= self.entries.len(),
                entries0 == self.entries.deep_view(),
                self@ == spec_entries_map(entries0),
                unique_keys(entries0),
                forall|j: int| 0 <= j < i ==> entries0[j].0 != bssid@,
            decreases self.entries.len() - i,
        {
            if self.entries[i].0.eq(bssid) {
                proof {
                    lemma_entries_map_at(entries0, i as int);
                }
                return Some(&self.entries[i].1);
            }
            i = i + 1;
        }
        proof {
            lemma_entries_map_contains(entries0, bssid@);
        }
        None
    }

    /// Take the profile handle for a hardware address out of the index.
    pub fn remove(&mut self, bssid: &String) -> (r: Option<String>)
        requires
            old(self).wf(),
        ensures
            final(self).wf(),
            final(self)@ == old(self)@.remove(bssid@),
            r matches Some(p) ==> old(self)@.contains_key(bssid@) && p@ == old(self)@[bssid@],
            r is None ==> !old(self)@.contains_key(bssid@),
    {
        let ghost entries0 = self.entries.deep_view();
        let mut i: usize = 0;
        while i < self.entries.len()
            invariant
                i <= self.entries.len(),
                entries0 == self.entries.deep_view(),
                old(self)@ == spec_entries_map(entries0),
                unique_keys(entries0),
                forall|j: int| 0 <= j < i ==> entries0[j].0 != bssid@,
            decreases self.entries.len() - i,
        {
            if self.entries[i].0.eq(bssid) {
                proof {
                    assert(entries0[i as int].0 == bssid@);
                    lemma_entries_map_at(entries0, i as int);
                    lemma_entries_map_remove(entries0, i as int);
                }
                let entry = self.entries.remove(i);
                proof {
                    assert(entry.1@ == entries0[i as int].1);
                    assert(self.entries.deep_view() =~= entries0.remove(i as int));
                    assert(forall|p: int, q: int|
                        0 <= p < q < self.entries.deep_view().len()
                            ==> self.entries.deep_view()[p].0 != self.entries.deep_view()[q].0);
                }
                return Some(entry.1);
            }
            i = i + 1;
        }
        proof {
            lemma_entries_map_contains(entries0, bssid@);
            assert(self@ =~= old(self)@.remove(bssid@));
        }
        None
    }
}

/// One saved profile: its object-path handle and the hardware addresses its
/// settings were seen on.
pub struct Profile {
    /// Remote object-path handle of the saved profile.
    pub path: String,
    /// Hardware addresses the profile lists, in the daemon's order.
    pub bssids: Vec<String>,
}

/// Model of a [`Profile`].
#[verifier::ext_equal]
pub struct ProfileView {
    pub path: Seq<char>,
    pub bssids: Seq<Seq<char>>,
}

impl View for Profile {
    type V = ProfileView;

    open spec fn view(&self) -> ProfileView {
        ProfileView { path: self.path@, bssids: self.bssids.deep_view() }
    }
}

impl DeepView for Profile {
    type V = ProfileView;

    open spec fn deep_view(&self) -> ProfileView {
        self.view()
    }
}

/// The map after inserting every given address for one profile, in order.
pub open spec fn spec_insert_bssids(
    m: Map<Seq<char>, Seq<char>>,
    path: Seq<char>,
    bssids: Seq<Seq<char>>,
) -> Map<Seq<char>, Seq<char>>
    decreases bssids.len(),
{
    if bssids.len() == 0 {
        m
    } else {
        spec_insert_bssids(m, path, bssids.drop_last()).insert(bssids.last(), path)
    }
}

/// The index over a sequence of profiles: every address of every profile is
/// inserted in order, so for an address two profiles both claim, the profile
/// processed last wins.
pub open spec fn spec_index(profiles: Seq<ProfileView>) -> Map<Seq<char>, Seq<char>>
    decreases profiles.len(),
{
    if profiles.len() == 0 {
        Map::empty()
    } else {
        spec_insert_bssids(
            spec_index(profiles.drop_last()),
            profiles.last().path,
            profiles.last().bssids,
        )
    }
}

/// Build the BSSID index over all saved profiles.
pub fn index_profiles(profiles: &Vec<Profile>) -> (r: ProfileIndex)
    ensures
        r.wf(),
        r@ == spec_index(profiles.deep_view()),
{
    let ghost ps = profiles.deep_view();
    let mut index = ProfileIndex::new();
    let mut i: usize = 0;
    proof {
        assert(ps.take(0) =~= Seq::<ProfileView>::empty());
    }
    while i < profiles.len()
        invariant
            i <= profiles.len(),
            ps == profiles.deep_view(),
            index.wf(),
            index@ == spec_index(ps.take(i as int)),
        decreases profiles.len() - i,
    {
        let profile = &profiles[i];
        let mut j: usize = 0;
        proof {
            assert(ps[i as int].bssids.take(0) =~= Seq::<Seq<char>>::empty());
        }
        while j < profile.bssids.len()
            invariant
                j <= profile.bssids.len(),
                ps == profiles.deep_view(),
                i < profiles.len(),
                profile.deep_view() == ps[i as int],
                index.wf(),
                index@ == spec_insert_bssids(
                    spec_index(ps.take(i as int)),
                    ps[i as int].path,
                    ps[i as int].bssids.take(j as int),
                ),
            decreases profile.bssids.len() - j,
        {
            index.insert(profile.bssids[j].clone(), profile.path.clone());
            proof {
                let bs = ps[i as int].bssids;
                assert(bs.take(j as int + 1).drop_last() =~= bs.take(j as int));
                assert(bs.take(j as int + 1).last() == bs[j as int]);
                assert(profile.bssids.deep_view()[j as int] == bs[j as int]);
            }
            j = j + 1;
        }
        proof {
            let bs = ps[i as int].bssids;
            assert(bs.take(bs.len() as int) =~= bs);
            assert(ps.take(i as int + 1).drop_last() =~= ps.take(i as int));
            assert(ps.take(i as int + 1).last() == ps[i as int]);
        }
        i = i + 1;
    }
    proof {
        assert(ps.take(ps.len() as int) =~= ps);
    }
    index
}

} // verus!
