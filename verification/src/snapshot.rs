//! Building the merged view of all visible access points.
//!
//! The daemon reports each access point as a bundle of raw attributes; this
//! module turns those bundles into immutable [`AccessPoint`] values and merges
//! them into a snapshot sorted with the connected entry first and stronger
//! signals before weaker ones.

use vstd::multiset::Multiset;
use vstd::prelude::*;
use vstd::utf8::{decode_utf8, valid_utf8};

verus! {

/// Raw attributes read from one access-point object, together with the
/// object-path handle the daemon knows it by.
#[derive(Clone, Debug)]
pub struct ApScan {
    /// Remote object-path handle of the access point.
    pub path: String,
    /// Network name as the raw bytes broadcast over the air.
    pub ssid: Vec<u8>,
    /// Raw capability flags; any nonzero value means authentication is needed.
    pub flags: u32,
    /// Signal strength in percent.
    pub strength: u8,
    /// Radio frequency in MHz.
    pub frequency: u32,
    /// Hardware address (BSSID) of the access point.
    pub bssid: String,
}

/// Mathematical model of an [`ApScan`].
#[verifier::ext_equal]
pub struct ApScanView {
    pub path: Seq<char>,
    pub ssid: Seq<u8>,
    pub flags: u32,
    pub strength: u8,
    pub frequency: u32,
    pub bssid: Seq<char>,
}

impl View for ApScan {
    type V = ApScanView;

    open spec fn view(&self) -> ApScanView {
        ApScanView {
            path: self.path@,
            ssid: self.ssid@,
            flags: self.flags,
            strength: self.strength,
            frequency: self.frequency,
            bssid: self.bssid@,
        }
    }
}

impl DeepView for ApScan {
    type V = ApScanView;

    open spec fn deep_view(&self) -> ApScanView {
        self.view()
    }
}

/// One visible wireless network, rebuilt on every change notification.
#[derive(Clone, Debug)]
pub struct AccessPoint {
    /// AP hardware address.
    pub bssid: String,
    /// Access point name.
    pub ssid: String,
    /// Signal strength in percent.
    pub strength: u8,
    /// Requires password authentication.
    pub private: bool,
    /// WiFi frequency in MHz.
    pub frequency: u32,
    /// Access point is currently active.
    pub connected: bool,
    /// Remote object path of the access point.
    pub path: String,
}

/// Mathematical model of an [`AccessPoint`].
#[verifier::ext_equal]
pub struct ApView {
    pub bssid: Seq<char>,
    pub ssid: Seq<char>,
    pub strength: u8,
    pub private: bool,
    pub frequency: u32,
    pub connected: bool,
    pub path: Seq<char>,
}

impl View for AccessPoint {
    type V = ApView;

    open spec fn view(&self) -> ApView {
        ApView {
            bssid: self.bssid@,
            ssid: self.ssid@,
            strength: self.strength,
            private: self.private,
            frequency: self.frequency,
            connected: self.connected,
            path: self.path@,
        }
    }
}

impl DeepView for AccessPoint {
    type V = ApView;

    open spec fn deep_view(&self) -> ApView {
        self.view()
    }
}

/// 802.11 access point capability flags, as the daemon reports them on the
/// wire. Any nonzero raw value means the network needs authentication.
#[derive(Clone, Copy, Debug, PartialEq, Eq, Structural)]
pub enum APFlags {
    NoFlags,
    Privacy,
    Wps,
    WpsPbc,
    WpsPin,
}

impl APFlags {
    /// The flag a raw wire value denotes, if it denotes one at all.
    pub open spec fn spec_from_raw(raw: u32) -> Option<APFlags> {
        if raw == 0 {
            Some(APFlags::NoFlags)
        } else if raw == 1 {
            Some(APFlags::Privacy)
        } else if raw == 2 {
            Some(APFlags::Wps)
        } else if raw == 4 {
            Some(APFlags::WpsPbc)
        } else if raw == 8 {
            Some(APFlags::WpsPin)
        } else {
            None
        }
    }

    /// The raw wire value of this flag.
    pub open spec fn spec_raw(self) -> u32 {
        match self {
            APFlags::NoFlags => 0,
            APFlags::Privacy => 1,
            APFlags::Wps => 2,
            APFlags::WpsPbc => 4,
            APFlags::WpsPin => 8,
        }
    }

    /// Decode the raw wire value of a capability-flags property.
    pub fn from_raw(raw: u32) -> (r: Option<APFlags>)
        ensures
            r == Self::spec_from_raw(raw),
    {
        if raw == 0 {
            Some(APFlags::NoFlags)
        } else if raw == 1 {
            Some(APFlags::Privacy)
        } else if raw == 2 {
            Some(APFlags::Wps)
        } else if raw == 4 {
            Some(APFlags::WpsPbc)
        } else if raw == 8 {
            Some(APFlags::WpsPin)
        } else {
            None
        }
    }

    /// The raw wire value of this flag; decoding it gives this flag back.
    pub fn raw(&self) -> (r: u32)
        ensures
            r == self.spec_raw(),
            Self::spec_from_raw(r) == Some(*self),
    {
        match self {
            APFlags::NoFlags => 0,
            APFlags::Privacy => 1,
            APFlags::Wps => 2,
            APFlags::WpsPbc => 4,
            APFlags::WpsPin => 8,
        }
    }

    /// Whether this flag value demands authentication: every flag but the
    /// empty one does.
    pub fn requires_auth(&self) -> (r: bool)
        ensures
            r == (self.spec_raw() != 0),
    {
        !matches!(self, APFlags::NoFlags)
    }
}

/// Why an access point was left out of the snapshot.
#[derive(Clone, Copy, Debug, PartialEq, Eq, Structural)]
pub enum BuildError {
    /// The SSID bytes are not valid text.
    SsidDecode,
}

/// Relies on `String::from_utf8`: it succeeds exactly on valid UTF-8 input
/// and then returns the string whose encoding the input is.
#[verifier::external_body]
fn utf8_to_string(bytes: Vec<u8>) -> (r: Option<String>)
    ensures
        r matches Some(s) ==> valid_utf8(bytes@) && s@ == decode_utf8(bytes@),
        r is None ==> !valid_utf8(bytes@),
{
    String::from_utf8(bytes).ok()
}

/// The access point a scan record describes, or `None` when the record is
/// rejected because its SSID bytes do not decode.
pub open spec fn spec_build(scan: ApScanView, active_bssid: Option<Seq<char>>) -> Option<ApView> {
    if valid_utf8(scan.ssid) {
        Some(
            ApView {
                bssid: scan.bssid,
                ssid: decode_utf8(scan.ssid),
                strength: scan.strength,
                private: scan.flags != 0,
                frequency: scan.frequency,
                connected: match active_bssid {
                    Some(active) => active == scan.bssid,
                    None => false,
                },
                path: scan.path,
            },
        )
    } else {
        None
    }
}

impl AccessPoint {
    /// Build one access point from its fetched attributes.
    ///
    /// The entry is `private` exactly when the raw capability flags are
    /// nonzero, and `connected` exactly when its hardware address equals the
    /// active one. A record whose SSID bytes are not valid text is rejected
    /// whole, never decoded lossily.
    pub fn build(scan: ApScan, active_bssid: Option<&String>) -> (r: Result<AccessPoint, BuildError>)
        ensures
            r matches Ok(ap) ==> Some(ap@) == spec_build(scan@, active_bssid.deep_view()),
            r matches Err(e) ==> spec_build(scan@, active_bssid.deep_view()) is None
                && e == BuildError::SsidDecode,
    {
        let ApScan { path, ssid, flags, strength, frequency, bssid } = scan;
        match utf8_to_string(ssid) {
            Some(ssid_text) => {
                let connected = match active_bssid {
                    Some(active) => *active == bssid,
                    None => false,
                };
                Ok(
                    AccessPoint {
                        bssid,
                        ssid: ssid_text,
                        strength,
                        private: flags != 0,
                        frequency,
                        connected,
                        path,
                    },
                )
            },
            None => Err(BuildError::SsidDecode),
        }
    }
}

/// The frequency band an access point radiates on.
#[derive(Clone, Copy, Debug, PartialEq, Eq, Structural)]
pub enum Band {
    /// 2.4 GHz band.
    TwoPointFourGhz,
    /// 5 GHz band.
    FiveGhz,
}

/// The band a frequency in MHz belongs to: above 5000 MHz it is the 5 GHz
/// band, otherwise the 2.4 GHz band.
pub open spec fn spec_band(frequency: u32) -> Band {
    if frequency > 5000 {
        Band::FiveGhz
    } else {
        Band::TwoPointFourGhz
    }
}

impl Band {
    /// The label the panel shows for this band.
    pub open spec fn spec_label(self) -> Seq<char> {
        match self {
            Band::TwoPointFourGhz => "2.4GHz"@,
            Band::FiveGhz => "5GHz"@,
        }
    }

    /// Get the label the panel shows for this band.
    pub fn label(&self) -> (label: &'static str)
        ensures
            label@ == self.spec_label(),
    {
        match self {
            Band::TwoPointFourGhz => "2.4GHz",
            Band::FiveGhz => "5GHz",
        }
    }
}

impl AccessPoint {
    /// Classify the band this access point radiates on.
    pub fn band(&self) -> (band: Band)
        ensures
            band == spec_band(self.frequency),
    {
        if self.frequency > 5000 {
            Band::FiveGhz
        } else {
            Band::TwoPointFourGhz
        }
    }
}

/// Sort key of a snapshot entry: the connected entry outranks everything,
/// then stronger signals outrank weaker ones.
pub open spec fn ap_rank(ap: ApView) -> int {
    (if ap.connected {
        256int
    } else {
        0int
    }) + ap.strength
}

/// The snapshot order: connected first, then by descending signal strength.
pub open spec fn snapshot_sorted(s: Seq<ApView>) -> bool {
    forall|i: int, j: int| 0 <= i < j < s.len() ==> ap_rank(s[i]) >= ap_rank(s[j])
}

/// No two entries of a snapshot are marked connected.
pub open spec fn at_most_one_connected(s: Seq<ApView>) -> bool {
    forall|i: int, j: int| 0 <= i < j < s.len() ==> !(s[i].connected && s[j].connected)
}

/// Scan records name pairwise distinct hardware addresses.
pub open spec fn distinct_bssids(scans: Seq<ApScanView>) -> bool {
    forall|i: int, j: int| 0 <= i < j < scans.len() ==> scans[i].bssid != scans[j].bssid
}

/// The access points that a sequence of scan records builds to, in record
/// order, records with undecodable SSIDs dropped.
pub open spec fn spec_built_views(scans: Seq<ApScanView>, active_bssid: Option<Seq<char>>) -> Seq<
    ApView,
>
    decreases scans.len(),
{
    if scans.len() == 0 {
        Seq::empty()
    } else {
        let rest = spec_built_views(scans.drop_last(), active_bssid);
        match spec_build(scans.last(), active_bssid) {
            Some(ap) => rest.push(ap),
            None => rest,
        }
    }
}

/// Number of snapshot entries marked connected.
pub open spec fn count_connected(s: Seq<ApView>) -> nat
    decreases s.len(),
{
    if s.len() == 0 {
        0nat
    } else {
        count_connected(s.drop_last()) + (if s.last().connected {
            1nat
        } else {
            0nat
        })
    }
}

/// A sequence with no connected entry counts zero, and conversely.
proof fn lemma_count_connected_zero(s: Seq<ApView>)
    ensures
        (count_connected(s) == 0) <==> (forall|i: int| 0 <= i < s.len() ==> !s[i].connected),
    decreases s.len(),
{
    if s.len() > 0 {
        lemma_count_connected_zero(s.drop_last());
        assert(forall|i: int| 0 <= i < s.len() - 1 ==> s.drop_last()[i] == s[i]);
        assert(s.last() == s[s.len() - 1]);
    }
}

/// A connected entry makes the count at least one.
proof fn lemma_count_connected_at_least_one(s: Seq<ApView>, i: int)
    requires
        0 <= i < s.len(),
        s[i].connected,
    ensures
        count_connected(s) >= 1,
    decreases s.len(),
{
    if i == s.len() - 1 {
    } else {
        assert(s.drop_last()[i] == s[i]);
        lemma_count_connected_at_least_one(s.drop_last(), i);
    }
}

/// Two connected entries make the count at least two.
proof fn lemma_count_connected_at_least_two(s: Seq<ApView>, i: int, j: int)
    requires
        0 <= i < j < s.len(),
        s[i].connected,
        s[j].connected,
    ensures
        count_connected(s) >= 2,
    decreases s.len(),
{
    if j == s.len() - 1 {
        assert(s.drop_last()[i] == s[i]);
        lemma_count_connected_at_least_one(s.drop_last(), i);
    } else {
        assert(s.drop_last()[i] == s[i]);
        assert(s.drop_last()[j] == s[j]);
        lemma_count_connected_at_least_two(s.drop_last(), i, j);
    }
}

/// A count of at most one means no two entries are connected.
proof fn lemma_at_most_one_from_count(s: Seq<ApView>)
    requires
        count_connected(s) <= 1,
    ensures
        at_most_one_connected(s),
{
    assert forall|i: int, j: int| 0 <= i < j < s.len() implies !(s[i].connected
        && s[j].connected) by {
        if s[i].connected && s[j].connected {
            lemma_count_connected_at_least_two(s, i, j);
        }
    }
}

/// No two connected entries means a count of at most one.
proof fn lemma_count_from_at_most_one(s: Seq<ApView>)
    requires
        at_most_one_connected(s),
    ensures
        count_connected(s) <= 1,
    decreases s.len(),
{
    if s.len() > 0 {
        let dl = s.drop_last();
        assert(forall|i: int| 0 <= i < dl.len() ==> dl[i] == s[i]);
        lemma_count_from_at_most_one(dl);
        if s.last().connected {
            assert forall|i: int| 0 <= i < dl.len() implies !dl[i].connected by {
                assert(!(s[i].connected && s[s.len() - 1].connected));
            }
            lemma_count_connected_zero(dl);
        }
    }
}

/// Removing one entry lowers the count exactly when that entry is connected.
proof fn lemma_count_connected_remove(s: Seq<ApView>, k: int)
    requires
        0 <= k < s.len(),
    ensures
        count_connected(s) == count_connected(s.remove(k)) + (if s[k].connected {
            1nat
        } else {
            0nat
        }),
    decreases s.len(),
{
    if k == s.len() - 1 {
        assert(s.remove(k) =~= s.drop_last());
    } else {
        let r = s.remove(k);
        assert(r.drop_last() =~= s.drop_last().remove(k));
        assert(r.last() == s.last());
        lemma_count_connected_remove(s.drop_last(), k);
    }
}

/// Sequences with the same multiset of entries count the same number of
/// connected entries.
proof fn lemma_count_connected_multiset(s1: Seq<ApView>, s2: Seq<ApView>)
    requires
        s1.to_multiset() == s2.to_multiset(),
    ensures
        count_connected(s1) == count_connected(s2),
    decreases s1.len(),
{
    broadcast use vstd::seq_lib::group_to_multiset_ensures;
    broadcast use vstd::multiset::group_multiset_axioms;
    broadcast use vstd::multiset::group_multiset_properties;

    if s1.len() == 0 {
        assert(s1.to_multiset().len() == s1.len());
        assert(s2.to_multiset().len() == s2.len());
        assert(s2.len() == 0);
    } else {
        let x = s1.last();
        assert(s1[s1.len() - 1] == x);
        assert(s1.contains(x));
        assert(s2.to_multiset().count(x) > 0);
        assert(s2.contains(x));
        let k = choose|k: int| 0 <= k < s2.len() && s2[k] == x;
        lemma_count_connected_remove(s2, k);
        assert(s1.drop_last() =~= s1.remove(s1.len() - 1));
        assert(s1.drop_last().to_multiset() == s1.to_multiset().remove(x));
        assert(s2.remove(k).to_multiset() == s2.to_multiset().remove(x));
        lemma_count_connected_multiset(s1.drop_last(), s2.remove(k));
    }
}

/// Every entry a build produces carries the hardware address of one of the
/// scan records, and is connected only when that address is the active one.
proof fn lemma_built_views_shape(scans: Seq<ApScanView>, active_bssid: Option<Seq<char>>)
    ensures
        forall|i: int|
            0 <= i < spec_built_views(scans, active_bssid).len() ==> exists|k: int|
                0 <= k < scans.len() && scans[k].bssid == (#[trigger] spec_built_views(
                    scans,
                    active_bssid,
                )[i]).bssid,
        forall|i: int|
            0 <= i < spec_built_views(scans, active_bssid).len() && (#[trigger] spec_built_views(
                scans,
                active_bssid,
            )[i]).connected ==> active_bssid == Some(
                spec_built_views(scans, active_bssid)[i].bssid,
            ),
    decreases scans.len(),
{
    if scans.len() > 0 {
        let dl = scans.drop_last();
        lemma_built_views_shape(dl, active_bssid);
        let rest = spec_built_views(dl, active_bssid);
        let built = spec_built_views(scans, active_bssid);
        assert(forall|k: int| 0 <= k < dl.len() ==> dl[k] == scans[k]);
        match spec_build(scans.last(), active_bssid) {
            Some(ap) => {
                assert(built == rest.push(ap));
                assert(forall|i: int| 0 <= i < rest.len() ==> built[i] == rest[i]);
                assert(built[built.len() - 1] == ap);
                assert(scans[scans.len() - 1] == scans.last());
                assert(scans.last().bssid == ap.bssid);
            },
            None => {
                assert(built == rest);
            },
        }
    }
}

/// Scan records with pairwise distinct hardware addresses build to a sequence
/// in which at most one entry is connected.
proof fn lemma_built_at_most_one_connected(scans: Seq<ApScanView>, active_bssid: Option<Seq<char>>)
    requires
        distinct_bssids(scans),
    ensures
        at_most_one_connected(spec_built_views(scans, active_bssid)),
    decreases scans.len(),
{
    if scans.len() > 0 {
        let dl = scans.drop_last();
        assert(forall|k: int| 0 <= k < dl.len() ==> dl[k] == scans[k]);
        lemma_built_at_most_one_connected(dl, active_bssid);
        let rest = spec_built_views(dl, active_bssid);
        let built = spec_built_views(scans, active_bssid);
        match spec_build(scans.last(), active_bssid) {
            Some(ap) => {
                assert(built == rest.push(ap));
                if ap.connected {
                    assert forall|i: int| 0 <= i < rest.len() implies !rest[i].connected by {
                        if rest[i].connected {
                            lemma_built_views_shape(dl, active_bssid);
                            assert(active_bssid == Some(rest[i].bssid));
                            assert(active_bssid == Some(scans.last().bssid));
                            assert(rest[i].bssid == scans.last().bssid);
                            let k = choose|k: int|
                                0 <= k < dl.len() && dl[k].bssid == rest[i].bssid;
                            assert(scans[k].bssid == scans[scans.len() - 1].bssid);
                        }
                    }
                }
                assert forall|i: int, j: int| 0 <= i < j < built.len() implies !(built[i].connected
                    && built[j].connected) by {
                    if j < rest.len() {
                        assert(built[i] == rest[i] && built[j] == rest[j]);
                    } else {
                        assert(built[j] == ap);
                        assert(built[i] == rest[i]);
                    }
                }
            },
            None => {
                assert(built == rest);
            },
        }
    }
}

/// The connected entry outranks everything else; among entries with the same
/// connection state the stronger signal outranks the weaker.
fn outranks(a: &AccessPoint, b: &AccessPoint) -> (r: bool)
    ensures
        r == (ap_rank(a@) > ap_rank(b@)),
{
    if a.connected == b.connected {
        a.strength > b.strength
    } else {
        a.connected
    }
}

/// Order a snapshot with the connected entry first and stronger signals
/// before weaker ones, keeping exactly the entries it was given.
fn sort_snapshot(src: Vec<AccessPoint>) -> (r: Vec<AccessPoint>)
    ensures
        r.deep_view().to_multiset() == src.deep_view().to_multiset(),
        snapshot_sorted(r.deep_view()),
{
    broadcast use vstd::seq_lib::group_to_multiset_ensures;
    broadcast use vstd::multiset::group_multiset_axioms;
    broadcast use vstd::multiset::group_multiset_properties;

    let ghost src0 = src.deep_view();
    let mut rest = src;
    let mut out: Vec<AccessPoint> = Vec::new();
    proof {
        assert(out.deep_view() =~= Seq::<ApView>::empty());
        assert(out.deep_view().to_multiset().add(rest.deep_view().to_multiset())
            =~= src0.to_multiset());
    }
    while rest.len() > 0
        invariant
            out.deep_view().to_multiset().add(rest.deep_view().to_multiset())
                == src0.to_multiset(),
            snapshot_sorted(out.deep_view()),
            forall|i: int, j: int|
                0 <= i < out.deep_view().len() && 0 <= j < rest.deep_view().len() ==> ap_rank(
                    out.deep_view()[i],
                ) >= ap_rank(rest.deep_view()[j]),
        decreases rest.len(),
    {
        let mut m: usize = 0;
        let mut k: usize = 1;
        while k < rest.len()
            invariant
                0 < rest.len(),
                m < k,
                k <= rest.len(),
                forall|j: int|
                    0 <= j < k ==> ap_rank(rest.deep_view()[m as int]) >= ap_rank(
                        rest.deep_view()[j],
                    ),
            decreases rest.len() - k,
        {
            if outranks(&rest[k], &rest[m]) {
                m = k;
            }
            k = k + 1;
        }
        let ghost out0 = out.deep_view();
        let ghost rest0 = rest.deep_view();
        let ghost picked = rest0[m as int];
        let x = rest.remove(m);
        out.push(x);
        proof {
            assert(rest.deep_view() =~= rest0.remove(m as int));
            assert(out.deep_view() =~= out0.push(picked));
            assert(rest0.contains(picked));
            vstd::seq_lib::to_multiset_contains(rest0, picked);
            vstd::seq_lib::to_multiset_build(out0, picked);
            vstd::seq_lib::to_multiset_remove(rest0, m as int);
            assert(rest0.to_multiset().count(picked) > 0);
            assert(out0.push(picked).to_multiset() == out0.to_multiset().insert(picked));
            assert(rest0.remove(m as int).to_multiset() == rest0.to_multiset().remove(picked));
            assert(out.deep_view().to_multiset().add(rest.deep_view().to_multiset())
                =~= out0.to_multiset().add(rest0.to_multiset()));
            assert forall|i: int, j: int|
                0 <= i < j < out.deep_view().len() implies ap_rank(out.deep_view()[i]) >= ap_rank(
                out.deep_view()[j],
            ) by {
                if j < out0.len() {
                    assert(out.deep_view()[i] == out0[i] && out.deep_view()[j] == out0[j]);
                } else {
                    assert(out.deep_view()[j] == picked);
                    if i < out0.len() {
                        assert(out.deep_view()[i] == out0[i]);
                    }
                }
            }
            assert forall|i: int, j: int|
                0 <= i < out.deep_view().len() && 0 <= j < rest.deep_view().len() implies ap_rank(
                out.deep_view()[i],
            ) >= ap_rank(rest.deep_view()[j]) by {
                let rj = rest.deep_view()[j];
                assert(rj == if j < m as int {
                    rest0[j]
                } else {
                    rest0[j + 1]
                });
                if i < out0.len() {
                    assert(out.deep_view()[i] == out0[i]);
                } else {
                    assert(out.deep_view()[i] == picked);
                }
            }
        }
    }
    proof {
        assert(rest.deep_view() =~= Seq::<ApView>::empty());
        assert(rest.deep_view().to_multiset() =~= Multiset::<ApView>::empty());
        assert(out.deep_view().to_multiset() =~= out.deep_view().to_multiset().add(
            Multiset::<ApView>::empty(),
        ));
    }
    out
}

/// Build the full snapshot: one entry per scan record whose attributes
/// decode, ordered with the connected entry first and stronger signals
/// before weaker ones.
///
/// When the scan records carry pairwise distinct hardware addresses — the
/// daemon reports each radio once per scan — at most one entry of the result
/// is marked connected.
pub fn build_all(scans: Vec<ApScan>, active_bssid: Option<&String>) -> (r: Vec<AccessPoint>)
    ensures
        r.deep_view().to_multiset() == spec_built_views(
            scans.deep_view(),
            active_bssid.deep_view(),
        ).to_multiset(),
        snapshot_sorted(r.deep_view()),
        distinct_bssids(scans.deep_view()) ==> at_most_one_connected(r.deep_view()),
{
    broadcast use vstd::seq_lib::group_to_multiset_ensures;
    broadcast use vstd::multiset::group_multiset_axioms;
    broadcast use vstd::multiset::group_multiset_properties;

    let ghost scans0 = scans.deep_view();
    let ghost active = active_bssid.deep_view();
    let mut remaining = scans;
    let mut built: Vec<AccessPoint> = Vec::new();
    proof {
        assert(built.deep_view() =~= Seq::<ApView>::empty());
        assert(remaining.deep_view() =~= scans0);
        assert(built.deep_view().to_multiset().add(
            spec_built_views(remaining.deep_view(), active).to_multiset(),
        ) =~= spec_built_views(scans0, active).to_multiset());
    }
    while remaining.len() > 0
        invariant
            active == active_bssid.deep_view(),
            built.deep_view().to_multiset().add(
                spec_built_views(remaining.deep_view(), active).to_multiset(),
            ) == spec_built_views(scans0, active).to_multiset(),
        decreases remaining.len(),
    {
        let ghost rem0 = remaining.deep_view();
        let ghost built0 = built.deep_view();
        let scan = remaining.pop().unwrap();
        proof {
            assert(remaining.deep_view() =~= rem0.drop_last());
            assert(scan@ == rem0.last());
        }
        match AccessPoint::build(scan, active_bssid) {
            Ok(ap) => {
                let ghost v = spec_build(rem0.last(), active).unwrap();
                built.push(ap);
                proof {
                    assert(ap@ == v);
                    assert(built.deep_view() =~= built0.push(v));
                    assert(spec_built_views(rem0, active) == spec_built_views(
                        rem0.drop_last(),
                        active,
                    ).push(v));
                    vstd::seq_lib::to_multiset_build(built0, v);
                    vstd::seq_lib::to_multiset_build(
                        spec_built_views(rem0.drop_last(), active),
                        v,
                    );
                    assert(built0.push(v).to_multiset() == built0.to_multiset().insert(v));
                    assert(spec_built_views(rem0.drop_last(), active).push(v).to_multiset()
                        == spec_built_views(rem0.drop_last(), active).to_multiset().insert(v));
                    assert(built.deep_view().to_multiset().add(
                        spec_built_views(remaining.deep_view(), active).to_multiset(),
                    ) =~= built0.to_multiset().add(
                        spec_built_views(rem0, active).to_multiset(),
                    ));
                }
            },
            Err(_) => {
                proof {
                    assert(spec_built_views(rem0, active) == spec_built_views(
                        rem0.drop_last(),
                        active,
                    ));
                }
            },
        }
    }
    proof {
        assert(remaining.deep_view() =~= Seq::<ApScanView>::empty());
        assert(spec_built_views(remaining.deep_view(), active) =~= Seq::<ApView>::empty());
        assert(spec_built_views(remaining.deep_view(), active).to_multiset()
            =~= Multiset::<ApView>::empty());
        assert(built.deep_view().to_multiset() =~= built.deep_view().to_multiset().add(
            Multiset::<ApView>::empty(),
        ));
    }
    let r = sort_snapshot(built);
    proof {
        if distinct_bssids(scans0) {
            lemma_built_at_most_one_connected(scans0, active);
            lemma_count_from_at_most_one(spec_built_views(scans0, active));
            lemma_count_connected_multiset(r.deep_view(), spec_built_views(scans0, active));
            lemma_at_most_one_from_count(r.deep_view());
        }
    }
    r
}

} // verus!
