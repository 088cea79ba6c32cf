//! The operation dispatcher's decisions.
//!
//! Every connection-changing operation is fire-and-forget against the daemon;
//! what the engine owns — and what is verified here — is the decision which
//! operation a confirm action performs, the profile description `connect`
//! submits, and which active connection `disconnect` deactivates.

use crate::settings::{Section, SectionView, Setting, SettingValue, SettingValueView, SettingView};
use crate::snapshot::{AccessPoint, ApView};
use vstd::prelude::*;
use vstd::string::StrSliceExecFns;
use vstd::string::StringSliceAdditionalSpecFns;
use vstd::utf8::encode_utf8;

verus! {

/// The profile description `connect` submits for a new network: connection
/// id and type, wireless mode and the raw SSID bytes, and — only when a
/// password was collected — a security section with open authentication,
/// WPA-PSK key management, and the password as pre-shared key.
pub open spec fn spec_connection_settings(ssid: Seq<char>, password: Option<Seq<char>>) -> Seq<
    SectionView,
> {
    let base = seq![
        SectionView {
            name: "connection"@,
            settings: seq![
                SettingView { key: "id"@, value: SettingValueView::Text(ssid) },
                SettingView { key: "type"@, value: SettingValueView::Text("802-11-wireless"@) },
            ],
        },
        SectionView {
            name: "802-11-wireless"@,
            settings: seq![
                SettingView { key: "mode"@, value: SettingValueView::Text("infrastructure"@) },
                SettingView { key: "ssid"@, value: SettingValueView::Bytes(encode_utf8(ssid)) },
            ],
        },
    ];
    match password {
        Some(psk) => base.push(
            SectionView {
                name: "802-11-wireless-security"@,
                settings: seq![
                    SettingView { key: "auth-alg"@, value: SettingValueView::Text("open"@) },
                    SettingView { key: "key-mgmt"@, value: SettingValueView::Text("wpa-psk"@) },
                    SettingView { key: "psk"@, value: SettingValueView::Text(psk) },
                ],
            },
        ),
        None => base,
    }
}

/// Build the in-memory profile description for connecting to a new network.
///
/// Without a password the description has no security section at all.
pub fn connection_settings(ssid: &String, password: &Option<String>) -> (r: Vec<Section>)
    ensures
        r.deep_view() == spec_connection_settings(ssid@, password.deep_view()),
{
    let mut connection_entries: Vec<Setting> = Vec::new();
    connection_entries.push(
        Setting { key: "id".to_owned(), value: SettingValue::Text(ssid.clone()) },
    );
    connection_entries.push(
        Setting { key: "type".to_owned(), value: SettingValue::Text("802-11-wireless".to_owned()) },
    );

    let ssid_bytes = ssid.as_str().as_bytes_vec();
    proof {
        assert(ssid_bytes@ == encode_utf8(ssid@));
    }
    let mut wifi_entries: Vec<Setting> = Vec::new();
    wifi_entries.push(
        Setting { key: "mode".to_owned(), value: SettingValue::Text("infrastructure".to_owned()) },
    );
    wifi_entries.push(Setting { key: "ssid".to_owned(), value: SettingValue::Bytes(ssid_bytes) });

    let mut sections: Vec<Section> = Vec::new();
    sections.push(Section { name: "connection".to_owned(), settings: connection_entries });
    sections.push(Section { name: "802-11-wireless".to_owned(), settings: wifi_entries });

    match password {
        Some(psk) => {
            let mut security_entries: Vec<Setting> = Vec::new();
            security_entries.push(
                Setting { key: "auth-alg".to_owned(), value: SettingValue::Text("open".to_owned()) },
            );
            security_entries.push(
                Setting {
                    key: "key-mgmt".to_owned(),
                    value: SettingValue::Text("wpa-psk".to_owned()),
                },
            );
            security_entries.push(
                Setting { key: "psk".to_owned(), value: SettingValue::Text(psk.clone()) },
            );
            sections.push(
                Section { name: "802-11-wireless-security".to_owned(), settings: security_entries },
            );
            proof {
                assert(sections.deep_view() =~~= spec_connection_settings(
                    ssid@,
                    password.deep_view(),
                ));
            }
            sections
        },
        None => {
            proof {
                assert(sections.deep_view() =~~= spec_connection_settings(
                    ssid@,
                    password.deep_view(),
                ));
            }
            sections
        },
    }
}

/// The daemon operation a confirm action fires for one access point.
#[derive(Debug)]
pub enum NetworkOp {
    /// Deactivate the active connection whose id is this SSID.
    Disconnect { ssid: String },
    /// Activate a saved profile against this access point.
    Reconnect { profile: String, ap_path: String },
    /// Create and activate a new profile against this access point.
    Connect { ap_path: String, ssid: String, password: Option<String> },
}

/// Model of a [`NetworkOp`].
#[verifier::ext_equal]
pub enum NetworkOpView {
    Disconnect { ssid: Seq<char> },
    Reconnect { profile: Seq<char>, ap_path: Seq<char> },
    Connect { ap_path: Seq<char>, ssid: Seq<char>, password: Option<Seq<char>> },
}

impl View for NetworkOp {
    type V = NetworkOpView;

    open spec fn view(&self) -> NetworkOpView {
        match self {
            NetworkOp::Disconnect { ssid } => NetworkOpView::Disconnect { ssid: ssid@ },
            NetworkOp::Reconnect { profile, ap_path } => NetworkOpView::Reconnect {
                profile: profile@,
                ap_path: ap_path@,
            },
            NetworkOp::Connect { ap_path, ssid, password } => NetworkOpView::Connect {
                ap_path: ap_path@,
                ssid: ssid@,
                password: password.deep_view(),
            },
        }
    }
}

impl DeepView for NetworkOp {
    type V = NetworkOpView;

    open spec fn deep_view(&self) -> NetworkOpView {
        self.view()
    }
}

/// The decision rule for a confirm action: a connected access point is
/// disconnected; otherwise a known one (a saved profile exists for its
/// hardware address) is reconnected through that profile; otherwise a new
/// connection is created, with whatever password was collected.
pub open spec fn spec_choose_operation(
    ap: ApView,
    profile: Option<Seq<char>>,
    password: Option<Seq<char>>,
) -> NetworkOpView {
    if ap.connected {
        NetworkOpView::Disconnect { ssid: ap.ssid }
    } else {
        match profile {
            Some(profile) => NetworkOpView::Reconnect { profile, ap_path: ap.path },
            None => NetworkOpView::Connect { ap_path: ap.path, ssid: ap.ssid, password },
        }
    }
}

/// Decide which operation a confirm action performs for this access point.
///
/// The dispatcher does not validate that a password is present: collecting
/// one for a private, unknown network is the dialog's duty.
pub fn choose_operation(
    ap: &AccessPoint,
    profile: &Option<String>,
    password: Option<String>,
) -> (r: NetworkOp)
    ensures
        r@ == spec_choose_operation(ap@, profile.deep_view(), password.deep_view()),
{
    if ap.connected {
        NetworkOp::Disconnect { ssid: ap.ssid.clone() }
    } else {
        match profile {
            Some(profile) => NetworkOp::Reconnect {
                profile: profile.clone(),
                ap_path: ap.path.clone(),
            },
            None => NetworkOp::Connect {
                ap_path: ap.path.clone(),
                ssid: ap.ssid.clone(),
                password,
            },
        }
    }
}

/// One active connection the daemon reports: its object-path handle and its
/// connection id.
pub struct ActiveConnection {
    /// Remote object-path handle of the active connection.
    pub path: String,
    /// The id of the connection.
    pub id: String,
}

/// Model of an [`ActiveConnection`].
#[verifier::ext_equal]
pub struct ActiveConnectionView {
    pub path: Seq<char>,
    pub id: Seq<char>,
}

impl View for ActiveConnection {
    type V = ActiveConnectionView;

    open spec fn view(&self) -> ActiveConnectionView {
        ActiveConnectionView { path: self.path@, id: self.id@ }
    }
}

impl DeepView for ActiveConnection {
    type V = ActiveConnectionView;

    open spec fn deep_view(&self) -> ActiveConnectionView {
        self.view()
    }
}

/// Find the active connection `disconnect` deactivates: the first one whose
/// id equals the SSID. With no match, `disconnect` is a no-op with no side
/// effects and no error.
pub fn find_active_connection(actives: &Vec<ActiveConnection>, ssid: &String) -> (r: Option<usize>)
    ensures
        r matches Some(i) ==> i < actives.len() && actives.deep_view()[i as int].id == ssid@ && (
        forall|j: int| 0 <= j < i ==> actives.deep_view()[j].id != ssid@),
        r is None ==> forall|j: int|
            0 <= j < actives.len() ==> actives.deep_view()[j].id != ssid@,
{
    let mut i: usize = 0;
    while i < actives.len()
        invariant
            i <= actives.len(),
            forall|j: int| 0 <= j < i ==> actives.deep_view()[j].id != ssid@,
        decreases actives.len() - i,
    {
        if actives[i].id.eq(ssid) {
            return Some(i);
        }
        i = i + 1;
    }
    None
}

} // verus!
