//! What the renderer shows for one access point: the row in the list and the
//! per-network dialog. The widget toolkit itself sits outside the engine;
//! these models say exactly what it must display.

use crate::icon::Icon;
use crate::snapshot::{spec_band, AccessPoint, Band};
use vstd::prelude::*;

verus! {

/// Everything one list row shows for an access point.
pub struct RowModel {
    /// The network name.
    pub title: String,
    /// The marker under the title; present exactly on the connected entry.
    pub subtitle: Option<String>,
    /// Icon for the signal strength.
    pub strength_icon: Icon,
    /// Lock icon: locked for a private network, unlocked otherwise.
    pub access_icon: Icon,
    /// The frequency band of the network.
    pub band: Band,
}

/// Derive the row a snapshot entry is rendered as.
pub fn row_model(ap: &AccessPoint) -> (r: RowModel)
    ensures
        r.title@ == ap.ssid@,
        ap.connected ==> (r.subtitle matches Some(s) && s@ == "Connected"@),
        !ap.connected ==> r.subtitle is None,
        r.strength_icon == Icon::spec_wifi_from_strength(ap.strength),
        r.access_icon == (if ap.private {
            Icon::Locked
        } else {
            Icon::Unlocked
        }),
        r.band == spec_band(ap.frequency),
{
    RowModel {
        title: ap.ssid.clone(),
        subtitle: if ap.connected {
            Some("Connected".to_owned())
        } else {
            None
        },
        strength_icon: Icon::wifi_from_strength(ap.strength),
        access_icon: if ap.private {
            Icon::Locked
        } else {
            Icon::Unlocked
        },
        band: ap.band(),
    }
}

/// What the per-network dialog offers for an access point, given whether a
/// saved profile exists for its hardware address.
pub struct DialogModel {
    /// A password entry is shown only for a private network that is neither
    /// connected nor known.
    pub needs_password: bool,
    /// A forget button is offered exactly for a known network.
    pub offers_forget: bool,
    /// The confirm button's label.
    pub confirm_label: String,
}

/// Derive the dialog for an access point.
pub fn dialog_model(ap: &AccessPoint, profile: &Option<String>) -> (r: DialogModel)
    ensures
        r.needs_password == (!ap.connected && ap.private && profile is None),
        r.offers_forget == (profile is Some),
        ap.connected ==> r.confirm_label@ == "Disconnect"@,
        !ap.connected ==> r.confirm_label@ == "Connect"@,
{
    DialogModel {
        needs_password: !ap.connected && ap.private && matches!(profile, None),
        offers_forget: matches!(profile, Some(_)),
        confirm_label: if ap.connected {
            "Disconnect".to_owned()
        } else {
            "Connect".to_owned()
        },
    }
}

} // verus!
