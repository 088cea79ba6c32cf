//! Icons shown beside an access point row.

use vstd::prelude::*;

verus! {

/// Built-in symbolic icons the panel renders.
#[derive(Clone, Copy, Debug, PartialEq, Eq, Structural)]
pub enum Icon {
    Locked,
    Unlocked,
    WiFiNone,
    WiFiWeak,
    WiFiOk,
    WiFiGood,
    WiFiExcellent,
}

impl Icon {
    /// The WiFi icon that belongs to a signal strength, in percent.
    pub open spec fn spec_wifi_from_strength(strength: u8) -> Icon {
        if strength <= 10 {
            Icon::WiFiNone
        } else if strength <= 25 {
            Icon::WiFiWeak
        } else if strength <= 60 {
            Icon::WiFiOk
        } else if strength <= 80 {
            Icon::WiFiGood
        } else {
            Icon::WiFiExcellent
        }
    }

    /// Get WiFi icon from signal strength.
    pub fn wifi_from_strength(strength: u8) -> (icon: Self)
        ensures
            icon == Self::spec_wifi_from_strength(strength),
    {
        if strength <= 10 {
            Self::WiFiNone
        } else if strength <= 25 {
            Self::WiFiWeak
        } else if strength <= 60 {
            Self::WiFiOk
        } else if strength <= 80 {
            Self::WiFiGood
        } else {
            Self::WiFiExcellent
        }
    }

    /// The name of this icon in the icon theme.
    pub open spec fn spec_name(self) -> Seq<char> {
        match self {
            Icon::Locked => "changes-prevent-symbolic"@,
            Icon::Unlocked => "changes-allow-symbolic"@,
            Icon::WiFiNone => "network-wireless-signal-none-symbolic"@,
            Icon::WiFiWeak => "network-wireless-signal-weak-symbolic"@,
            Icon::WiFiOk => "network-wireless-signal-ok-symbolic"@,
            Icon::WiFiGood => "network-wireless-signal-good-symbolic"@,
            Icon::WiFiExcellent => "network-wireless-signal-excellent-symbolic"@,
        }
    }

    /// Get the icon-theme name for this icon.
    pub fn name(&self) -> (name: &'static str)
        ensures
            name@ == self.spec_name(),
    {
        match self {
            Self::Locked => "changes-prevent-symbolic",
            Self::Unlocked => "changes-allow-symbolic",
            Self::WiFiNone => "network-wireless-signal-none-symbolic",
            Self::WiFiWeak => "network-wireless-signal-weak-symbolic",
            Self::WiFiOk => "network-wireless-signal-ok-symbolic",
            Self::WiFiGood => "network-wireless-signal-good-symbolic",
            Self::WiFiExcellent => "network-wireless-signal-excellent-symbolic",
        }
    }
}

} // verus!
