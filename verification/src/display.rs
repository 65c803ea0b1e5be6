//! What the screen says: the texts and levels that a front end draws,
//! computed from the state and free of any drawing.

use crate::battery::{BatteryInfo, BatteryView};
use crate::profile::{Profile, PROFILE_COUNT};
use crate::text::{decimal, push_decimal};
use vstd::prelude::*;

verus! {

/// How full the battery is, in three steps that a front end can colour.
#[derive(Clone, Copy, Debug, PartialEq, Eq, Structural)]
pub enum ChargeLevel {
    Low,
    Medium,
    High,
}

/// One row of the profile list, ready to draw.
pub struct ProfileRow {
    pub text: String,
    /// Whether the row is that of the active profile.
    pub active: bool,
}

/// What a `ProfileRow` holds.
pub struct ProfileRowView {
    pub text: Seq<char>,
    pub active: bool,
}

impl View for ProfileRow {
    type V = ProfileRowView;

    open spec fn view(&self) -> ProfileRowView {
        ProfileRowView { text: self.text@, active: self.active }
    }
}

impl ProfileRow {
    /// The row of `profile` while `current` is the active profile.
    pub open spec fn of(profile: Profile, current: Option<Profile>) -> ProfileRowView {
        ProfileRowView {
            text: profile_row_text(profile, current),
            active: current == Some(profile),
        }
    }
}

/// The highest capacity that still counts as low.
pub const LOW_CHARGE_MAX: u8 = 20;

/// The highest capacity that still counts as medium.
pub const MEDIUM_CHARGE_MAX: u8 = 50;

/// The level of a capacity in percent.
pub open spec fn charge_level_of(capacity: int) -> ChargeLevel {
    if capacity <= LOW_CHARGE_MAX {
        ChargeLevel::Low
    } else if capacity <= MEDIUM_CHARGE_MAX {
        ChargeLevel::Medium
    } else {
        ChargeLevel::High
    }
}

/// The battery line: capacity and status, then the time estimate in
/// brackets and the health, each where known.
pub open spec fn battery_label_text(battery: BatteryView) -> Seq<char> {
    let time = match battery.time_remaining {
        Some(t) => "  ("@ + t + ")"@,
        None => Seq::<char>::empty(),
    };
    let health = match battery.health {
        Some(h) => "  Health: "@ + decimal(h as nat) + "%"@,
        None => Seq::<char>::empty(),
    };
    decimal(battery.capacity as nat) + "%  "@ + battery.status + time + health
}

/// One row of the profile list: a marker where the profile is the active
/// one, its name, and its governor in brackets.
pub open spec fn profile_row_text(profile: Profile, current: Option<Profile>) -> Seq<char> {
    let marker = if current == Some(profile) {
        " \u{25cf} "@
    } else {
        "   "@
    };
    marker + profile.name_text() + " ("@ + profile.governor_text() + ")"@
}

/// The bottom line: the message where there is one, else the key help.
pub open spec fn footer_text_of(message: Option<Seq<char>>) -> Seq<char> {
    match message {
        Some(m) => m,
        None => "j/k navigate  Enter select  r refresh  q quit"@,
    }
}

/// The level of a capacity in percent.
pub fn charge_level(capacity: u8) -> (level: ChargeLevel)
    ensures
        level == charge_level_of(capacity as int),
{
    if capacity <= LOW_CHARGE_MAX {
        ChargeLevel::Low
    } else if capacity <= MEDIUM_CHARGE_MAX {
        ChargeLevel::Medium
    } else {
        ChargeLevel::High
    }
}

/// The battery line of a snapshot.
pub fn battery_label(info: &BatteryInfo) -> (label: String)
    ensures
        label@ == battery_label_text(info@),
{
    let mut label = String::new();
    push_decimal(&mut label, info.capacity() as u64);
    label.append("%  ");
    label.append(info.status());
    if let Some(t) = info.time_remaining() {
        label.append("  (");
        label.append(t);
        label.append(")");
    }
    if let Some(h) = info.health() {
        label.append("  Health: ");
        push_decimal(&mut label, h as u64);
        label.append("%");
    }
    label
}

/// One row of the profile list.
pub fn profile_row(profile: Profile, current: Option<Profile>) -> (row: String)
    ensures
        row@ == profile_row_text(profile, current),
{
    let is_current = match current {
        Some(p) => p == profile,
        None => false,
    };
    let mut row = String::new();
    row.append(if is_current { " \u{25cf} " } else { "   " });
    row.append(profile.name());
    row.append(" (");
    row.append(profile.governor());
    row.append(")");
    row
}

/// The rows of the profile list, in registry order.
pub fn profile_rows(current: Option<Profile>) -> (rows: Vec<ProfileRow>)
    ensures
        rows.len() == PROFILE_COUNT,
        forall|i: int|
            0 <= i < rows.len() ==> (#[trigger] rows[i])@ == ProfileRow::of(Profile::at(i), current),
{
    let all = Profile::all();
    let mut rows: Vec<ProfileRow> = Vec::new();
    let mut i: usize = 0;
    while i < all.len()
        invariant
            i <= all.len(),
            all.len() == PROFILE_COUNT,
            rows.len() == i,
            forall|k: int| 0 <= k < all.len() ==> all[k] == Profile::at(k),
            forall|k: int|
                0 <= k < i ==> (#[trigger] rows[k])@ == ProfileRow::of(Profile::at(k), current),
        decreases all.len() - i,
    {
        let profile = all[i];
        let active = match current {
            Some(p) => p == profile,
            None => false,
        };
        rows.push(ProfileRow { text: profile_row(profile, current), active });
        i += 1;
    }
    rows
}

/// The bottom line.
pub fn footer_text(message: Option<&str>) -> (line: String)
    ensures
        line@ == footer_text_of(
            match message {
                Some(m) => Some(m@),
                None => None,
            },
        ),
{
    match message {
        Some(m) => m.to_owned(),
        None => "j/k navigate  Enter select  r refresh  q quit".to_owned(),
    }
}

} // verus!
