//! Staff commands: who counts as staff, how long a mute lasts, and what the
//! nuke panel says.

use crate::text::{decimal, enclose, push_decimal, same_text};
use vstd::prelude::*;

verus! {

/// The name of the staff role.
pub const ROLE_STAFF: &'static str = "Staff";

/// The name of the role of very important members.
pub const ROLE_VIP: &'static str = "VIP";

/// A role of the server: its name and its id.
#[derive(Debug, Clone, PartialEq, Eq)]
pub struct RoleRef {
    pub name: String,
    pub id: u64,
}

/// Whether the role at `i` is the first of `roles` with the name `name`.
pub open spec fn is_first_named(roles: Seq<RoleRef>, name: Seq<char>, i: int) -> bool {
    &&& 0 <= i < roles.len()
    &&& roles[i].name@ == name
    &&& forall|j: int| 0 <= j < i ==> (#[trigger] roles[j]).name@ != name
}

/// Whether no role of `roles` has the name `name`.
pub open spec fn none_named(roles: Seq<RoleRef>, name: Seq<char>) -> bool {
    forall|j: int| 0 <= j < roles.len() ==> (#[trigger] roles[j]).name@ != name
}

/// The id of the first role with the name `name`.
pub fn first_role_named(roles: &[RoleRef], name: &str) -> (id: Option<u64>)
    ensures
        match id {
            Some(found) => exists|i: int|
                is_first_named(roles@, name@, i) && (#[trigger] roles@[i]).id == found,
            None => none_named(roles@, name@),
        },
{
    let mut i: usize = 0;
    while i < roles.len()
        invariant
            i <= roles@.len(),
            forall|j: int| 0 <= j < i ==> (#[trigger] roles@[j]).name@ != name@,
        decreases roles@.len() - i,
    {
        if same_text(roles[i].name.as_str(), name) {
            assert(is_first_named(roles@, name@, i as int));
            return Some(roles[i].id);
        }
        i += 1;
    }
    None
}

/// Whether `ids` holds `id`.
pub fn holds_id(ids: &[u64], id: u64) -> (found: bool)
    ensures
        found == ids@.contains(id),
{
    let mut i: usize = 0;
    while i < ids.len()
        invariant
            i <= ids@.len(),
            forall|j: int| 0 <= j < i ==> ids@[j] != id,
        decreases ids@.len() - i,
    {
        if ids[i] == id {
            return true;
        }
        i += 1;
    }
    false
}

/// Whether a member with the roles `member_roles` has `role`.
pub open spec fn has_role(member_roles: Seq<u64>, role: Option<u64>) -> bool {
    match role {
        Some(id) => member_roles.contains(id),
        None => false,
    }
}

/// Whether a member counts as staff: they hold the server's staff role or its
/// role of very important members. `guild_roles` are the server's roles in
/// their order, `member_roles` the ids of the member's roles.
pub fn is_staff(guild_roles: &[RoleRef], member_roles: &[u64]) -> (staff: bool)
    ensures
        exists|staff_role: Option<u64>, vip_role: Option<u64>|
            #![trigger has_role(member_roles@, staff_role), has_role(member_roles@, vip_role)]
            {
                &&& role_found(guild_roles@, ROLE_STAFF@, staff_role)
                &&& role_found(guild_roles@, ROLE_VIP@, vip_role)
                &&& staff == (has_role(member_roles@, staff_role) || has_role(
                    member_roles@,
                    vip_role,
                ))
            },
{
    let staff_role = first_role_named(guild_roles, ROLE_STAFF);
    let vip_role = first_role_named(guild_roles, ROLE_VIP);
    let as_staff = match staff_role {
        Some(id) => holds_id(member_roles, id),
        None => false,
    };
    let as_vip = match vip_role {
        Some(id) => holds_id(member_roles, id),
        None => false,
    };
    assert(role_found(guild_roles@, ROLE_STAFF@, staff_role));
    assert(role_found(guild_roles@, ROLE_VIP@, vip_role));
    assert(as_staff == has_role(member_roles@, staff_role));
    assert(as_vip == has_role(member_roles@, vip_role));
    as_staff || as_vip
}

/// Whether `found` is the id of the first role named `name`, or `None` where
/// no role has that name.
pub open spec fn role_found(roles: Seq<RoleRef>, name: Seq<char>, found: Option<u64>) -> bool {
    match found {
        Some(id) => exists|i: int| is_first_named(roles, name, i) && (#[trigger] roles[i]).id == id,
        None => none_named(roles, name),
    }
}

/// The delay of a slowmode, in seconds: twenty where none is given.
pub fn slowmode_delay(delay: Option<u16>) -> (secs: u16)
    ensures
        secs == match delay {
            Some(d) => d,
            None => 20u16,
        },
{
    match delay {
        Some(d) => d,
        None => 20,
    }
}

/// How long a mute lasts.
#[derive(Debug, Clone, Copy, PartialEq, Eq, Structural)]
pub enum MuteLength {
    Mins10,
    Mins20,
    Hours1,
    Hours2,
    Hours8,
    Days1,
    Days4,
    Days7,
    Weeks4,
    Indefinitely,
}

/// The seconds of a mute, or `None` for one without end.
pub open spec fn mute_seconds(length: MuteLength) -> Option<i64> {
    match length {
        MuteLength::Mins10 => Some(600i64),
        MuteLength::Mins20 => Some(1_200i64),
        MuteLength::Hours1 => Some(3_600i64),
        MuteLength::Hours2 => Some(7_200i64),
        MuteLength::Hours8 => Some(28_800i64),
        MuteLength::Days1 => Some(86_400i64),
        MuteLength::Days4 => Some(345_600i64),
        MuteLength::Days7 => Some(604_800i64),
        MuteLength::Weeks4 => Some(2_419_200i64),
        MuteLength::Indefinitely => None,
    }
}

/// Looks up the seconds of a mute.
pub fn mute_duration(length: MuteLength) -> (secs: Option<i64>)
    ensures
        secs == mute_seconds(length),
{
    match length {
        MuteLength::Mins10 => Some(600),
        MuteLength::Mins20 => Some(1_200),
        MuteLength::Hours1 => Some(3_600),
        MuteLength::Hours2 => Some(7_200),
        MuteLength::Hours8 => Some(28_800),
        MuteLength::Days1 => Some(86_400),
        MuteLength::Days4 => Some(345_600),
        MuteLength::Days7 => Some(604_800),
        MuteLength::Weeks4 => Some(2_419_200),
        MuteLength::Indefinitely => None,
    }
}

/// Why a mute was not carried out.
#[derive(Debug, Clone, Copy, PartialEq, Eq, Structural)]
pub enum MuteError {
    /// Both a length and an end were given.
    BothGiven,
    /// Neither a length nor an end was given.
    NeitherGiven,
    /// The end lies beyond what a timestamp can hold.
    EndOutOfRange,
}

impl MuteError {
    /// What is said of the error.
    pub open spec fn text(self) -> Seq<char> {
        match self {
            MuteError::BothGiven => "Provided `mute_length` and `until` options when only one of them should be sent"@,
            MuteError::NeitherGiven => "One of `mute_length` and `until` should be sent"@,
            MuteError::EndOutOfRange => "The mute would end beyond the range of timestamps"@,
        }
    }

    /// Writes what is said of the error.
    pub fn message(&self) -> (message: &'static str)
        ensures
            message@ == self.text(),
    {
        match self {
            MuteError::BothGiven => "Provided `mute_length` and `until` options when only one of them should be sent",
            MuteError::NeitherGiven => "One of `mute_length` and `until` should be sent",
            MuteError::EndOutOfRange => "The mute would end beyond the range of timestamps",
        }
    }
}

/// When a mute ends, in seconds since the epoch; `None` for a mute without
/// end. Exactly one of `mute_length` and `until` must be given.
pub open spec fn mute_end_of(mute_length: Option<MuteLength>, until: Option<i64>, now: i64)
    -> Result<Option<i64>, MuteError> {
    match (mute_length, until) {
        (Some(_), Some(_)) => Err(MuteError::BothGiven),
        (None, None) => Err(MuteError::NeitherGiven),
        (Some(length), None) => match mute_seconds(length) {
            Some(secs) => if now + secs <= i64::MAX {
                Ok(Some((now + secs) as i64))
            } else {
                Err(MuteError::EndOutOfRange)
            },
            None => Ok(None),
        },
        (None, Some(end)) => Ok(Some(end)),
    }
}

/// Settles when a mute that starts at `now` ends.
pub fn mute(mute_length: Option<MuteLength>, until: Option<i64>, now: i64) -> (end: Result<
    Option<i64>,
    MuteError,
>)
    ensures
        end == mute_end_of(mute_length, until, now),
{
    match (mute_length, until) {
        (Some(_), Some(_)) => Err(MuteError::BothGiven),
        (None, None) => Err(MuteError::NeitherGiven),
        (Some(length), None) => match mute_duration(length) {
            Some(secs) => {
                if now <= i64::MAX - secs {
                    Ok(Some(now + secs))
                } else {
                    Err(MuteError::EndOutOfRange)
                }
            },
            None => Ok(None),
        },
        (None, Some(end)) => Ok(Some(end)),
    }
}

/// What is said once a member is muted; `until` is the end as it is shown.
pub fn mute_message(member: &str, until: Option<&str>) -> (message: String)
    ensures
        message@ == match until {
            Some(end) => member@ + " was muted until "@ + end@ + "."@,
            None => member@ + " was muted indefinitely."@,
        },
{
    match until {
        Some(end) => {
            let mut message = enclose(member, " was muted until ", end);
            message.append(".");
            message
        },
        None => {
            let mut message = String::from_str(member);
            message.append(" was muted indefinitely.");
            message
        },
    }
}

/// Whether one of `names` is `name`.
pub open spec fn lists_name(names: Seq<&str>, name: Seq<char>) -> bool {
    exists|i: int| 0 <= i < names.len() && (#[trigger] names[i])@ == name
}

/// Whether a channel may not be locked or unlocked because of where it
/// stands: its parent is a category, and the category's name is one of
/// `privileged`.
pub fn is_privileged_category(is_category: bool, name: &str, privileged: &[&str]) -> (privileged_one:
    bool)
    ensures
        privileged_one == (is_category && lists_name(privileged@, name@)),
{
    if !is_category {
        return false;
    }
    let mut i: usize = 0;
    while i < privileged.len()
        invariant
            is_category,
            i <= privileged@.len(),
            forall|j: int| 0 <= j < i ==> (#[trigger] privileged@[j])@ != name@,
        decreases privileged@.len() - i,
    {
        if same_text(privileged[i], name) {
            return true;
        }
        i += 1;
    }
    false
}

/// The id of the button that stops a nuke.
pub const NUKE_CANCEL_BUTTON_ID: &'static str = "nuke-cancel";

/// The seconds that a nuke counts down from.
pub const COUNTDOWN_START_SECS: u64 = 10;

/// Whether a press stops the nuke: it is a button and carries the id of the
/// cancel button.
pub fn is_nuke_cancel(is_button: bool, custom_id: &str) -> (cancel: bool)
    ensures
        cancel == (is_button && custom_id@ == NUKE_CANCEL_BUTTON_ID@),
{
    is_button && same_text(custom_id, NUKE_CANCEL_BUTTON_ID)
}

/// What the nuke panel says while `secs` seconds are left.
pub open spec fn nuke_panel_text(count: u8, channel: Seq<char>, secs: u64) -> Seq<char> {
    decimal(count as nat) + " messages will be deleted from "@ + channel + " in **"@ + decimal(
        secs as nat,
    ) + (if secs > 1 {
        " seconds"@
    } else {
        " second"@
    }) + "**...\n\nTo stop this nuke, press the red button below!\n"@
}

/// Writes what the nuke panel says while `secs` seconds are left.
pub fn nuke_panel(count: u8, channel: &str, secs: u64) -> (text: String)
    ensures
        text@ == nuke_panel_text(count, channel@, secs),
{
    let mut text = String::new();
    push_decimal(&mut text, count as u64);
    text.append(" messages will be deleted from ");
    text.append(channel);
    text.append(" in **");
    push_decimal(&mut text, secs);
    if secs > 1 {
        text.append(" seconds");
    } else {
        text.append(" second");
    }
    text.append("**...\n\nTo stop this nuke, press the red button below!\n");
    assert(text@ =~= nuke_panel_text(count, channel@, secs));
    text
}

/// What is said while the messages are deleted (`done` false) and once they
/// are gone (`done` true).
pub fn nuke(count: u8, done: bool) -> (text: String)
    ensures
        text@ == if done {
            "Nuked "@ + decimal(count as nat) + " messages."@
        } else {
            "Now nuking "@ + decimal(count as nat) + " messages from the channel ..."@
        },
{
    let n = crate::text::decimal_string(count as u64);
    if done {
        enclose("Nuked ", n.as_str(), " messages.")
    } else {
        enclose("Now nuking ", n.as_str(), " messages from the channel ...")
    }
}

} // verus!
