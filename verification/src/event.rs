//! Event roles: what enabling or disabling one comes to, and what is said
//! about it.

use crate::text::enclose;
use vstd::prelude::*;

verus! {

/// What enabling an event's role came to.
#[derive(Debug, Clone, Copy, PartialEq, Eq, Structural)]
pub enum EnableRoleResponse {
    RoleCreated,
    RoleAlreadyEnabled,
}

/// What disabling an event's role came to.
#[derive(Debug, Clone, Copy, PartialEq, Eq, Structural)]
pub enum DisableRoleResponse {
    RoleRemoved,
    RoleAlreadyDisabled,
}

/// Whether a role is to be enabled or disabled.
#[derive(Debug, Clone, Copy, PartialEq, Eq, Structural)]
pub enum EnableDisable {
    Enable,
    Disable,
}

/// What enabling comes to: a role that exists is left alone, a missing one
/// is created.
pub fn enable_event_role(role_exists: bool) -> (response: EnableRoleResponse)
    ensures
        response == if role_exists {
            EnableRoleResponse::RoleAlreadyEnabled
        } else {
            EnableRoleResponse::RoleCreated
        },
{
    if role_exists {
        EnableRoleResponse::RoleAlreadyEnabled
    } else {
        EnableRoleResponse::RoleCreated
    }
}

/// What disabling comes to: a role that exists is deleted, a missing one is
/// left missing.
pub fn disable_event_role(role_exists: bool) -> (response: DisableRoleResponse)
    ensures
        response == if role_exists {
            DisableRoleResponse::RoleRemoved
        } else {
            DisableRoleResponse::RoleAlreadyDisabled
        },
{
    if role_exists {
        DisableRoleResponse::RoleRemoved
    } else {
        DisableRoleResponse::RoleAlreadyDisabled
    }
}

/// What is said once a role has been enabled.
pub open spec fn role_enable_text(status: EnableRoleResponse, event_name: Seq<char>) -> Seq<char> {
    match status {
        EnableRoleResponse::RoleCreated => "Role for `"@ + event_name + "` has been added."@,
        EnableRoleResponse::RoleAlreadyEnabled => "Role for `"@ + event_name
            + "` has already been added."@,
    }
}

/// What is said once a role has been disabled.
pub open spec fn role_disable_text(status: DisableRoleResponse, event_name: Seq<char>) -> Seq<
    char,
> {
    match status {
        DisableRoleResponse::RoleRemoved => "Role for `"@ + event_name + "` has been deleted."@,
        DisableRoleResponse::RoleAlreadyDisabled => "Role for `"@ + event_name
            + "` has already been deleted."@,
    }
}

/// Writes what is said once a role has been enabled.
pub fn role_enable_message(status: &EnableRoleResponse, event_name: &str) -> (message: String)
    ensures
        message@ == role_enable_text(*status, event_name@),
{
    match status {
        EnableRoleResponse::RoleCreated => enclose("Role for `", event_name, "` has been added."),
        EnableRoleResponse::RoleAlreadyEnabled => enclose(
            "Role for `",
            event_name,
            "` has already been added.",
        ),
    }
}

/// Writes what is said once a role has been disabled.
pub fn role_disable_message(status: &DisableRoleResponse, event_name: &str) -> (message: String)
    ensures
        message@ == role_disable_text(*status, event_name@),
{
    match status {
        DisableRoleResponse::RoleRemoved => enclose(
            "Role for `",
            event_name,
            "` has been deleted.",
        ),
        DisableRoleResponse::RoleAlreadyDisabled => enclose(
            "Role for `",
            event_name,
            "` has already been deleted.",
        ),
    }
}

/// What is said of a name that is no event.
pub fn not_an_event_message(event_name: &str) -> (message: String)
    ensures
        message@ == "`"@ + event_name@ + "` is not an event!"@,
{
    enclose("`", event_name, "` is not an event!")
}

/// The pieces of a list that commas separate: one more piece than there are
/// commas, each piece as it stands, empty ones too.
pub open spec fn comma_pieces(list: Seq<char>) -> Seq<Seq<char>>
    decreases list.len(),
{
    if list.len() == 0 {
        seq![Seq::<char>::empty()]
    } else {
        let before = comma_pieces(list.drop_last());
        if list.last() == ',' {
            before.push(Seq::<char>::empty())
        } else {
            before.update(before.len() - 1, before.last().push(list.last()))
        }
    }
}

/// The names of a list, by their text.
pub open spec fn name_texts(names: Seq<String>) -> Seq<Seq<char>> {
    names.map_values(|name: String| name@)
}

/// Splits a list of event names at its commas.
pub fn event_names(event_name_csv_list: &str) -> (names: Vec<String>)
    ensures
        name_texts(names@) == comma_pieces(event_name_csv_list@),
{
    let list = event_name_csv_list;
    let n = list.unicode_len();
    let mut names: Vec<String> = Vec::new();
    let mut start: usize = 0;
    let mut i: usize = 0;
    proof {
        assert(list@.take(0) =~= Seq::<char>::empty());
        assert(name_texts(names@).push(list@.subrange(0, 0)) =~= comma_pieces(list@.take(0)));
    }
    while i < n
        invariant
            n == list@.len(),
            start <= i <= n,
            name_texts(names@).push(list@.subrange(start as int, i as int)) == comma_pieces(
                list@.take(i as int),
            ),
        decreases n - i,
    {
        let ghost done = name_texts(names@);
        let ghost piece = list@.subrange(start as int, i as int);
        let ghost next = list@.take(i + 1);
        proof {
            assert(next.drop_last() =~= list@.take(i as int));
            assert(next.last() == list@[i as int]);
            assert(done.push(piece).last() == piece);
        }
        if list.get_char(i) == ',' {
            names.push(String::from_str(list.substring_char(start, i)));
            start = i + 1;
            proof {
                assert(name_texts(names@) =~= done.push(piece));
                assert(list@.subrange(start as int, i + 1) =~= Seq::<char>::empty());
            }
        } else {
            proof {
                assert(list@.subrange(start as int, i + 1) =~= piece.push(list@[i as int]));
                assert(done.push(piece).update(done.len() as int, piece.push(list@[i as int]))
                    =~= done.push(piece.push(list@[i as int])));
            }
        }
        i += 1;
    }
    let ghost done = name_texts(names@);
    names.push(String::from_str(list.substring_char(start, n)));
    proof {
        assert(list@.take(n as int) =~= list@);
        assert(name_texts(names@) =~= done.push(list@.subrange(start as int, n as int)));
    }
    names
}

/// How adding an event ends.
#[derive(Debug, Clone, Copy, PartialEq, Eq, Structural)]
pub enum AddEventOutcome {
    /// The event was known; its role was missing and has been created.
    KnownRoleEnabled,
    /// The event was known and its role existed.
    KnownRoleAlreadyEnabled,
    /// The event was known, and no role was asked for.
    KnownNoAction,
    /// The event is new, but a role of its name exists: nothing is added.
    RoleNameTaken,
    /// The event was recorded and its role created.
    AddedWithRole,
    /// The event was recorded without a role.
    AddedWithoutRole,
}

/// What adding an event does: whether the event is recorded, whether its role
/// is created, and how it ends.
#[derive(Debug, Clone, Copy, PartialEq, Eq, Structural)]
pub struct AddEventPlan {
    pub record_event: bool,
    pub create_role: bool,
    pub outcome: AddEventOutcome,
}

/// Whether the role is wanted: it is, unless the caller says no.
pub open spec fn role_wanted(should_enable_role: Option<bool>) -> bool {
    match should_enable_role {
        Some(wanted) => wanted,
        None => true,
    }
}

/// The plan for adding an event, from whether the event is known, whether a
/// role of its name exists, and whether the role is wanted.
pub open spec fn add_event_plan(event_exists: bool, role_exists: bool, wanted: bool)
    -> AddEventPlan {
    if event_exists {
        if !wanted {
            AddEventPlan {
                record_event: false,
                create_role: false,
                outcome: AddEventOutcome::KnownNoAction,
            }
        } else if role_exists {
            AddEventPlan {
                record_event: false,
                create_role: false,
                outcome: AddEventOutcome::KnownRoleAlreadyEnabled,
            }
        } else {
            AddEventPlan {
                record_event: false,
                create_role: true,
                outcome: AddEventOutcome::KnownRoleEnabled,
            }
        }
    } else if role_exists {
        AddEventPlan {
            record_event: false,
            create_role: false,
            outcome: AddEventOutcome::RoleNameTaken,
        }
    } else if wanted {
        AddEventPlan { record_event: true, create_role: true, outcome: AddEventOutcome::AddedWithRole }
    } else {
        AddEventPlan {
            record_event: true,
            create_role: false,
            outcome: AddEventOutcome::AddedWithoutRole,
        }
    }
}

/// Plans the adding of an event.
pub fn add(event_exists: bool, role_exists: bool, should_enable_role: Option<bool>) -> (plan:
    AddEventPlan)
    ensures
        plan == add_event_plan(event_exists, role_exists, role_wanted(should_enable_role)),
{
    let wanted = match should_enable_role {
        Some(wanted) => wanted,
        None => true,
    };
    if event_exists {
        if wanted {
            match enable_event_role(role_exists) {
                EnableRoleResponse::RoleCreated => AddEventPlan {
                    record_event: false,
                    create_role: true,
                    outcome: AddEventOutcome::KnownRoleEnabled,
                },
                EnableRoleResponse::RoleAlreadyEnabled => AddEventPlan {
                    record_event: false,
                    create_role: false,
                    outcome: AddEventOutcome::KnownRoleAlreadyEnabled,
                },
            }
        } else {
            AddEventPlan {
                record_event: false,
                create_role: false,
                outcome: AddEventOutcome::KnownNoAction,
            }
        }
    } else if role_exists {
        AddEventPlan {
            record_event: false,
            create_role: false,
            outcome: AddEventOutcome::RoleNameTaken,
        }
    } else if wanted {
        AddEventPlan { record_event: true, create_role: true, outcome: AddEventOutcome::AddedWithRole }
    } else {
        AddEventPlan {
            record_event: true,
            create_role: false,
            outcome: AddEventOutcome::AddedWithoutRole,
        }
    }
}

/// What is said once adding an event has ended. `role_command` is the name
/// of the command that enables a role.
pub open spec fn add_event_text(
    outcome: AddEventOutcome,
    event_name: Seq<char>,
    role_command: Seq<char>,
) -> Seq<char> {
    match outcome {
        AddEventOutcome::KnownRoleEnabled => "The event `"@ + event_name
            + "` has already been added to the database. Enabled the event role since it was not active."@,
        AddEventOutcome::KnownRoleAlreadyEnabled => "The event `"@ + event_name
            + "` has already been added to the database, and the event role was already enabled. No action was taken."@,
        AddEventOutcome::KnownNoAction => "The event `"@ + event_name
            + "` has already been added. No action was taken."@,
        AddEventOutcome::RoleNameTaken => "A role with the name `"@ + event_name
            + "` already exists. The event cannot be added until that role has been manually deleted."@,
        AddEventOutcome::AddedWithRole => "The event `"@ + event_name
            + "` has been added to the database, and the event role was created."@,
        AddEventOutcome::AddedWithoutRole => "The `"@ + event_name
            + "` event has been added. The event role can be enabled with `/"@ + role_command
            + " enable."@,
    }
}

/// Writes what is said once adding an event has ended.
pub fn add_event_message(outcome: &AddEventOutcome, event_name: &str, role_command: &str) -> (message:
    String)
    ensures
        message@ == add_event_text(*outcome, event_name@, role_command@),
{
    match outcome {
        AddEventOutcome::KnownRoleEnabled => enclose(
            "The event `",
            event_name,
            "` has already been added to the database. Enabled the event role since it was not active.",
        ),
        AddEventOutcome::KnownRoleAlreadyEnabled => enclose(
            "The event `",
            event_name,
            "` has already been added to the database, and the event role was already enabled. No action was taken.",
        ),
        AddEventOutcome::KnownNoAction => enclose(
            "The event `",
            event_name,
            "` has already been added. No action was taken.",
        ),
        AddEventOutcome::RoleNameTaken => enclose(
            "A role with the name `",
            event_name,
            "` already exists. The event cannot be added until that role has been manually deleted.",
        ),
        AddEventOutcome::AddedWithRole => enclose(
            "The event `",
            event_name,
            "` has been added to the database, and the event role was created.",
        ),
        AddEventOutcome::AddedWithoutRole => {
            let mut message = enclose(
                "The `",
                event_name,
                "` event has been added. The event role can be enabled with `/",
            );
            message.append(role_command);
            message.append(" enable.");
            message
        },
    }
}

} // verus!
