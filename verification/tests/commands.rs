use num_bigint::BigUint;
use pi_bot::censor::{
    add_word, added_message, first_text_channel_named, remove_word, remove_word_message,
    ChannelRef, RemoveWord, PI_BOT_AUTOMOD_RULE,
};
use pi_bot::event::{
    add, add_event_message, disable_event_role, enable_event_role, not_an_event_message,
    role_disable_message, role_enable_message, AddEventOutcome, AddEventPlan,
    DisableRoleResponse, EnableRoleResponse,
};
use pi_bot::fun::{
    cut_fish, feed_fish, fish, fish_message, fish_too_high, magic8ball_message, pick_index,
    steal_fish, steal_message, stealfish, treat_message, trout_message, FishEvent, StealEvent,
    MAX_BITS_ALLOWED,
};
use pi_bot::general::{
    bitrate_limit, channel_counts, emoji_limit, guild_limits, link, random, random_bounds,
    random_message, ChannelCounts, ChannelKind, GuildLimit, PremiumTier, SciolyOrgService,
};
use pi_bot::staff::{
    first_role_named, holds_id, is_nuke_cancel, is_staff, mute, mute_duration, mute_message, nuke,
    nuke_panel, slowmode_delay, MuteError, MuteLength, RoleRef, COUNTDOWN_START_SECS,
};
use pi_bot::text::{decimal_string, enclose, is_hex_text, push_decimal, same_text};

#[test]
fn decimal_numerals() {
    assert_eq!(decimal_string(0), "0");
    assert_eq!(decimal_string(7), "7");
    assert_eq!(decimal_string(10), "10");
    assert_eq!(decimal_string(1234567890), "1234567890");
    assert_eq!(decimal_string(u64::MAX), "18446744073709551615");
    let mut out = "n=".to_string();
    push_decimal(&mut out, 405);
    assert_eq!(out, "n=405");
    assert_eq!(enclose("<", "x", ">"), "<x>");
    assert!(same_text("abc", "abc"));
    assert!(!same_text("abc", "abd"));
    assert!(!same_text("abc", "ab"));
}

#[test]
fn service_links() {
    assert_eq!(SciolyOrgService::Forums.get_link(), "https://scioly.org/forums");
    assert_eq!(SciolyOrgService::Wiki.get_link(), "https://scioly.org/wiki");
    assert_eq!(SciolyOrgService::TestExchange.get_link(), "https://scioly.org/tests");
    assert_eq!(SciolyOrgService::Gallery.get_link(), "https://scioly.org/gallery");
    assert_eq!(SciolyOrgService::Obb.get_link(), "https://scioly.org/obb");
    assert_eq!(SciolyOrgService::Tournaments.get_link(), "https://scioly.org/tournaments");
    assert_eq!(link(&SciolyOrgService::Wiki), "<https://scioly.org/wiki>");
}

#[test]
fn random_bounds_default_and_swap() {
    assert_eq!(random_bounds(None, None), (0, 10));
    assert_eq!(random_bounds(Some(3), None), (3, 10));
    assert_eq!(random_bounds(Some(30), None), (10, 30));
    assert_eq!(random_bounds(None, Some(5)), (0, 5));
    assert_eq!(random_bounds(Some(9), Some(2)), (2, 9));
    assert_eq!(random_bounds(Some(4), Some(4)), (4, 4));
    assert_eq!(random_message(2, 9, 5), "Random number between `2` and `9`: `5`");
}

#[test]
fn random_draw_lies_between_bounds() {
    assert_eq!(random(Some(7), Some(7)), "Random number between `7` and `7`: `7`");
    let mut seen_low = false;
    let mut seen_high = false;
    for _ in 0..400 {
        let message = random(Some(21), Some(20));
        let tail = message.strip_prefix("Random number between `20` and `21`: `").unwrap();
        let num: u64 = tail.strip_suffix('`').unwrap().parse().unwrap();
        assert!(num == 20 || num == 21);
        seen_low = seen_low || num == 20;
        seen_high = seen_high || num == 21;
    }
    assert!(seen_low && seen_high);
    for len in 1..20usize {
        assert!(pick_index(len) < len);
    }
}

#[test]
fn server_limits() {
    assert_eq!(
        guild_limits(PremiumTier::Tier0),
        GuildLimit { emoji: 50, stickers: 5, bitrate: 96_000, filesize: 10485760 }
    );
    assert_eq!(
        guild_limits(PremiumTier::Tier3),
        GuildLimit { emoji: 250, stickers: 60, bitrate: 384_000, filesize: 104857600 }
    );
    assert_eq!(emoji_limit(PremiumTier::Tier0, false), 50);
    assert_eq!(emoji_limit(PremiumTier::Tier1, true), 200);
    assert_eq!(emoji_limit(PremiumTier::Tier2, false), 150);
    assert_eq!(emoji_limit(PremiumTier::Tier3, true), 250);
    assert_eq!(bitrate_limit(PremiumTier::Tier0, false), 96_000);
    assert_eq!(bitrate_limit(PremiumTier::Tier0, true), 128_000);
    assert_eq!(bitrate_limit(PremiumTier::Tier2, true), 256_000);
    let kinds = [
        ChannelKind::Text,
        ChannelKind::Other,
        ChannelKind::Voice,
        ChannelKind::Text,
        ChannelKind::Category,
        ChannelKind::Text,
    ];
    assert_eq!(channel_counts(&kinds), ChannelCounts { text: 3, voice: 1, category: 1 });
    assert_eq!(channel_counts(&[]), ChannelCounts { text: 0, voice: 0, category: 0 });
}

#[test]
fn event_role_messages() {
    assert_eq!(enable_event_role(true), EnableRoleResponse::RoleAlreadyEnabled);
    assert_eq!(enable_event_role(false), EnableRoleResponse::RoleCreated);
    assert_eq!(disable_event_role(true), DisableRoleResponse::RoleRemoved);
    assert_eq!(disable_event_role(false), DisableRoleResponse::RoleAlreadyDisabled);
    assert_eq!(
        role_enable_message(&EnableRoleResponse::RoleCreated, "Optics"),
        "Role for `Optics` has been added."
    );
    assert_eq!(
        role_enable_message(&EnableRoleResponse::RoleAlreadyEnabled, "Optics"),
        "Role for `Optics` has already been added."
    );
    assert_eq!(
        role_disable_message(&DisableRoleResponse::RoleRemoved, "Optics"),
        "Role for `Optics` has been deleted."
    );
    assert_eq!(
        role_disable_message(&DisableRoleResponse::RoleAlreadyDisabled, "Optics"),
        "Role for `Optics` has already been deleted."
    );
    assert_eq!(not_an_event_message("Optics"), "`Optics` is not an event!");
}

#[test]
fn adding_an_event() {
    let plan = |record_event, create_role, outcome| AddEventPlan { record_event, create_role, outcome };
    assert_eq!(add(true, false, None), plan(false, true, AddEventOutcome::KnownRoleEnabled));
    assert_eq!(add(true, true, Some(true)), plan(false, false, AddEventOutcome::KnownRoleAlreadyEnabled));
    assert_eq!(add(true, true, Some(false)), plan(false, false, AddEventOutcome::KnownNoAction));
    assert_eq!(add(false, true, None), plan(false, false, AddEventOutcome::RoleNameTaken));
    assert_eq!(add(false, false, None), plan(true, true, AddEventOutcome::AddedWithRole));
    assert_eq!(add(false, false, Some(false)), plan(true, false, AddEventOutcome::AddedWithoutRole));
    assert_eq!(
        add_event_message(&AddEventOutcome::AddedWithoutRole, "Optics", "event role"),
        "The `Optics` event has been added. The event role can be enabled with `/event role enable."
    );
    assert_eq!(
        add_event_message(&AddEventOutcome::AddedWithRole, "Optics", "event role"),
        "The event `Optics` has been added to the database, and the event role was created."
    );
    assert_eq!(
        add_event_message(&AddEventOutcome::RoleNameTaken, "Optics", "event role"),
        "A role with the name `Optics` already exists. The event cannot be added until that role has been manually deleted."
    );
    assert_eq!(
        add_event_message(&AddEventOutcome::KnownNoAction, "Optics", "event role"),
        "The event `Optics` has already been added. No action was taken."
    );
}

#[test]
fn feeding_the_bear() {
    let mut count = BigUint::from(17u32);
    assert_eq!(feed_fish(&mut count, 99), FishEvent::SuperFish);
    assert_eq!(count, BigUint::from(27u32));
    assert_eq!(feed_fish(&mut count, 90), FishEvent::SuperFish);
    assert_eq!(count, BigUint::from(37u32));
    assert_eq!(feed_fish(&mut count, 89), FishEvent::OneFish);
    assert_eq!(feed_fish(&mut count, 10), FishEvent::OneFish);
    assert_eq!(count, BigUint::from(39u32));
    assert_eq!(feed_fish(&mut count, 9), FishEvent::NoFish);
    assert_eq!(feed_fish(&mut count, 2), FishEvent::NoFish);
    assert_eq!(count, BigUint::from(39u32));
    assert_eq!(feed_fish(&mut count, 1), FishEvent::SquareRooted);
    assert_eq!(count, BigUint::from(6u32));
    assert_eq!(feed_fish(&mut count, 0), FishEvent::SquareRooted);
    assert_eq!(count, BigUint::from(2u32));
}

#[test]
fn fish_messages_name_the_count() {
    let count = BigUint::from(1234u32);
    assert_eq!(
        fish_message(&FishEvent::OneFish, &count),
        "You feed bear one fish. Bear now has 1234 fish!"
    );
    assert_eq!(
        fish_message(&FishEvent::SuperFish, &count),
        "Wow, you gave bear a super fish! Added 10 fish! Bear now has 1234 fish!"
    );
    assert_eq!(
        fish_message(&FishEvent::NoFish, &count),
        "You can't find any fish... and thus can't feed bear. Bear still has 1234 fish."
    );
    assert_eq!(
        fish_message(&FishEvent::SquareRooted, &count),
        ":sob:\n:sob:\n:sob:\nAww, bear's fish was accidentally square root'ed. Bear now has 1234 fish. \n:sob:\n:sob:\n:sob: "
    );
    assert_eq!(
        fish_message(&FishEvent::TooHigh, &count),
        "Woah! Bear's fish is a little too high, so it unfortunately has to be square rooted."
    );
    let big = BigUint::from(u64::MAX) * BigUint::from(10u32);
    assert_eq!(
        fish_message(&FishEvent::OneFish, &big),
        "You feed bear one fish. Bear now has 184467440737095516150 fish!"
    );
}

#[test]
fn too_many_fish_are_cut_down() {
    assert!(!fish_too_high(&BigUint::ZERO));
    assert!(!fish_too_high(&BigUint::from(u64::MAX)));
    let below = BigUint::from(1u32) << (MAX_BITS_ALLOWED - 2);
    assert!(!fish_too_high(&below));
    let mut at = BigUint::from(1u32) << (MAX_BITS_ALLOWED - 1);
    assert!(fish_too_high(&at));
    let message = fish(&mut at);
    assert_eq!(
        message,
        "Woah! Bear's fish is a little too high, so it unfortunately has to be square rooted."
    );
    assert!(!fish_too_high(&at));
    assert_eq!(at.bits(), 1_660_965);
    let mut count = BigUint::from(99u32);
    assert_eq!(cut_fish(&mut count), FishEvent::TooHigh);
    assert_eq!(count, BigUint::from(9u32));
}

#[test]
fn fish_command_reports_what_happened() {
    for _ in 0..200 {
        let mut count = BigUint::from(100u32);
        let message = fish(&mut count);
        let shown = count.to_string();
        if count == BigUint::from(110u32) {
            assert_eq!(message, fish_message(&FishEvent::SuperFish, &count));
        } else if count == BigUint::from(101u32) {
            assert_eq!(message, fish_message(&FishEvent::OneFish, &count));
        } else if count == BigUint::from(100u32) {
            assert_eq!(message, fish_message(&FishEvent::NoFish, &count));
        } else {
            assert_eq!(shown, "10");
            assert_eq!(message, fish_message(&FishEvent::SquareRooted, &count));
        }
    }
}

#[test]
fn stealing_fish() {
    let mut count = BigUint::from(1000u32);
    assert_eq!(steal_fish(&mut count, 999), StealEvent::StoleShare);
    assert_eq!(count, BigUint::from(501u32));
    let mut count = BigUint::from(1000u32);
    assert_eq!(steal_fish(&mut count, 750), StealEvent::StoleShare);
    assert_eq!(count, BigUint::from(750u32));
    let mut count = BigUint::from(1000u32);
    assert_eq!(steal_fish(&mut count, 749), StealEvent::StoleOnePercent);
    assert_eq!(count, BigUint::from(990u32));
    let mut count = BigUint::from(150u32);
    assert_eq!(steal_fish(&mut count, 416), StealEvent::StoleOnePercent);
    assert_eq!(count, BigUint::from(148u32));
    let mut count = BigUint::from(1000u32);
    assert_eq!(steal_fish(&mut count, 415), StealEvent::GaveShare);
    assert_eq!(count, BigUint::from(1165u32));
    let mut count = BigUint::from(1000u32);
    assert_eq!(steal_fish(&mut count, 250), StealEvent::GaveShare);
    assert_eq!(count, BigUint::from(1000u32));
    let mut count = BigUint::from(7u32);
    assert_eq!(steal_fish(&mut count, 300), StealEvent::GaveShare);
    assert_eq!(count, BigUint::from(7u32));
    let mut count = BigUint::from(1000u32);
    assert_eq!(steal_fish(&mut count, 249), StealEvent::Nothing);
    assert_eq!(steal_fish(&mut count, 0), StealEvent::Nothing);
    assert_eq!(count, BigUint::from(1000u32));
    for _ in 0..100 {
        let mut count = BigUint::from(1000u32);
        let (roll, event) = stealfish(&mut count);
        assert!(roll < 1000);
        let mut again = BigUint::from(1000u32);
        assert_eq!(steal_fish(&mut again, roll), event);
        assert_eq!(again, count);
    }
}

#[test]
fn steal_and_other_messages() {
    assert_eq!(steal_message(&StealEvent::StoleShare, 29), "You stole 29% of bear's fish!");
    assert_eq!(steal_message(&StealEvent::StoleOnePercent, 0), "You stole just 1% of bear's fish!");
    assert_eq!(
        steal_message(&StealEvent::GaveShare, 16),
        "Uhh... something went wrong! You gave bear another 16% of his fish!"
    );
    assert_eq!(steal_message(&StealEvent::Nothing, 0), "Hmm, nothing happened. *crickets*");
    assert_eq!(trout_message("<@1>", Some("<@2>")), "<@1> slaps <@2> with a giant trout!");
    assert_eq!(trout_message("<@1>", None), "<@1> slaps themself with a giant trout!");
    assert_eq!(treat_message("<@1>", Some("<@2>"), "a cookie"), "<@1> gives <@2> a cookie!");
    assert_eq!(treat_message("<@1>", None, "pizza"), "<@1> gives themself pizza!");
    assert_eq!(magic8ball_message("Yes."), "**Yes.**");
}

fn role(name: &str, id: u64) -> RoleRef {
    RoleRef { name: name.to_string(), id }
}

#[test]
fn staff_is_told_by_roles() {
    let roles = [role("@everyone", 1), role("VIP", 2), role("Staff", 3), role("Staff", 4)];
    assert_eq!(first_role_named(&roles, "Staff"), Some(3));
    assert_eq!(first_role_named(&roles, "VIP"), Some(2));
    assert_eq!(first_role_named(&roles, "Muted"), None);
    assert!(holds_id(&[5, 6], 6));
    assert!(!holds_id(&[5, 6], 7));
    assert!(is_staff(&roles, &[9, 3]));
    assert!(is_staff(&roles, &[2]));
    assert!(!is_staff(&roles, &[4]));
    assert!(!is_staff(&roles, &[1]));
    assert!(!is_staff(&roles, &[]));
    assert!(!is_staff(&[], &[3]));
}

#[test]
fn mute_ends() {
    assert_eq!(mute(Some(MuteLength::Mins10), Some(5), 0), Err(MuteError::BothGiven));
    assert_eq!(mute(None, None, 0), Err(MuteError::NeitherGiven));
    assert_eq!(mute(Some(MuteLength::Mins10), None, 1000), Ok(Some(1600)));
    assert_eq!(mute(Some(MuteLength::Mins20), None, 1000), Ok(Some(2200)));
    assert_eq!(mute(Some(MuteLength::Hours1), None, 0), Ok(Some(3600)));
    assert_eq!(mute(Some(MuteLength::Hours2), None, 0), Ok(Some(7200)));
    assert_eq!(mute(Some(MuteLength::Hours8), None, 0), Ok(Some(28_800)));
    assert_eq!(mute(Some(MuteLength::Days1), None, 0), Ok(Some(86_400)));
    assert_eq!(mute(Some(MuteLength::Days4), None, 0), Ok(Some(345_600)));
    assert_eq!(mute(Some(MuteLength::Days7), None, 0), Ok(Some(604_800)));
    assert_eq!(mute(Some(MuteLength::Weeks4), None, -5), Ok(Some(2_419_195)));
    assert_eq!(mute(Some(MuteLength::Indefinitely), None, 77), Ok(None));
    assert_eq!(mute(None, Some(-12), 77), Ok(Some(-12)));
    assert_eq!(mute(Some(MuteLength::Mins10), None, i64::MAX - 600), Ok(Some(i64::MAX)));
    assert_eq!(mute(Some(MuteLength::Mins10), None, i64::MAX - 599), Err(MuteError::EndOutOfRange));
    assert_eq!(mute_duration(MuteLength::Indefinitely), None);
    assert_eq!(
        MuteError::BothGiven.message(),
        "Provided `mute_length` and `until` options when only one of them should be sent"
    );
    assert_eq!(MuteError::NeitherGiven.message(), "One of `mute_length` and `until` should be sent");
    assert_eq!(mute_message("<@5>", Some("<t:1:f>")), "<@5> was muted until <t:1:f>.");
    assert_eq!(mute_message("<@5>", None), "<@5> was muted indefinitely.");
    assert_eq!(slowmode_delay(None), 20);
    assert_eq!(slowmode_delay(Some(0)), 0);
}

#[test]
fn nuke_panel_counts_down() {
    assert_eq!(COUNTDOWN_START_SECS, 10);
    assert_eq!(
        nuke_panel(25, "<#9>", 10),
        "25 messages will be deleted from <#9> in **10 seconds**...\n\nTo stop this nuke, press the red button below!\n"
    );
    assert_eq!(
        nuke_panel(1, "<#9>", 1),
        "1 messages will be deleted from <#9> in **1 second**...\n\nTo stop this nuke, press the red button below!\n"
    );
    assert_eq!(nuke(25, false), "Now nuking 25 messages from the channel ...");
    assert_eq!(nuke(25, true), "Nuked 25 messages.");
    assert!(is_nuke_cancel(true, "nuke-cancel"));
    assert!(!is_nuke_cancel(false, "nuke-cancel"));
    assert!(!is_nuke_cancel(true, "nuke"));
}

fn words(list: &[&str]) -> Vec<String> {
    list.iter().map(|w| w.to_string()).collect()
}

#[test]
fn censor_word_list() {
    assert_eq!(PI_BOT_AUTOMOD_RULE, "Pi-Bot - Staff-Submitted Blocked Words");
    assert_eq!(remove_word(words(&[]), "a"), RemoveWord::EmptyList);
    assert_eq!(remove_word(words(&["a", "b"]), "c"), RemoveWord::NotListed);
    assert_eq!(remove_word(words(&["a", "b", "a", "c"]), "a"), RemoveWord::Removed(words(&["b", "c"])));
    assert_eq!(remove_word(words(&["a"]), "a"), RemoveWord::Removed(words(&[])));
    let mut list = words(&["a"]);
    add_word(&mut list, "b");
    assert_eq!(list, words(&["a", "b"]));
    assert_eq!(added_message("b"), "Added word `b` to automod censor ruleset");
    assert_eq!(remove_word_message(&RemoveWord::EmptyList, "b"), "Word list is empty");
    assert_eq!(
        remove_word_message(&RemoveWord::Removed(words(&[])), "b"),
        "Removed word `b` from automod censor ruleset"
    );
    assert_eq!(
        remove_word_message(&RemoveWord::NotListed, "b"),
        "Word `b` is not within automod censor ruleset"
    );
    let channels = [
        ChannelRef { is_text: false, name: "staff".to_string(), id: 1 },
        ChannelRef { is_text: true, name: "reports".to_string(), id: 2 },
        ChannelRef { is_text: true, name: "staff".to_string(), id: 3 },
        ChannelRef { is_text: true, name: "staff".to_string(), id: 4 },
    ];
    assert_eq!(first_text_channel_named(&channels, "staff"), Some(3));
    assert_eq!(first_text_channel_named(&channels, "reports"), Some(2));
    assert_eq!(first_text_channel_named(&channels, "general"), None);
}

#[test]
fn discovery_splash_addresses() {
    assert_eq!(
        pi_bot::general::discovery_splash_url(42, "a_1f2e"),
        "https://cdn.discordapp.com/discovery-splashes/42/a_1f2e.gif?size=1024"
    );
    assert_eq!(
        pi_bot::general::discovery_splash_url(42, "b_1f2e"),
        "https://cdn.discordapp.com/discovery-splashes/42/b_1f2e.png?size=1024"
    );
    assert_eq!(
        pi_bot::general::discovery_splash_url(7, "a"),
        "https://cdn.discordapp.com/discovery-splashes/7/a.png?size=1024"
    );
}

#[test]
fn privileged_categories() {
    let privileged = ["beta", "staff", "community"];
    assert!(pi_bot::staff::is_privileged_category(true, "staff", &privileged));
    assert!(pi_bot::staff::is_privileged_category(true, "community", &privileged));
    assert!(!pi_bot::staff::is_privileged_category(false, "staff", &privileged));
    assert!(!pi_bot::staff::is_privileged_category(true, "general", &privileged));
    assert!(!pi_bot::staff::is_privileged_category(true, "staff", &[]));
}

#[test]
fn event_names_split_at_commas() {
    let split = |list: &str| pi_bot::event::event_names(list);
    assert_eq!(split(""), vec![""]);
    assert_eq!(split("Optics"), vec!["Optics"]);
    assert_eq!(split("Anatomy and Physiology,Optics"), vec!["Anatomy and Physiology", "Optics"]);
    assert_eq!(split("a,,b,"), vec!["a", "", "b", ""]);
    assert_eq!(split(","), vec!["", ""]);
    assert_eq!(split("é,ü"), vec!["é", "ü"]);
    let list = "x, y ,z";
    let expected: Vec<String> = list.split(',').map(|piece| piece.to_string()).collect();
    assert_eq!(split(list), expected);
}

#[test]
fn hexadecimal_text() {
    assert!(is_hex_text("", 0));
    assert!(!is_hex_text("", 1));
    assert!(is_hex_text("0123456789abcdefABCDEF", 22));
    assert!(!is_hex_text("0123456789abcdefABCDEF", 23));
    assert!(!is_hex_text("12G4", 0));
    assert!(!is_hex_text("12 4", 0));
    assert!(!is_hex_text("/:@`g", 0));
    assert!(!is_hex_text("\u{e9}", 0));
    assert_eq!(pi_bot::store::STATE_CODE_MIN_DIGITS, 64);
}
