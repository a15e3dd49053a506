//! General commands: links to the site's services, a random number, and the
//! limits of a server.

use crate::text::{enclose, push_decimal, decimal};
use vstd::prelude::*;

verus! {

/// A service of the site.
#[derive(Debug, Clone, Copy, PartialEq, Eq, Structural)]
pub enum SciolyOrgService {
    Forums,
    Wiki,
    TestExchange,
    Gallery,
    Obb,
    Tournaments,
}

impl SciolyOrgService {
    /// The path of the service below the site's root.
    pub open spec fn path(self) -> Seq<char> {
        match self {
            SciolyOrgService::Forums => "forums"@,
            SciolyOrgService::Wiki => "wiki"@,
            SciolyOrgService::TestExchange => "tests"@,
            SciolyOrgService::Gallery => "gallery"@,
            SciolyOrgService::Obb => "obb"@,
            SciolyOrgService::Tournaments => "tournaments"@,
        }
    }

    /// The address of the service.
    pub fn get_link(&self) -> (link: String)
        ensures
            link@ == "https://scioly.org/"@ + self.path(),
    {
        let path = match self {
            SciolyOrgService::Forums => "forums",
            SciolyOrgService::Wiki => "wiki",
            SciolyOrgService::TestExchange => "tests",
            SciolyOrgService::Gallery => "gallery",
            SciolyOrgService::Obb => "obb",
            SciolyOrgService::Tournaments => "tournaments",
        };
        let mut link = String::from_str("https://scioly.org/");
        link.append(path);
        link
    }
}

/// What the link command answers: the address in angle brackets.
pub fn link(destination: &SciolyOrgService) -> (reply: String)
    ensures
        reply@ == "<"@ + ("https://scioly.org/"@ + destination.path()) + ">"@,
{
    let address = destination.get_link();
    enclose("<", address.as_str(), ">")
}

/// The bounds of a random draw: zero and ten where none are given, and in
/// ascending order whichever way they were given.
pub open spec fn random_bounds_of(minimum: Option<u64>, maximum: Option<u64>) -> (u64, u64) {
    let low = match minimum {
        Some(n) => n,
        None => 0,
    };
    let high = match maximum {
        Some(n) => n,
        None => 10,
    };
    if high < low {
        (high, low)
    } else {
        (low, high)
    }
}

/// Settles the bounds of a random draw.
pub fn random_bounds(minimum: Option<u64>, maximum: Option<u64>) -> (bounds: (u64, u64))
    ensures
        bounds == random_bounds_of(minimum, maximum),
        bounds.0 <= bounds.1,
{
    let low = match minimum {
        Some(n) => n,
        None => 0,
    };
    let high = match maximum {
        Some(n) => n,
        None => 10,
    };
    if high < low {
        (high, low)
    } else {
        (low, high)
    }
}

/// Calls `rand::random_range` on the range from `low` to `high`, both
/// included. Taken on trust: the number drawn lies in the range. Nothing else
/// is known of it, and two draws may differ. An empty range panics, so `low`
/// must not be above `high`.
#[verifier::external_body]
pub(crate) fn draw_between(low: u64, high: u64) -> (drawn: u64)
    requires
        low <= high,
    ensures
        low <= drawn <= high,
{
    rand::random_range(low..=high)
}

/// What is said of a number drawn between two bounds.
pub open spec fn random_text(minimum: u64, maximum: u64, num: u64) -> Seq<char> {
    "Random number between `"@ + decimal(minimum as nat) + "` and `"@ + decimal(maximum as nat)
        + "`: `"@ + decimal(num as nat) + "`"@
}

/// Writes what is said of a number drawn between two bounds.
pub fn random_message(minimum: u64, maximum: u64, num: u64) -> (message: String)
    ensures
        message@ == random_text(minimum, maximum, num),
{
    let mut message = String::from_str("Random number between `");
    push_decimal(&mut message, minimum);
    message.append("` and `");
    push_decimal(&mut message, maximum);
    message.append("`: `");
    push_decimal(&mut message, num);
    message.append("`");
    message
}

/// Returns a random number, inclusively: the message names the bounds in
/// ascending order and a number between them.
pub fn random(minimum: Option<u64>, maximum: Option<u64>) -> (message: String)
    ensures
        exists|num: u64|
            random_bounds_of(minimum, maximum).0 <= num <= random_bounds_of(minimum, maximum).1
                && message@ == #[trigger] random_text(
                random_bounds_of(minimum, maximum).0,
                random_bounds_of(minimum, maximum).1,
                num,
            ),
{
    let (low, high) = random_bounds(minimum, maximum);
    let num = draw_between(low, high);
    random_message(low, high, num)
}

/// How far a server has been boosted.
#[derive(Debug, Clone, Copy, PartialEq, Eq, Structural)]
pub enum PremiumTier {
    Tier0,
    Tier1,
    Tier2,
    Tier3,
}

/// What a server of some tier may hold.
#[derive(Debug, Clone, Copy, PartialEq, Eq, Structural)]
pub struct GuildLimit {
    pub emoji: u64,
    pub stickers: u64,
    pub bitrate: u64,
    pub filesize: u64,
}

/// The limits of each tier.
pub open spec fn tier_limits(tier: PremiumTier) -> GuildLimit {
    match tier {
        PremiumTier::Tier0 => GuildLimit {
            emoji: 50,
            stickers: 5,
            bitrate: 96_000,
            filesize: 10485760,
        },
        PremiumTier::Tier1 => GuildLimit {
            emoji: 100,
            stickers: 15,
            bitrate: 128_000,
            filesize: 10485760,
        },
        PremiumTier::Tier2 => GuildLimit {
            emoji: 150,
            stickers: 30,
            bitrate: 256_000,
            filesize: 52428800,
        },
        PremiumTier::Tier3 => GuildLimit {
            emoji: 250,
            stickers: 60,
            bitrate: 384_000,
            filesize: 104857600,
        },
    }
}

/// Looks up the limits of a tier.
pub fn guild_limits(tier: PremiumTier) -> (limits: GuildLimit)
    ensures
        limits == tier_limits(tier),
{
    match tier {
        PremiumTier::Tier0 => GuildLimit {
            emoji: 50,
            stickers: 5,
            bitrate: 96_000,
            filesize: 10485760,
        },
        PremiumTier::Tier1 => GuildLimit {
            emoji: 100,
            stickers: 15,
            bitrate: 128_000,
            filesize: 10485760,
        },
        PremiumTier::Tier2 => GuildLimit {
            emoji: 150,
            stickers: 30,
            bitrate: 256_000,
            filesize: 52428800,
        },
        PremiumTier::Tier3 => GuildLimit {
            emoji: 250,
            stickers: 60,
            bitrate: 384_000,
            filesize: 104857600,
        },
    }
}

/// The larger of two numbers.
pub open spec fn larger(a: u64, b: u64) -> u64 {
    if a >= b {
        a
    } else {
        b
    }
}

/// How many emoji a server may hold: what its tier allows, or what the
/// feature for more emoji allows, whichever is more.
pub fn emoji_limit(tier: PremiumTier, more_emoji: bool) -> (limit: u64)
    ensures
        limit == larger(
            tier_limits(tier).emoji,
            if more_emoji {
                200
            } else {
                50
            },
        ),
{
    let by_tier = guild_limits(tier).emoji;
    let by_feature: u64 = if more_emoji {
        200
    } else {
        50
    };
    if by_tier >= by_feature {
        by_tier
    } else {
        by_feature
    }
}

/// The bitrate a server may use: what its tier allows, or what the feature
/// for better voice regions allows, whichever is more.
pub fn bitrate_limit(tier: PremiumTier, vip_regions: bool) -> (limit: u64)
    ensures
        limit == larger(
            tier_limits(tier).bitrate,
            if vip_regions {
                tier_limits(PremiumTier::Tier1).bitrate
            } else {
                96_000
            },
        ),
{
    let by_tier = guild_limits(tier).bitrate;
    let by_feature: u64 = if vip_regions {
        guild_limits(PremiumTier::Tier1).bitrate
    } else {
        96_000
    };
    if by_tier >= by_feature {
        by_tier
    } else {
        by_feature
    }
}

/// Whether the hash of an image names an animated one: it begins with `a_`.
pub open spec fn is_animated_hash(hash: Seq<char>) -> bool {
    hash.len() >= 2 && hash[0] == 'a' && hash[1] == '_'
}

/// The address of a server's discovery splash.
pub open spec fn discovery_splash_text(guild_id: u64, hash: Seq<char>) -> Seq<char> {
    "https://cdn.discordapp.com/discovery-splashes/"@ + decimal(guild_id as nat) + "/"@ + hash
        + (if is_animated_hash(hash) {
        ".gif?size=1024"@
    } else {
        ".png?size=1024"@
    })
}

/// Writes the address of a server's discovery splash: a moving image for an
/// animated hash, a still one otherwise.
pub fn discovery_splash_url(guild_id: u64, hash: &str) -> (url: String)
    ensures
        url@ == discovery_splash_text(guild_id, hash@),
{
    let animated = hash.unicode_len() >= 2 && hash.get_char(0) == 'a' && hash.get_char(1) == '_';
    let mut url = String::from_str("https://cdn.discordapp.com/discovery-splashes/");
    push_decimal(&mut url, guild_id);
    url.append("/");
    url.append(hash);
    if animated {
        url.append(".gif?size=1024");
    } else {
        url.append(".png?size=1024");
    }
    assert(url@ =~= discovery_splash_text(guild_id, hash@));
    url
}

/// The kinds of channel that a server's summary counts, and the rest.
#[derive(Debug, Clone, Copy, PartialEq, Eq, Structural)]
pub enum ChannelKind {
    Text,
    Voice,
    Category,
    Other,
}

/// How many channels there are of the kinds that are counted.
#[derive(Debug, Clone, Copy, PartialEq, Eq, Structural)]
pub struct ChannelCounts {
    pub text: usize,
    pub voice: usize,
    pub category: usize,
}

/// How often `kind` occurs in `kinds`.
pub open spec fn count_kind(kinds: Seq<ChannelKind>, kind: ChannelKind) -> nat
    decreases kinds.len(),
{
    if kinds.len() == 0 {
        0
    } else {
        count_kind(kinds.drop_last(), kind) + if kinds.last() == kind {
            1nat
        } else {
            0nat
        }
    }
}

/// A kind occurs no more often than there are channels.
pub proof fn lemma_count_kind_bound(kinds: Seq<ChannelKind>, kind: ChannelKind)
    ensures
        count_kind(kinds, kind) <= kinds.len(),
    decreases kinds.len(),
{
    if kinds.len() > 0 {
        lemma_count_kind_bound(kinds.drop_last(), kind);
    }
}

/// Counts the text channels, voice channels and categories among `kinds`.
pub fn channel_counts(kinds: &[ChannelKind]) -> (counts: ChannelCounts)
    ensures
        counts.text == count_kind(kinds@, ChannelKind::Text),
        counts.voice == count_kind(kinds@, ChannelKind::Voice),
        counts.category == count_kind(kinds@, ChannelKind::Category),
{
    let mut counts = ChannelCounts { text: 0, voice: 0, category: 0 };
    let mut i: usize = 0;
    while i < kinds.len()
        invariant
            i <= kinds@.len(),
            counts.text == count_kind(kinds@.take(i as int), ChannelKind::Text),
            counts.voice == count_kind(kinds@.take(i as int), ChannelKind::Voice),
            counts.category == count_kind(kinds@.take(i as int), ChannelKind::Category),
        decreases kinds@.len() - i,
    {
        proof {
            let next = kinds@.take(i + 1);
            assert(next.drop_last() =~= kinds@.take(i as int));
            assert(next.last() == kinds@[i as int]);
            lemma_count_kind_bound(kinds@.take(i as int), ChannelKind::Text);
            lemma_count_kind_bound(kinds@.take(i as int), ChannelKind::Voice);
            lemma_count_kind_bound(kinds@.take(i as int), ChannelKind::Category);
        }
        match kinds[i] {
            ChannelKind::Text => {
                counts.text = counts.text + 1;
            },
            ChannelKind::Voice => {
                counts.voice = counts.voice + 1;
            },
            ChannelKind::Category => {
                counts.category = counts.category + 1;
            },
            ChannelKind::Other => {},
        }
        i += 1;
    }
    assert(kinds@.take(i as int) =~= kinds@);
    counts
}

} // verus!
