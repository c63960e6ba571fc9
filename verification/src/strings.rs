//! Flavor text for repeated clicks on the logo: which message tier a
//! click count reaches, and whether and what to show.
//!
//! The caller supplies the elapsed time, a percentage roll and a pick —
//! the outside sources of time and randomness — and the selection
//! itself is pure.

use vstd::prelude::*;

verus! {

/// Minimum interval between two shown messages (in milliseconds).
pub const COOLDOWN_MS: u64 = 850;

/// The message tier a click count reaches, if any.
pub open spec fn spec_tier(count: u32) -> Option<u8> {
    if count < 8 {
        None
    } else if count <= 39 {
        Some(1u8)
    } else if count <= 64 {
        Some(2u8)
    } else if count <= 99 {
        Some(3u8)
    } else {
        Some(4u8)
    }
}

/// The message tier a click count reaches, if any.
pub fn get_tier(count: u32) -> (r: Option<u8>)
    ensures
        r == spec_tier(count),
{
    if count < 8 {
        None
    } else if count <= 39 {
        Some(1)
    } else if count <= 64 {
        Some(2)
    } else if count <= 99 {
        Some(3)
    } else {
        Some(4)
    }
}

/// The chance (in percent) of showing a message: low when the tier has
/// not risen since the last shown message, and falling with the tier
/// otherwise.
pub open spec fn spec_chance_percent(tier: u8, last_tier: Option<u8>) -> u64 {
    if last_tier matches Some(last) && tier <= last {
        12
    } else if tier == 1 {
        70
    } else if tier == 2 {
        50
    } else if tier == 3 {
        30
    } else {
        20
    }
}

/// How many messages a tier offers.
pub open spec fn spec_tier_len(tier: u8) -> u64 {
    if tier == 1 {
        4
    } else if tier == 2 {
        5
    } else if tier == 3 {
        6
    } else {
        7
    }
}

/// The message of a tier at an index (the pick reduced by the tier's
/// length).
pub open spec fn spec_flavor(tier: u8, idx: u64) -> Seq<char> {
    if tier == 1 {
        if idx == 0 {
            "wooOOOOOooosh"@
        } else if idx == 1 {
            "Spinning into the void..."@
        } else if idx == 2 {
            "Wheeeeee!"@
        } else {
            "Round and round we go"@
        }
    } else if tier == 2 {
        if idx == 0 {
            "You found the spinny thing!"@
        } else if idx == 1 {
            "Is this what you wanted?"@
        } else if idx == 2 {
            "Spin to win!"@
        } else if idx == 3 {
            "I'm getting dizzy..."@
        } else {
            "Still spinning?"@
        }
    } else if tier == 3 {
        if idx == 0 {
            "Okay you really like clicking this"@
        } else if idx == 1 {
            "Still going, huh?"@
        } else if idx == 2 {
            "I admire your dedication"@
        } else if idx == 3 {
            "This is getting out of hand"@
        } else if idx == 4 {
            "You've unlocked: persistence"@
        } else {
            "Achievement: Fidgeter"@
        }
    } else {
        if idx == 0 {
            "You've clicked this so many times..."@
        } else if idx == 1 {
            "Don't you have a conversation to start?"@
        } else if idx == 2 {
            "I'm just a logo, you know"@
        } else if idx == 3 {
            "At this point we're friends"@
        } else if idx == 4 {
            "The logo appreciates your attention"@
        } else if idx == 5 {
            "Employee of the month: You"@
        } else {
            "This is your life now"@
        }
    }
}

/// The message a tier shows for a pick.
fn flavor_of(tier: u8, idx: u64) -> (r: &'static str)
    ensures
        r@ == spec_flavor(tier, idx),
{
    if tier == 1 {
        if idx == 0 {
            "wooOOOOOooosh"
        } else if idx == 1 {
            "Spinning into the void..."
        } else if idx == 2 {
            "Wheeeeee!"
        } else {
            "Round and round we go"
        }
    } else if tier == 2 {
        if idx == 0 {
            "You found the spinny thing!"
        } else if idx == 1 {
            "Is this what you wanted?"
        } else if idx == 2 {
            "Spin to win!"
        } else if idx == 3 {
            "I'm getting dizzy..."
        } else {
            "Still spinning?"
        }
    } else if tier == 3 {
        if idx == 0 {
            "Okay you really like clicking this"
        } else if idx == 1 {
            "Still going, huh?"
        } else if idx == 2 {
            "I admire your dedication"
        } else if idx == 3 {
            "This is getting out of hand"
        } else if idx == 4 {
            "You've unlocked: persistence"
        } else {
            "Achievement: Fidgeter"
        }
    } else {
        if idx == 0 {
            "You've clicked this so many times..."
        } else if idx == 1 {
            "Don't you have a conversation to start?"
        } else if idx == 2 {
            "I'm just a logo, you know"
        } else if idx == 3 {
            "At this point we're friends"
        } else if idx == 4 {
            "The logo appreciates your attention"
        } else if idx == 5 {
            "Employee of the month: You"
        } else {
            "This is your life now"
        }
    }
}

/// Decides whether to show a message and which: nothing within the
/// cooldown of the last one; otherwise the click count's tier is rolled
/// against its chance, and on success the pick chooses among the tier's
/// messages. The roll and the pick come from the caller's randomness.
pub fn choose_string(
    count: u32,
    last_tier: Option<u8>,
    elapsed_ms: Option<u64>,
    roll_percent: u64,
    pick: u64,
) -> (r: Option<(&'static str, u8)>)
    requires
        roll_percent < 100,
    ensures
        (elapsed_ms matches Some(e) && e < COOLDOWN_MS) ==> r is None,
        !(elapsed_ms matches Some(e) && e < COOLDOWN_MS) ==> match spec_tier(count) {
            None => r is None,
            Some(tier) => {
                if roll_percent < spec_chance_percent(tier, last_tier) {
                    r == Some((r->Some_0.0, tier))
                        && r->Some_0.0@ == spec_flavor(tier, pick % spec_tier_len(tier))
                } else {
                    r is None
                }
            },
        },
{
    if let Some(elapsed) = elapsed_ms {
        if elapsed < COOLDOWN_MS {
            return None;
        }
    }
    let current_tier = match get_tier(count) {
        None => {
            return None;
        },
        Some(tier) => tier,
    };
    let activation_chance: u64 = match last_tier {
        Some(last) if current_tier <= last => 12,
        _ => {
            if current_tier == 1 {
                70
            } else if current_tier == 2 {
                50
            } else if current_tier == 3 {
                30
            } else {
                20
            }
        },
    };
    if roll_percent < activation_chance {
        let len: u64 = if current_tier == 1 {
            4
        } else if current_tier == 2 {
            5
        } else if current_tier == 3 {
            6
        } else {
            7
        };
        let idx = pick % len;
        Some((flavor_of(current_tier, idx), current_tier))
    } else {
        None
    }
}

} // verus!
