//! The reward section of an announcement.
use vstd::prelude::*;
use crate::constants::{reward_type_name, reward_type_to_description};
use crate::quest::QuestReward;
use crate::text::{append_decimal, decimal};

verus! {

/// The optional line of a reward field.
pub open spec fn optional_line(label: Seq<char>, value: Option<i32>) -> Seq<char> {
    match value {
        Some(v) => label + decimal(v as int),
        None => Seq::empty(),
    }
}

/// The details of a reward: its kind, SKU (`N/A` where absent) and name, then
/// the orb amount and quantity where given.
pub open spec fn reward_text(reward: Option<&QuestReward>) -> Seq<char> {
    match reward {
        None => "No reward details available"@,
        Some(r) => "**Reward Type**: "@ + reward_type_name(r.reward_type as int) + "\n**SKU ID**: `"@
            + match r.sku_id {
            Some(s) => s@,
            None => "N/A"@,
        } + "`\n**Name**: "@ + r.messages.name@ + optional_line("\n**Orbs Amount**: "@, r.orb_quantity)
            + optional_line("\n**Quantity**: "@, r.quantity),
    }
}

/// Formats the details of a reward, or says that there is none.
pub fn format_reward_info(reward: Option<&QuestReward>) -> (r: String)
    ensures
        r@ == reward_text(reward),
{
    match reward {
        None => String::from_str("No reward details available"),
        Some(reward) => {
            let mut info = String::from_str("**Reward Type**: ");
            info.append(reward_type_to_description(reward.reward_type));
            info.append("\n**SKU ID**: `");
            match &reward.sku_id {
                Some(s) => info.append(s.as_str()),
                None => info.append("N/A"),
            }
            info.append("`\n**Name**: ");
            info.append(reward.messages.name.as_str());
            if let Some(orbs) = reward.orb_quantity {
                info.append("\n**Orbs Amount**: ");
                append_decimal(&mut info, orbs as i64);
            }
            if let Some(qty) = reward.quantity {
                info.append("\n**Quantity**: ");
                append_decimal(&mut info, qty as i64);
            }
            proof {
                assert(info@ =~= reward_text(Some(reward)));
            }
            info
        },
    }
}

} // verus!
