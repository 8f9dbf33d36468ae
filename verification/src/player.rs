use vstd::prelude::*;
use crate::barter::BarterResolutionTypes;
use crate::barter::BarterResolved;

verus! {

/// The player's persistent gold counter. The barter core credits it when a
/// session closes with an approval; the amount is supplied by the resolution.
#[derive(PartialEq, Clone, Copy, Debug)]
pub struct Gold {
    pub amount: u32,
}

impl Default for Gold {
    fn default() -> (g: Gold)
        ensures
            g.amount == 0,
    {
        Gold { amount: 0 }
    }
}

/// Credits the approved amount to the gold counter (saturating at the
/// counter's maximum); a denial leaves it untouched.
pub fn apply_resolution(gold: &mut Gold, resolution: &BarterResolved)
    ensures
        final(gold).amount == (match resolution.resolution_type {
            BarterResolutionTypes::Approve { amount } => if old(gold).amount + amount > u32::MAX {
                u32::MAX
            } else {
                (old(gold).amount + amount) as u32
            },
            BarterResolutionTypes::Deny => old(gold).amount,
        }),
{
    match &resolution.resolution_type {
        BarterResolutionTypes::Approve { amount } => {
            gold.amount = gold.amount.saturating_add(*amount);
        },
        BarterResolutionTypes::Deny => {},
    }
}

} // verus!
