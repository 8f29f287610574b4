use vstd::prelude::*;

verus! {

/// The category's lowercase label, used in log lines and error texts.
pub fn artist(internal: bool) -> (r: &'static str)
    ensures
        internal ==> r@ == "internal"@,
        !internal ==> r@ == "external"@,
{
    if internal {
        "internal"
    } else {
        "external"
    }
}

/// The category's heading, used in poll and announcement titles.
pub fn artist_capital(internal: bool) -> (r: &'static str)
    ensures
        internal ==> r@ == "Biweekly Internal"@,
        !internal ==> r@ == "Weekly External"@,
{
    if internal {
        "Biweekly Internal"
    } else {
        "Weekly External"
    }
}

/// Picks the channel to post to for a category, given the two configured
/// channel identifiers.
pub fn get_channel(internal: bool, internal_channel: u64, external_channel: u64) -> (r: u64)
    ensures
        r == (if internal { internal_channel } else { external_channel }),
{
    if internal {
        internal_channel
    } else {
        external_channel
    }
}

/// The index of the stock avatar shown for a member whose profile cannot
/// be fetched, derived from the user identity.
pub fn default_avatar_index(user_id: u64) -> (r: u16)
    ensures
        r as int == (user_id >> 22) as int % 6,
        r < 6,
{
    ((user_id >> 22) % 6) as u16
}

} // verus!
