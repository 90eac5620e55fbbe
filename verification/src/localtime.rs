use vstd::prelude::*;

verus! {

/// One UTC offset never strays further than a day from UTC.
pub const MAX_UTC_OFFSET_SECS: i32 = 86_400;

/// The difference between a place's UTC offset and the local one, split
/// into whole hours (signed, toward zero) and leftover whole minutes
/// (always non-negative); nothing when the two offsets agree.
pub fn offset_difference(target_offset_utc: i32, local_offset_utc: i32) -> (r: Option<(i32, i32)>)
    requires
        -MAX_UTC_OFFSET_SECS <= target_offset_utc <= MAX_UTC_OFFSET_SECS,
        -MAX_UTC_OFFSET_SECS <= local_offset_utc <= MAX_UTC_OFFSET_SECS,
    ensures
        r is None <==> target_offset_utc == local_offset_utc,
        r matches Some(hm) ==> ({
            let d = target_offset_utc - local_offset_utc;
            &&& (d >= 0 ==> hm.0 == d / 3600 && hm.1 == (d % 3600) / 60)
            &&& (d < 0 ==> hm.0 == -((-d) / 3600) && hm.1 == ((-d) % 3600) / 60)
        }),
{
    let d = target_offset_utc - local_offset_utc;
    if d == 0 {
        return None;
    }
    if d > 0 {
        let ud = d as u32;
        Some((((ud / 3600) as i32), (((ud % 3600) / 60) as i32)))
    } else {
        let ud = (-d) as u32;
        Some(((-((ud / 3600) as i32)), (((ud % 3600) / 60) as i32)))
    }
}

} // verus!
