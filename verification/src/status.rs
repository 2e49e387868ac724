//! The sync-status view: indexing progress as a percentage with two decimal
//! places, and the line the polling viewer prints for each snapshot.

use vstd::prelude::*;
use vstd::string::StringExecFns;

use crate::subquery::types::SyncStatus;
use crate::text::spec_dec_str;
use crate::text::spec_digit_char;
use crate::text::u64_to_dec_string;

verus! {

/// Progress of `p` out of `t` as a percentage in hundredths: `p / t * 100`
/// rounded to the nearest hundredth, halves to even, as formatting a number
/// to two decimal places rounds.
pub open spec fn spec_percent_hundredths(p: nat, t: nat) -> nat
    recommends
        t > 0,
{
    let q = p * 10000 / t;
    let rem = p * 10000 % t;
    if 2 * rem < t {
        q
    } else if 2 * rem > t {
        q + 1
    } else if q % 2 == 0 {
        q
    } else {
        q + 1
    }
}

/// The percentage rendered with two decimal places.
pub open spec fn spec_percent_string(h: nat) -> Seq<char> {
    spec_dec_str(h / 100) + seq!['.'] + seq![
        spec_digit_char((h % 100 / 10) as int),
        spec_digit_char((h % 10) as int),
    ]
}

/// Computes the progress percentage of a snapshot, in hundredths, rounded
/// to nearest with halves to even.
pub fn sync_percent_hundredths(processing_block: u32, target_block: u32) -> (r: u64)
    requires
        target_block > 0,
    ensures
        r == spec_percent_hundredths(processing_block as nat, target_block as nat),
{
    let n: u64 = processing_block as u64 * 10000;
    let t: u64 = target_block as u64;
    let q: u64 = n / t;
    let rem: u64 = n % t;
    if 2 * rem < t {
        q
    } else if 2 * rem > t {
        q + 1
    } else if q % 2 == 0 {
        q
    } else {
        q + 1
    }
}

/// Renders a percentage held in hundredths, two decimal places.
pub fn format_hundredths(h: u64) -> (r: String)
    ensures
        r@ == spec_percent_string(h as nat),
{
    let mut s = u64_to_dec_string(h / 100);
    s.append(".");
    let tens = u64_to_dec_string(h % 100 / 10);
    s.append(tens.as_str());
    let ones = u64_to_dec_string(h % 10);
    s.append(ones.as_str());
    proof {
        reveal_strlit(".");
        assert("."@ =~= seq!['.']);
        assert(s@ =~= spec_percent_string(h as nat));
    }
    s
}

/// The line the sync-status viewer prints for one snapshot; in rolling mode
/// it carries the iteration counter.
pub open spec fn spec_sync_line(status: SyncStatus, rolling: bool, times: nat) -> Seq<char> {
    "total_entities: "@ + spec_dec_str(status.total_entities as nat) + " target_block: "@
        + spec_dec_str(status.target_block as nat) + " processing_block: "@ + spec_dec_str(
        status.processing_block as nat,
    ) + " percent: "@ + spec_percent_string(
        spec_percent_hundredths(status.processing_block as nat, status.target_block as nat),
    ) + "%"@ + (if rolling {
        " ["@ + spec_dec_str(times) + "]"@
    } else {
        Seq::<char>::empty()
    }) + " "@
}

/// Renders one sync-status snapshot.
pub fn render_sync_line(status: &SyncStatus, rolling: bool, times: u64) -> (r: String)
    requires
        status.target_block > 0,
    ensures
        r@ == spec_sync_line(*status, rolling, times as nat),
{
    let mut s = String::from_str("total_entities: ");
    let te = u64_to_dec_string(status.total_entities);
    s.append(te.as_str());
    s.append(" target_block: ");
    let tb = u64_to_dec_string(status.target_block as u64);
    s.append(tb.as_str());
    s.append(" processing_block: ");
    let pb = u64_to_dec_string(status.processing_block as u64);
    s.append(pb.as_str());
    s.append(" percent: ");
    let pct = format_hundredths(sync_percent_hundredths(status.processing_block,
        status.target_block));
    s.append(pct.as_str());
    s.append("%");
    if rolling {
        s.append(" [");
        let ts = u64_to_dec_string(times);
        s.append(ts.as_str());
        s.append("]");
    }
    s.append(" ");
    proof {
        assert(s@ =~= spec_sync_line(*status, rolling, times as nat));
    }
    s
}

} // verus!
