//! Naming a lunar phase from its position in the cycle, and the small
//! picture that goes with each name.
use vstd::prelude::*;
use crate::text::same_text;

verus! {

/// The named stages of the lunar cycle; `Unnamed` is the fallback for a
/// position outside the named buckets.
#[derive(Debug, Clone, Copy, PartialEq, Eq, Structural)]
pub enum MoonPhase {
    New,
    WaxingCrescent,
    FirstQuarter,
    WaxingGibbous,
    Full,
    WaningGibbous,
    LastQuarter,
    WaningCrescent,
    Unnamed,
}

/// The phase for a position `p` in the cycle, in whole percent. The buckets
/// are half-open, `[low, high)`, and the first that holds `p` wins: the
/// documented overlap of `new` and `waxing crescent` on `[2, 3)` goes to `new`.
pub open spec fn phase_bucket(p: int) -> MoonPhase {
    if 0 <= p < 3 {
        MoonPhase::New
    } else if 2 <= p < 20 {
        MoonPhase::WaxingCrescent
    } else if 20 <= p < 30 {
        MoonPhase::FirstQuarter
    } else if 30 <= p < 47 {
        MoonPhase::WaxingGibbous
    } else if 47 <= p < 53 {
        MoonPhase::Full
    } else if 53 <= p < 70 {
        MoonPhase::WaningGibbous
    } else if 70 <= p < 85 {
        MoonPhase::LastQuarter
    } else if 85 <= p < 99 {
        MoonPhase::WaningCrescent
    } else {
        MoonPhase::Unnamed
    }
}

/// The lowest percent that a named phase covers once the overlap is settled.
pub open spec fn bucket_low(ph: MoonPhase) -> int {
    match ph {
        MoonPhase::New => 0,
        MoonPhase::WaxingCrescent => 3,
        MoonPhase::FirstQuarter => 20,
        MoonPhase::WaxingGibbous => 30,
        MoonPhase::Full => 47,
        MoonPhase::WaningGibbous => 53,
        MoonPhase::LastQuarter => 70,
        MoonPhase::WaningCrescent => 85,
        MoonPhase::Unnamed => 99,
    }
}

/// The first percent past a named phase's bucket.
pub open spec fn bucket_high(ph: MoonPhase) -> int {
    match ph {
        MoonPhase::New => 3,
        MoonPhase::WaxingCrescent => 20,
        MoonPhase::FirstQuarter => 30,
        MoonPhase::WaxingGibbous => 47,
        MoonPhase::Full => 53,
        MoonPhase::WaningGibbous => 70,
        MoonPhase::LastQuarter => 85,
        MoonPhase::WaningCrescent => 99,
        MoonPhase::Unnamed => 100,
    }
}

/// The name reported for each phase.
pub open spec fn phase_name(ph: MoonPhase) -> &'static str {
    match ph {
        MoonPhase::New => "new",
        MoonPhase::WaxingCrescent => "waxing crescent",
        MoonPhase::FirstQuarter => "first quarter",
        MoonPhase::WaxingGibbous => "waxing gibbous",
        MoonPhase::Full => "full",
        MoonPhase::WaningGibbous => "waning gibbous",
        MoonPhase::LastQuarter => "last quarter",
        MoonPhase::WaningCrescent => "waning crescent",
        MoonPhase::Unnamed => "anything",
    }
}

/// The phase whose name is `s`; `Unnamed` when `s` names none.
pub open spec fn phase_named(s: Seq<char>) -> MoonPhase {
    if s == "new"@ {
        MoonPhase::New
    } else if s == "waxing crescent"@ {
        MoonPhase::WaxingCrescent
    } else if s == "first quarter"@ {
        MoonPhase::FirstQuarter
    } else if s == "waxing gibbous"@ {
        MoonPhase::WaxingGibbous
    } else if s == "full"@ {
        MoonPhase::Full
    } else if s == "waning gibbous"@ {
        MoonPhase::WaningGibbous
    } else if s == "last quarter"@ {
        MoonPhase::LastQuarter
    } else if s == "waning crescent"@ {
        MoonPhase::WaningCrescent
    } else {
        MoonPhase::Unnamed
    }
}

pub const MOON_IMAGE_NEW: &'static str = "   .--.\n /      \\\n|        |\n \\      /\n   '--'";

pub const MOON_IMAGE_WAXING_C: &'static str = "   .--.\n /     #\\\n|       #|\n \\     #/\n   '--'";

pub const MOON_IMAGE_FIRST_Q: &'static str = "   .--.\n /   ###\\\n|    ####|\n \\   ###/\n   '--'";

pub const MOON_IMAGE_WAXING_G: &'static str = "   .--.\n / #####\\\n|  ######|\n \\ #####/\n   '--'";

pub const MOON_IMAGE_FULL: &'static str = "   .--.\n /######\\\n|########|\n \\######/\n   '--'";

pub const MOON_IMAGE_WANING_G: &'static str = "   .--.\n /##### \\\n|######  |\n \\##### /\n   '--'";

pub const MOON_IMAGE_LAST_Q: &'static str = "   .--.\n /###   \\\n|####    |\n \\###   /\n   '--'";

pub const MOON_IMAGE_WANING_C: &'static str = "   .--.\n /#     \\\n|#       |\n \\#     /\n   '--'";

pub const MOON_IMAGE_NONE: &'static str = "no image found";

/// The picture for each phase.
pub open spec fn phase_image(ph: MoonPhase) -> &'static str {
    match ph {
        MoonPhase::New => MOON_IMAGE_NEW,
        MoonPhase::WaxingCrescent => MOON_IMAGE_WAXING_C,
        MoonPhase::FirstQuarter => MOON_IMAGE_FIRST_Q,
        MoonPhase::WaxingGibbous => MOON_IMAGE_WAXING_G,
        MoonPhase::Full => MOON_IMAGE_FULL,
        MoonPhase::WaningGibbous => MOON_IMAGE_WANING_G,
        MoonPhase::LastQuarter => MOON_IMAGE_LAST_Q,
        MoonPhase::WaningCrescent => MOON_IMAGE_WANING_C,
        MoonPhase::Unnamed => MOON_IMAGE_NONE,
    }
}

/// The phase for a position in the cycle given in whole percent.
pub fn moon_phase_from_percent(percent: i32) -> (r: MoonPhase)
    ensures
        r == phase_bucket(percent as int),
{
    if 0 <= percent && percent < 3 {
        MoonPhase::New
    } else if 2 <= percent && percent < 20 {
        MoonPhase::WaxingCrescent
    } else if 20 <= percent && percent < 30 {
        MoonPhase::FirstQuarter
    } else if 30 <= percent && percent < 47 {
        MoonPhase::WaxingGibbous
    } else if 47 <= percent && percent < 53 {
        MoonPhase::Full
    } else if 53 <= percent && percent < 70 {
        MoonPhase::WaningGibbous
    } else if 70 <= percent && percent < 85 {
        MoonPhase::LastQuarter
    } else if 85 <= percent && percent < 99 {
        MoonPhase::WaningCrescent
    } else {
        MoonPhase::Unnamed
    }
}

impl MoonPhase {
    /// The name of this phase.
    pub fn name(&self) -> (r: &'static str)
        ensures
            r@ == phase_name(*self)@,
    {
        match self {
            MoonPhase::New => "new",
            MoonPhase::WaxingCrescent => "waxing crescent",
            MoonPhase::FirstQuarter => "first quarter",
            MoonPhase::WaxingGibbous => "waxing gibbous",
            MoonPhase::Full => "full",
            MoonPhase::WaningGibbous => "waning gibbous",
            MoonPhase::LastQuarter => "last quarter",
            MoonPhase::WaningCrescent => "waning crescent",
            MoonPhase::Unnamed => "anything",
        }
    }
}

/// The phase name for a position in the cycle given in whole percent
/// (the fraction of the cycle times one hundred, truncated).
pub fn getMoonPhaseName(percent: i32) -> (r: &'static str)
    ensures
        r@ == phase_name(phase_bucket(percent as int))@,
{
    moon_phase_from_percent(percent).name()
}

/// The picture for a phase name; "no image found" for any other text.
pub fn getMoonPhaseImage(phase_name: &str) -> (r: &'static str)
    ensures
        r@ == phase_image(phase_named(phase_name@))@,
{
    if same_text(phase_name, "new") {
        MOON_IMAGE_NEW
    } else if same_text(phase_name, "waxing crescent") {
        MOON_IMAGE_WAXING_C
    } else if same_text(phase_name, "first quarter") {
        MOON_IMAGE_FIRST_Q
    } else if same_text(phase_name, "waxing gibbous") {
        MOON_IMAGE_WAXING_G
    } else if same_text(phase_name, "full") {
        MOON_IMAGE_FULL
    } else if same_text(phase_name, "waning gibbous") {
        MOON_IMAGE_WANING_G
    } else if same_text(phase_name, "last quarter") {
        MOON_IMAGE_LAST_Q
    } else if same_text(phase_name, "waning crescent") {
        MOON_IMAGE_WANING_C
    } else {
        MOON_IMAGE_NONE
    }
}

/// The named buckets partition `[0, 99)` and the fallback covers the rest:
/// every position has exactly one phase, whose settled bucket `[low, high)`
/// holds it, and the overlap `[2, 3)` always resolves to `new`.
pub proof fn lemma_phase_buckets_partition(p: int)
    ensures
        (phase_bucket(p) != MoonPhase::Unnamed) <==> (0 <= p < 99),
        phase_bucket(p) != MoonPhase::Unnamed ==> bucket_low(phase_bucket(p)) <= p < bucket_high(
            phase_bucket(p),
        ),
        forall|ph: MoonPhase|
            ph != MoonPhase::Unnamed && #[trigger] bucket_low(ph) <= p < bucket_high(ph)
                ==> phase_bucket(p) == ph,
        2 <= p < 3 ==> phase_bucket(p) == MoonPhase::New,
{
}

} // verus!
