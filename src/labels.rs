use vstd::prelude::*;
use vstd::string::*;

verus! {

/// Number of hour captions under the chart: one for every hour boundary
/// from midnight to the following midnight.
pub const HOUR_LABEL_COUNT: usize = 25;

/// The character of a decimal digit.
pub open spec fn digit_char(d: nat) -> char {
    ((d + 48) as u32) as char
}

/// The decimal notation of a natural number, without leading zeros.
pub open spec fn decimal(n: nat) -> Seq<char>
    decreases n,
{
    if n < 10 {
        seq![digit_char(n)]
    } else {
        decimal(n / 10).push(digit_char(n % 10))
    }
}

/// The number shown on a 12-hour clock at hour `h` of the day (1 to 12).
pub open spec fn clock_hour(h: int) -> nat {
    if h % 12 == 0 {
        12
    } else {
        (h % 12) as nat
    }
}

/// The 12-hour caption of hour `h`, as in `"12 AM"` or `"1 PM"`. Hour 24
/// is the following midnight and reads `"12 AM"` again.
pub open spec fn hour_label(h: int) -> Seq<char> {
    decimal(clock_hour(h)) + if h % 24 < 12 {
        " AM"@
    } else {
        " PM"@
    }
}

fn digit_text(d: u32) -> (r: &'static str)
    requires
        d < 10,
    ensures
        r@ == seq![digit_char(d as nat)],
{
    let r = if d == 0 {
        "0"
    } else if d == 1 {
        "1"
    } else if d == 2 {
        "2"
    } else if d == 3 {
        "3"
    } else if d == 4 {
        "4"
    } else if d == 5 {
        "5"
    } else if d == 6 {
        "6"
    } else if d == 7 {
        "7"
    } else if d == 8 {
        "8"
    } else {
        "9"
    };
    proof {
        reveal_strlit("0");
        reveal_strlit("1");
        reveal_strlit("2");
        reveal_strlit("3");
        reveal_strlit("4");
        reveal_strlit("5");
        reveal_strlit("6");
        reveal_strlit("7");
        reveal_strlit("8");
        reveal_strlit("9");
        assert(r@ =~= seq![digit_char(d as nat)]);
    }
    r
}

/// The caption of hour `hour` of the day on a 12-hour clock with an AM/PM
/// suffix.
pub fn hour_label_of(hour: u32) -> (r: String)
    ensures
        r@ == hour_label(hour as int),
{
    let clock: u32 = if hour % 12 == 0 {
        12
    } else {
        hour % 12
    };
    let mut r = String::new();
    if clock >= 10 {
        r.append(digit_text(clock / 10));
        r.append(digit_text(clock % 10));
        proof {
            assert(decimal(clock as nat) == decimal((clock / 10) as nat).push(digit_char((clock % 10) as nat)));
            assert(decimal((clock / 10) as nat) == seq![digit_char((clock / 10) as nat)]);
            assert(r@ =~= decimal(clock as nat));
        }
    } else {
        r.append(digit_text(clock));
        proof {
            assert(r@ =~= decimal(clock as nat));
        }
    }
    if hour % 24 < 12 {
        r.append(" AM");
    } else {
        r.append(" PM");
    }
    r
}

/// The hour captions under the chart, one per hour boundary from 0 to 24:
/// `"12 AM"`, `"1 AM"`, ..., `"11 PM"`, `"12 AM"`.
pub fn generate_hour_labels() -> (r: Vec<String>)
    ensures
        r@.len() == HOUR_LABEL_COUNT,
        forall|h: int| 0 <= h < HOUR_LABEL_COUNT ==> (#[trigger] r@[h])@ == hour_label(h),
{
    let mut r: Vec<String> = Vec::new();
    let mut h: u32 = 0;
    while h < 25
        invariant
            h <= 25,
            r@.len() == h,
            forall|k: int| 0 <= k < h ==> (#[trigger] r@[k])@ == hour_label(k),
        decreases 25 - h,
    {
        let label = hour_label_of(h);
        r.push(label);
        h = h + 1;
    }
    r
}

} // verus!
