//! Binary (IEC) unit prefixes and rendering of byte counts with them.

use vstd::prelude::*;

use crate::text::{decimal, push_decimal};

verus! {

pub const KIBI: u64 = 1024;
pub const KIBI_STR: &'static str = "Ki";

pub const MEBI: u64 = KIBI * 1024;
pub const MEBI_STR: &'static str = "Mi";

pub const GIBI: u64 = MEBI * 1024;
pub const GIBI_STR: &'static str = "Gi";

pub const TEBI: u64 = GIBI * 1024;
pub const TEBI_STR: &'static str = "Ti";

pub const PEBI: u64 = TEBI * 1024;
pub const PEBI_STR: &'static str = "Pi";

/// Number of unit steps, from no prefix up to `Pi`.
pub const UNIT_COUNT: usize = 6;

/// The multiplier of the `index`-th unit: 1024 to the power `index`.
pub open spec fn unit_value_spec(index: int) -> u64 {
    if index == 0 {
        1
    } else if index == 1 {
        KIBI
    } else if index == 2 {
        MEBI
    } else if index == 3 {
        GIBI
    } else if index == 4 {
        TEBI
    } else {
        PEBI
    }
}

/// The prefix of the `index`-th unit (`""`, `Ki`, `Mi`, `Gi`, `Ti`, `Pi`).
pub open spec fn unit_prefix_spec(index: int) -> Seq<char> {
    if index == 0 {
        ""@
    } else if index == 1 {
        KIBI_STR@
    } else if index == 2 {
        MEBI_STR@
    } else if index == 3 {
        GIBI_STR@
    } else if index == 4 {
        TEBI_STR@
    } else {
        PEBI_STR@
    }
}

/// The unit a value is shown in: the largest one (up to `Pi`) under which the
/// value scales to below 1024, or `Pi` for values of 1024 Pi and above.
pub open spec fn unit_index(value: u64) -> int {
    if value < KIBI {
        0
    } else if value < MEBI {
        1
    } else if value < GIBI {
        2
    } else if value < TEBI {
        3
    } else if value < PEBI {
        4
    } else {
        5
    }
}

/// `value` shown as a whole number of the chosen unit (rounded down), then the
/// unit prefix, then `suffix`: 1536 with suffix `B` is `1KiB`.
pub open spec fn fmt_unit_spec(value: u64, suffix: Seq<char>) -> Seq<char> {
    let index = unit_index(value);
    decimal((value / unit_value_spec(index)) as nat) + unit_prefix_spec(index) + suffix
}

proof fn lemma_scaled_below_kibi(value: u64, index: int)
    requires
        0 <= index < UNIT_COUNT,
    ensures
        (value / unit_value_spec(index) < KIBI) == (value < unit_value_spec(index) * 1024),
{
    let d = unit_value_spec(index) as int;
    assert(d > 0);
    let v = value as int;
    assert((v / d < 1024) == (v < d * 1024)) by (nonlinear_arith)
        requires
            d > 0,
            v >= 0,
    ;
}

fn unit_value(index: usize) -> (value: u64)
    requires
        index < UNIT_COUNT,
    ensures
        value == unit_value_spec(index as int),
{
    if index == 0 {
        1
    } else if index == 1 {
        KIBI
    } else if index == 2 {
        MEBI
    } else if index == 3 {
        GIBI
    } else if index == 4 {
        TEBI
    } else {
        PEBI
    }
}

fn unit_prefix(index: usize) -> (prefix: &'static str)
    requires
        index < UNIT_COUNT,
    ensures
        prefix@ == unit_prefix_spec(index as int),
{
    if index == 0 {
        ""
    } else if index == 1 {
        KIBI_STR
    } else if index == 2 {
        MEBI_STR
    } else if index == 3 {
        GIBI_STR
    } else if index == 4 {
        TEBI_STR
    } else {
        PEBI_STR
    }
}

/// A count (such as a number of bytes) with a unit suffix, shown with the
/// largest binary prefix that keeps the number below 1024.
pub struct FmtUnit<'a>(u64, &'a str);

impl<'a> FmtUnit<'a> {
    /// The count `value` with unit suffix `prefix` (for example `B`).
    pub fn new(value: u64, prefix: &'a str) -> (unit: Self)
        ensures
            unit.value() == value,
            unit.suffix() == prefix@,
    {
        Self(value, prefix)
    }

    /// The count.
    pub closed spec fn value(&self) -> u64 {
        self.0
    }

    /// The unit suffix.
    pub closed spec fn suffix(&self) -> Seq<char> {
        self.1@
    }

    /// The text of the count, as `fmt_unit_spec` describes.
    pub fn to_string(&self) -> (text: String)
        ensures
            text@ == fmt_unit_spec(self.value(), self.suffix()),
    {
        let mut index: usize = 0;
        let len: usize = UNIT_COUNT;
        while index < len
            invariant
                len == UNIT_COUNT,
                index <= len,
                forall|j: int| 0 <= j < index ==> self.0 / #[trigger] unit_value_spec(j) >= KIBI,
            decreases len - index,
        {
            let calc = self.0 / unit_value(index);
            proof {
                lemma_scaled_below_kibi(self.0, index as int);
                assert forall|j: int| 0 <= j < index implies self.0 >= #[trigger] unit_value_spec(j) * 1024 by {
                    lemma_scaled_below_kibi(self.0, j);
                }
            }
            if calc < KIBI {
                assert(index > 0 ==> self.0 >= unit_value_spec(0) * 1024);
                assert(index > 1 ==> self.0 >= unit_value_spec(1) * 1024);
                assert(index > 2 ==> self.0 >= unit_value_spec(2) * 1024);
                assert(index > 3 ==> self.0 >= unit_value_spec(3) * 1024);
                assert(index > 4 ==> self.0 >= unit_value_spec(4) * 1024);
                assert(unit_index(self.0) == index as int);
                let mut text = String::new();
                push_decimal(&mut text, calc);
                text.append(unit_prefix(index));
                text.append(self.1);
                return text;
            } else {
                index += 1;
            }
        }
        proof {
            lemma_scaled_below_kibi(self.0, 4);
        }
        assert(self.0 / unit_value_spec(4) >= KIBI);
        assert(unit_index(self.0) == 5);
        let mut text = String::new();
        push_decimal(&mut text, self.0 / unit_value(len - 1));
        text.append(unit_prefix(len - 1));
        text.append(self.1);
        text
    }
}

/// How a count is shown, by its size: below 1024 as a plain number; from
/// 1024^i up to (not including) 1024^(i+1) as the whole number of 1024^i
/// units with the prefix `Ki`, `Mi`, `Gi`, `Ti` for i = 1 to 4; from 1024^5
/// on as a whole number of `Pi` units. The number shown is therefore always
/// below 1024 unless the count reaches 1024 Pi, and at least 1 unless the
/// count is 0; 1.5 MiB is shown as `1MiB`.
pub proof fn lemma_fmt_unit_table(value: u64, suffix: Seq<char>)
    ensures
        value < 0x400 ==> fmt_unit_spec(value, suffix) == decimal(value as nat) + suffix,
        0x400 <= value < 0x10_0000 ==> fmt_unit_spec(value, suffix) == decimal(
            (value / 0x400) as nat,
        ) + "Ki"@ + suffix,
        0x10_0000 <= value < 0x4000_0000 ==> fmt_unit_spec(value, suffix) == decimal(
            (value / 0x10_0000) as nat,
        ) + "Mi"@ + suffix,
        0x4000_0000 <= value < 0x100_0000_0000 ==> fmt_unit_spec(value, suffix) == decimal(
            (value / 0x4000_0000) as nat,
        ) + "Gi"@ + suffix,
        0x100_0000_0000 <= value < 0x4_0000_0000_0000 ==> fmt_unit_spec(value, suffix) == decimal(
            (value / 0x100_0000_0000) as nat,
        ) + "Ti"@ + suffix,
        0x4_0000_0000_0000 <= value ==> fmt_unit_spec(value, suffix) == decimal(
            (value / 0x4_0000_0000_0000) as nat,
        ) + "Pi"@ + suffix,
{
    assert(""@ + suffix == suffix) by {
        reveal_strlit("");
        assert(""@ + suffix =~= suffix);
    }
}

/// The shown number is at least 1 for any nonzero count, and below 1024
/// unless the count reaches 1024 Pi (where `Pi` is the largest unit).
pub proof fn lemma_fmt_unit_scale(value: u64)
    ensures
        value >= 1 ==> value / unit_value_spec(unit_index(value)) >= 1,
        value < PEBI * 1024 ==> value / unit_value_spec(unit_index(value)) < 1024,
{
    let index = unit_index(value);
    lemma_scaled_below_kibi(value, index);
    let d = unit_value_spec(index) as int;
    let v = value as int;
    assert(index > 0 ==> v >= d);
    assert(v >= d ==> v / d >= 1) by (nonlinear_arith)
        requires
            d > 0,
    ;
}

} // verus!
