use vstd::prelude::*;

use crate::error::FilterError;

verus! {

/// The name under which the overlay backend is reported.
pub const OVERLAY_BACKEND_NAME: &'static str = "Wayland overlay";

/// What the filter is doing after a change of strength.
#[derive(Debug, Clone, Copy)]
pub enum FilterStatus {
    /// No filter is shown.
    Inactive,
    /// The overlay is shown and warms the screen to the given colour temperature.
    Active { backend: &'static str, temperature_kelvin: u16 },
}

/// The decimal digit for `d` (which is below ten).
pub open spec fn digit_char(d: nat) -> char {
    if d == 0 {
        '0'
    } else if d == 1 {
        '1'
    } else if d == 2 {
        '2'
    } else if d == 3 {
        '3'
    } else if d == 4 {
        '4'
    } else if d == 5 {
        '5'
    } else if d == 6 {
        '6'
    } else if d == 7 {
        '7'
    } else if d == 8 {
        '8'
    } else {
        '9'
    }
}

/// The decimal notation of `n`, without leading zeros (zero is written `0`).
pub open spec fn decimal(n: nat) -> Seq<char>
    decreases n,
{
    if n < 10 {
        seq![digit_char(n)]
    } else {
        decimal(n / 10).push(digit_char(n % 10))
    }
}

/// The text that shows a status to the user: `Off`, or the backend's name,
/// a colon, and the temperature in kelvin.
pub open spec fn status_text(status: FilterStatus) -> Seq<char> {
    match status {
        FilterStatus::Inactive => "Off"@,
        FilterStatus::Active { backend, temperature_kelvin } => backend@ + ": "@ + decimal(
            temperature_kelvin as nat,
        ) + " K"@,
    }
}

fn digit_str(d: u16) -> (s: &'static str)
    requires
        d < 10,
    ensures
        s@ == seq![digit_char(d as nat)],
{
    proof {
        reveal_strlit("0");
        reveal_strlit("1");
        reveal_strlit("2");
        reveal_strlit("3");
        reveal_strlit("4");
        reveal_strlit("5");
        reveal_strlit("6");
        reveal_strlit("7");
        reveal_strlit("8");
        reveal_strlit("9");
    }
    if d == 0 {
        "0"
    } else if d == 1 {
        "1"
    } else if d == 2 {
        "2"
    } else if d == 3 {
        "3"
    } else if d == 4 {
        "4"
    } else if d == 5 {
        "5"
    } else if d == 6 {
        "6"
    } else if d == 7 {
        "7"
    } else if d == 8 {
        "8"
    } else {
        "9"
    }
}

/// Appends the decimal notation of `n` to `out`.
fn push_decimal(out: &mut String, n: u16)
    ensures
        final(out)@ == old(out)@ + decimal(n as nat),
    decreases n,
{
    if n >= 10 {
        push_decimal(out, n / 10);
    }
    out.append(digit_str(n % 10));
    assert(old(out)@ + decimal(n as nat) =~= old(out)@ + (if n >= 10 {
        decimal((n / 10) as nat)
    } else {
        Seq::empty()
    }) + seq![digit_char((n % 10) as nat)]);
}

impl FilterStatus {
    /// The text that shows this status to the user.
    pub fn to_string(&self) -> (text: String)
        ensures
            text@ == status_text(*self),
    {
        match self {
            FilterStatus::Inactive => String::from_str("Off"),
            FilterStatus::Active { backend, temperature_kelvin } => {
                let mut text = String::from_str(backend);
                text.append(": ");
                push_decimal(&mut text, *temperature_kelvin);
                text.append(" K");
                text
            },
        }
    }
}

/// The status line shown after a change of strength: the new status, or the
/// message of the error that stopped the change.
pub fn status_message(result: &Result<FilterStatus, FilterError>) -> (text: String)
    ensures
        text@ == match result {
            Ok(status) => status_text(*status),
            Err(e) => e@,
        },
{
    match result {
        Ok(status) => status.to_string(),
        Err(e) => e.to_string(),
    }
}

} // verus!
