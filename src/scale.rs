//! Weight readings and the fixed-layout frame that a scale sends for each.
//!
//! A frame is at least 16 characters: the stability flag at 0..2 (`ST` or
//! `US`), the value at 6..14 and the unit suffix after it, from 14 on, both
//! padded with white space. Aligned frames leave column 14 blank and start
//! the suffix at 15; a suffix that starts at 14 is read whole.
use vstd::prelude::*;
use vstd::string::*;
use crate::decimal::{is_float_literal, is_float_text};
use crate::text::{trim, trim_bounds};

verus! {

/// Declares `std::time::SystemTime`, which a reading carries unread as the
/// time it was decoded.
#[verifier::external_type_specification]
#[verifier::external_body]
pub struct ExSystemTime(std::time::SystemTime);

/// Relies on `SystemTime::now`: the wall-clock time; nothing is known of it.
pub assume_specification[ std::time::SystemTime::now ]() -> std::time::SystemTime;

/// Relies on `SystemTime`'s `Clone`: the type is `Copy`, so a clone is the
/// same instant.
pub assume_specification[ <std::time::SystemTime as Clone>::clone ](
    t: &std::time::SystemTime,
) -> (r: std::time::SystemTime)
    ensures
        r == *t,
;

#[derive(Debug, Clone, Copy, PartialEq, Eq, Structural)]
pub enum ScaleUnit {
    Pounds,
    Ounces,
    Grams,
    Kilograms,
}

/// The display suffix of each unit.
pub open spec fn unit_suffix(u: ScaleUnit) -> Seq<char> {
    match u {
        ScaleUnit::Pounds => seq!['l', 'b'],
        ScaleUnit::Ounces => seq!['o', 'z'],
        ScaleUnit::Grams => seq!['g'],
        ScaleUnit::Kilograms => seq!['k', 'g'],
    }
}

/// The unit whose suffix is `t`, if any.
pub open spec fn unit_of_suffix(t: Seq<char>) -> Option<ScaleUnit> {
    if t == unit_suffix(ScaleUnit::Ounces) {
        Some(ScaleUnit::Ounces)
    } else if t == unit_suffix(ScaleUnit::Pounds) {
        Some(ScaleUnit::Pounds)
    } else if t == unit_suffix(ScaleUnit::Grams) {
        Some(ScaleUnit::Grams)
    } else if t == unit_suffix(ScaleUnit::Kilograms) {
        Some(ScaleUnit::Kilograms)
    } else {
        None
    }
}

impl ScaleUnit {
    /// The display suffix: `lb`, `oz`, `g` or `kg`.
    pub fn to_string(&self) -> (r: String)
        ensures
            r@ == unit_suffix(*self),
    {
        proof {
            reveal_strlit("lb");
            reveal_strlit("oz");
            reveal_strlit("g");
            reveal_strlit("kg");
        }
        match self {
            ScaleUnit::Pounds => "lb".to_owned(),
            ScaleUnit::Ounces => "oz".to_owned(),
            ScaleUnit::Grams => "g".to_owned(),
            ScaleUnit::Kilograms => "kg".to_owned(),
        }
    }
}

#[derive(Debug, Clone, Copy, PartialEq, Eq, Structural)]
pub enum WeightConversionError {
    InvalidString,
    InvalidStable,
    InvalidWeight,
    InvalidUnit,
}

/// What a reading says, apart from when it was taken.
pub ghost struct WeightFields {
    pub unit: ScaleUnit,
    /// The value as it was sent, without padding.
    pub value: Seq<char>,
    pub stable: bool,
}

/// A decoded reading. `value` holds the weight as the scale sent it, a text
/// that `f32::from_str` accepts; `time` is when the frame was decoded.
#[derive(Debug, Clone, PartialEq)]
pub struct ScaleWeight {
    pub unit: ScaleUnit,
    pub value: String,
    pub stable: bool,
    pub time: std::time::SystemTime,
}

impl View for ScaleWeight {
    type V = WeightFields;

    open spec fn view(&self) -> WeightFields {
        WeightFields { unit: self.unit, value: self.value@, stable: self.stable }
    }
}

/// Length below which a text cannot be a frame.
pub const FRAME_MIN_LEN: usize = 16;

/// The stability flag of a frame's first two characters.
pub open spec fn stable_of(s: Seq<char>) -> Option<bool> {
    if s[0] == 'S' && s[1] == 'T' {
        Some(true)
    } else if s[0] == 'U' && s[1] == 'S' {
        Some(false)
    } else {
        None
    }
}

/// The value field of a frame, trimmed.
pub open spec fn value_field(s: Seq<char>) -> Seq<char> {
    trim(s.subrange(6, 14))
}

/// The unit field of a frame, everything after the value field, trimmed.
pub open spec fn unit_field(s: Seq<char>) -> Seq<char> {
    trim(s.subrange(14, s.len() as int))
}

/// The decoding of a frame, with the first field that fails deciding the error.
pub open spec fn parse_frame(s: Seq<char>) -> Result<WeightFields, WeightConversionError> {
    if s.len() < FRAME_MIN_LEN {
        Err(WeightConversionError::InvalidString)
    } else if stable_of(s) is None {
        Err(WeightConversionError::InvalidStable)
    } else if !is_float_text(value_field(s)) {
        Err(WeightConversionError::InvalidWeight)
    } else if unit_of_suffix(unit_field(s)) is None {
        Err(WeightConversionError::InvalidUnit)
    } else {
        Ok(
            WeightFields {
                unit: unit_of_suffix(unit_field(s))->0,
                value: value_field(s),
                stable: stable_of(s)->0,
            },
        )
    }
}

fn is_suffix(t: &str, u: ScaleUnit) -> (r: bool)
    ensures
        r == (t@ == unit_suffix(u)),
{
    let w = u.to_string();
    let n = t.unicode_len();
    let m = w.as_str().unicode_len();
    if n != m {
        return false;
    }
    let mut k: usize = 0;
    while k < n
        invariant
            n == m == t@.len() == w@.len(),
            w@ == unit_suffix(u),
            k <= n,
            forall|q: int| 0 <= q < k ==> t@[q] == w@[q],
        decreases n - k,
    {
        if t.get_char(k) != w.as_str().get_char(k) {
            return false;
        }
        k = k + 1;
    }
    assert(t@ =~= w@);
    true
}

fn unit_from_suffix(t: &str) -> (r: Option<ScaleUnit>)
    ensures
        r == unit_of_suffix(t@),
{
    if is_suffix(t, ScaleUnit::Ounces) {
        Some(ScaleUnit::Ounces)
    } else if is_suffix(t, ScaleUnit::Pounds) {
        Some(ScaleUnit::Pounds)
    } else if is_suffix(t, ScaleUnit::Grams) {
        Some(ScaleUnit::Grams)
    } else if is_suffix(t, ScaleUnit::Kilograms) {
        Some(ScaleUnit::Kilograms)
    } else {
        None
    }
}

impl ScaleWeight {
    /// Decodes one frame, stamping it with the current time.
    pub fn from_str(s: &str) -> (r: Result<ScaleWeight, WeightConversionError>)
        ensures
            match parse_frame(s@) {
                Ok(w) => r is Ok && r->Ok_0@ == w,
                Err(e) => r == Err::<ScaleWeight, WeightConversionError>(e),
            },
    {
        let n = s.unicode_len();
        if n < FRAME_MIN_LEN {
            return Err(WeightConversionError::InvalidString);
        }
        let c0 = s.get_char(0);
        let c1 = s.get_char(1);
        let stable = if c0 == 'S' && c1 == 'T' {
            true
        } else if c0 == 'U' && c1 == 'S' {
            false
        } else {
            return Err(WeightConversionError::InvalidStable);
        };
        let (va, vb) = trim_bounds(s, 6, 14);
        let value = s.substring_char(va, vb);
        if !is_float_literal(value) {
            return Err(WeightConversionError::InvalidWeight);
        }
        let (ua, ub) = trim_bounds(s, 14, n);
        let unit = match unit_from_suffix(s.substring_char(ua, ub)) {
            Some(u) => u,
            None => return Err(WeightConversionError::InvalidUnit),
        };
        Ok(ScaleWeight { unit, value: value.to_owned(), stable, time: std::time::SystemTime::now() })
    }
}

/// Every text shorter than a frame is refused as `InvalidString`.
pub proof fn lemma_short_text_is_invalid_string(s: Seq<char>)
    requires
        s.len() < FRAME_MIN_LEN,
    ensures
        parse_frame(s) == Err::<WeightFields, WeightConversionError>(
            WeightConversionError::InvalidString,
        ),
{
}

/// A frame whose flag is neither `ST` nor `US` is refused as `InvalidStable`,
/// whatever its other fields hold.
pub proof fn lemma_bad_flag_is_invalid_stable(s: Seq<char>)
    requires
        s.len() >= FRAME_MIN_LEN,
        !(s[0] == 'S' && s[1] == 'T'),
        !(s[0] == 'U' && s[1] == 'S'),
    ensures
        parse_frame(s) == Err::<WeightFields, WeightConversionError>(
            WeightConversionError::InvalidStable,
        ),
{
}

/// A frame with a valid flag whose value field is no number is refused as
/// `InvalidWeight`, whatever its unit field holds.
pub proof fn lemma_bad_value_is_invalid_weight(s: Seq<char>)
    requires
        s.len() >= FRAME_MIN_LEN,
        stable_of(s) is Some,
        !is_float_text(value_field(s)),
    ensures
        parse_frame(s) == Err::<WeightFields, WeightConversionError>(
            WeightConversionError::InvalidWeight,
        ),
{
}

/// A frame with a valid flag and value whose unit field is `ft` is refused as
/// `InvalidUnit`.
pub proof fn lemma_feet_is_invalid_unit(s: Seq<char>)
    requires
        s.len() >= FRAME_MIN_LEN,
        stable_of(s) is Some,
        is_float_text(value_field(s)),
        unit_field(s) == seq!['f', 't'],
    ensures
        parse_frame(s) == Err::<WeightFields, WeightConversionError>(
            WeightConversionError::InvalidUnit,
        ),
{
    assert(unit_field(s)[0] != unit_suffix(ScaleUnit::Ounces)[0]);
    assert(unit_field(s)[0] != unit_suffix(ScaleUnit::Pounds)[0]);
    assert(unit_field(s).len() != unit_suffix(ScaleUnit::Grams).len());
    assert(unit_field(s)[0] != unit_suffix(ScaleUnit::Kilograms)[0]);
}

} // verus!
