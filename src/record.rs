use vstd::prelude::*;

use crate::error::ConfigError;
use crate::placement::{WindowPlacement, WindowPosition};

verus! {

/// The on-disk form of a placement before it becomes RON text: `None` for a
/// centred window, `Some((x, y))` for a window at `(x, y)`. The file holds
/// `None` or, say, `Some((120,-40))`; the names of the placement types do not
/// appear in it.
pub type Record = Option<(i32, i32)>;

#[verifier::external_type_specification]
#[verifier::external_body]
pub struct ExRonError(ron::Error);

#[verifier::external_type_specification]
#[verifier::external_body]
pub struct ExRonSpannedError(ron::error::SpannedError);

/// The record that `ron::from_str` reads from a text, or `None` where the
/// text is not the RON form of a record.
pub uninterp spec fn ron_record_of(s: Seq<char>) -> Option<Option<(i32, i32)>>;

/// The character of the decimal digit `d`.
pub open spec fn digit_char(d: nat) -> char
    recommends
        d < 10,
{
    seq!['0', '1', '2', '3', '4', '5', '6', '7', '8', '9'][d as int]
}

/// The decimal digits of `n`, most significant first, with no leading zero.
pub open spec fn digits(n: nat) -> Seq<char>
    decreases n,
{
    if n < 10 {
        seq![digit_char(n)]
    } else {
        digits(n / 10).push(digit_char(n % 10))
    }
}

/// An integer as `{}` formats it: a minus sign where it is negative, then
/// its digits.
pub open spec fn decimal(i: int) -> Seq<char> {
    if i < 0 {
        seq!['-'] + digits((-i) as nat)
    } else {
        digits(i as nat)
    }
}

/// The compact RON text of a record: `None`, or `Some((x,y))` with both
/// coordinates in decimal.
pub open spec fn ron_text(r: Record) -> Seq<char> {
    match r {
        None => seq!['N', 'o', 'n', 'e'],
        Some((x, y)) => seq!['S', 'o', 'm', 'e', '(', '('] + decimal(x as int) + seq![','] + decimal(
            y as int,
        ) + seq![')', ')'],
    }
}

/// Relies on `ron::to_string`, which writes into a `Vec<u8>` and so cannot
/// fail on a record: `None`, or `Some(` and the tuple `(x,y)` and `)`, the
/// integers written with `{}`. What it writes, `ron::from_str` reads back.
#[verifier::external_body]
fn ron_encode(r: &Option<(i32, i32)>) -> (res: Result<String, ron::Error>)
    ensures
        res is Ok,
        res matches Ok(s) ==> s@ == ron_text(*r),
        res matches Ok(s) ==> ron_record_of(s@) == Some(*r),
{
    ron::to_string(r)
}

/// Relies on `ron::from_str`: whether it succeeds, and what it reads, depend
/// on the text alone.
#[verifier::external_body]
fn ron_decode(s: &str) -> (res: Result<Option<(i32, i32)>, ron::error::SpannedError>)
    ensures
        res is Ok <==> ron_record_of(s@) is Some,
        res matches Ok(r) ==> ron_record_of(s@) == Some(r),
{
    ron::from_str::<Option<(i32, i32)>>(s)
}

/// The record that stands for a placement.
pub open spec fn record_of(p: WindowPlacement) -> Record {
    match p.position {
        WindowPosition::Centered => None,
        WindowPosition::At(x, y) => Some((x, y)),
    }
}

/// The placement that a record stands for.
pub open spec fn placement_of(r: Record) -> WindowPlacement {
    match r {
        None => WindowPlacement { position: WindowPosition::Centered },
        Some((x, y)) => WindowPlacement { position: WindowPosition::At(x, y) },
    }
}

/// What loading a text yields: the placement it records, or `Malformed`.
pub open spec fn decoded(s: Seq<char>) -> Result<WindowPlacement, ConfigError> {
    match ron_record_of(s) {
        Some(r) => Ok(placement_of(r)),
        None => Err(ConfigError::Malformed),
    }
}

/// Turning a placement into a record and back gives the same placement, and
/// turning a record into a placement and back gives the same record.
pub proof fn lemma_record_round_trip(p: WindowPlacement, r: Record)
    ensures
        placement_of(record_of(p)) == p,
        record_of(placement_of(r)) == r,
{
}

/// The record that stands for `p`.
pub fn placement_to_record(p: &WindowPlacement) -> (r: Record)
    ensures
        r == record_of(*p),
{
    match p.position {
        WindowPosition::Centered => None,
        WindowPosition::At(x, y) => Some((x, y)),
    }
}

/// The placement that the record `r` stands for.
pub fn placement_from_record(r: Record) -> (p: WindowPlacement)
    ensures
        p == placement_of(r),
{
    match r {
        None => WindowPlacement::centered(),
        Some((x, y)) => WindowPlacement::at(x, y),
    }
}

/// The RON text to store for `p`; loading that text gives `p` back.
pub fn encode_placement(p: &WindowPlacement) -> (s: String)
    ensures
        s@ == ron_text(record_of(*p)),
        decoded(s@) == Ok::<WindowPlacement, ConfigError>(*p),
{
    let r = placement_to_record(p);
    proof {
        lemma_record_round_trip(*p, r);
    }
    match ron_encode(&r) {
        Ok(s) => s,
        Err(_) => {
            proof {
                assert(false);
            }
            String::new()
        },
    }
}

/// The placement recorded in the RON text `s`, or `Malformed` where `s` is
/// not such a record.
pub fn decode_placement(s: &str) -> (res: Result<WindowPlacement, ConfigError>)
    ensures
        res == decoded(s@),
{
    match ron_decode(s) {
        Ok(r) => Ok(placement_from_record(r)),
        Err(_) => Err(ConfigError::Malformed),
    }
}

} // verus!
