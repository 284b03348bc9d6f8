//! Reading the members of a JSON object.
use vstd::prelude::*;
use crate::decimal::{decimal_spec, parse_decimal};
use crate::fixed::{Fixed, BOUND, from_int_spec, fx_from_int};
use crate::json::{member, member_of, print, printed, unsigned, unsigned_of};

verus! {

/// The member `key` of `json` as an unsigned integer, or nothing where
/// there is no such member or it is none.
pub open spec fn unsigned_member(json: serde_json::Value, key: Seq<char>) -> Option<u64> {
    match member_of(json, key) {
        Some(v) => unsigned_of(v),
        None => None,
    }
}

/// The member `key` of `json` as a real, or nothing where there is no such
/// member or its text does not write one.
pub open spec fn real_member(json: serde_json::Value, key: Seq<char>) -> Option<Fixed> {
    match member_of(json, key) {
        Some(v) => decimal_spec(printed(v)),
        None => None,
    }
}

/// The whole number `n` as a real.
pub open spec fn real_of(n: u64) -> Fixed {
    from_int_spec(n as int) as i64
}

/// The member `key` of `json` as an unsigned integer.
pub fn read_unsigned(json: &serde_json::Value, key: &str) -> (r: Option<u64>)
    ensures
        r == unsigned_member(*json, key@),
{
    match member(json, key) {
        Some(v) => unsigned(v),
        None => None,
    }
}

/// The member `key` of `json` as a real.
pub fn read_real(json: &serde_json::Value, key: &str) -> (r: Option<Fixed>)
    ensures
        r == real_member(*json, key@),
{
    match member(json, key) {
        Some(v) => {
            let text: String = print(v);
            parse_decimal(text.as_str())
        },
        None => None,
    }
}

/// The whole number `n` as a real.
pub fn to_real(n: u64) -> (r: Fixed)
    ensures
        r == real_of(n),
{
    if n > 0x7fff_ffff_ffff_ffff {
        BOUND
    } else {
        fx_from_int(n as i64)
    }
}

} // verus!
