//! Size checks of the per-cell fields that drive the fluid solvers.
//!
//! Pressure and rainfall fields are flat row-major vectors with one value per
//! grid cell; a field whose length differs from the cell count is refused
//! with a computation error that names both sizes.

use vstd::prelude::*;
use crate::error::BadalError;

verus! {

/// The decimal text of a single digit.
pub open spec fn digit_text(d: nat) -> Seq<char> {
    if d == 0 { "0"@ }
    else if d == 1 { "1"@ }
    else if d == 2 { "2"@ }
    else if d == 3 { "3"@ }
    else if d == 4 { "4"@ }
    else if d == 5 { "5"@ }
    else if d == 6 { "6"@ }
    else if d == 7 { "7"@ }
    else if d == 8 { "8"@ }
    else { "9"@ }
}

/// The decimal text of a natural number, most significant digit first, with
/// no leading zeros.
pub open spec fn decimal_text(n: nat) -> Seq<char>
    decreases n,
{
    if n < 10 {
        digit_text(n)
    } else {
        decimal_text(n / 10) + digit_text(n % 10)
    }
}

/// The message of a refused field: `"<name> field size <len> != grid size <cells>"`.
pub open spec fn field_size_message(field_name: Seq<char>, len: nat, cells: nat) -> Seq<char> {
    field_name + " field size "@ + decimal_text(len) + " != grid size "@ + decimal_text(cells)
}

fn digit_str(d: usize) -> (s: &'static str)
    requires
        d < 10,
    ensures
        s@ == digit_text(d as nat),
{
    if d == 0 { "0" }
    else if d == 1 { "1" }
    else if d == 2 { "2" }
    else if d == 3 { "3" }
    else if d == 4 { "4" }
    else if d == 5 { "5" }
    else if d == 6 { "6" }
    else if d == 7 { "7" }
    else if d == 8 { "8" }
    else { "9" }
}

/// The decimal text of `n`.
pub fn decimal_string(n: usize) -> (s: String)
    ensures
        s@ == decimal_text(n as nat),
    decreases n,
{
    if n < 10 {
        String::from_str(digit_str(n))
    } else {
        let mut s = decimal_string(n / 10);
        s.append(digit_str(n % 10));
        s
    }
}

/// Check that a field of `len` values covers an `nx` × `ny` grid: `Ok` when
/// it has exactly one value per cell, else a computation error whose text
/// names the field and both sizes.
pub fn check_field_size(field_name: &str, len: usize, nx: usize, ny: usize) -> (r: Result<(), BadalError>)
    requires
        nx * ny <= usize::MAX,
    ensures
        r is Ok <==> len == nx * ny,
        r is Err ==> (r matches Err(BadalError::ComputationError(m))
            && m@ == field_size_message(field_name@, len as nat, (nx * ny) as nat)),
{
    let cells = nx * ny;
    if len == cells {
        return Ok(());
    }
    let mut m = String::from_str(field_name);
    m.append(" field size ");
    m.append(decimal_string(len).as_str());
    m.append(" != grid size ");
    m.append(decimal_string(cells).as_str());
    Err(BadalError::ComputationError(m))
}

} // verus!
