//! The untrusted input record and its validation into an asteroid whose
//! fields the physics can rely on.

use vstd::prelude::*;
use crate::error::DomainError;
use crate::number::{nonnegative, positive, Binary64};

verus! {

/// A character with the Unicode `White_Space` property.
pub open spec fn white_space(c: char) -> bool {
    let u = c as u32;
    (0x09 <= u && u <= 0x0d) || u == 0x20 || u == 0x85 || u == 0xa0 || u == 0x1680
        || (0x2000 <= u && u <= 0x200a) || u == 0x2028 || u == 0x2029 || u == 0x202f
        || u == 0x205f || u == 0x3000
}

/// Nothing is left once leading and trailing white space is trimmed away.
pub open spec fn blank(s: Seq<char>) -> bool {
    forall|i: int| 0 <= i < s.len() ==> white_space(#[trigger] s[i])
}

/// A raw record as it arrives from the boundary layer; nothing is checked yet.
#[derive(Clone, Debug, PartialEq)]
pub struct AsteroidDto {
    pub id: String,
    pub name: String,
    pub diameter_km: Binary64,
    pub velocity_kps: Binary64,
    pub hazardous: bool,
    /// Close-approach distance, absent when the record has none.
    pub distance_km: Option<Binary64>,
}

/// A validated asteroid: what [`Asteroid::validate`] returns satisfies
/// [`Asteroid::wf`], and nothing in this library changes it afterwards.
#[derive(Clone, Debug, PartialEq)]
pub struct Asteroid {
    pub id: String,
    pub name: String,
    pub diameter_km: Binary64,
    pub velocity_kps: Binary64,
    pub hazardous: bool,
    pub distance_km: Binary64,
}

impl Asteroid {
    /// The guarantees of a validated asteroid.
    pub open spec fn wf(&self) -> bool {
        &&& !blank(self.id@)
        &&& positive(self.diameter_km.bits)
        &&& nonnegative(self.velocity_kps.bits)
        &&& nonnegative(self.distance_km.bits)
    }
}

/// The outcome of validating `dto`: the first rule that fails, in the order
/// id, diameter, velocity, distance, or the validated asteroid.
pub open spec fn validation_outcome(dto: AsteroidDto) -> Result<Asteroid, DomainError> {
    if blank(dto.id@) {
        Err(DomainError::InvalidId)
    } else if !positive(dto.diameter_km.bits) {
        Err(DomainError::InvalidDiameter(dto.diameter_km))
    } else if !nonnegative(dto.velocity_kps.bits) {
        Err(DomainError::InvalidVelocity(dto.velocity_kps))
    } else {
        match dto.distance_km {
            Some(d) if nonnegative(d.bits) => Ok(
                Asteroid {
                    id: dto.id,
                    name: dto.name,
                    diameter_km: dto.diameter_km,
                    velocity_kps: dto.velocity_kps,
                    hazardous: dto.hazardous,
                    distance_km: d,
                },
            ),
            _ => Err(DomainError::MissingCloseApproachData),
        }
    }
}

/// Whether `c` is white space, as `char::is_whitespace` defines it.
pub fn is_white_space(c: char) -> (r: bool)
    ensures
        r == white_space(c),
{
    let u = c as u32;
    (0x09 <= u && u <= 0x0d) || u == 0x20 || u == 0x85 || u == 0xa0 || u == 0x1680
        || (0x2000 <= u && u <= 0x200a) || u == 0x2028 || u == 0x2029 || u == 0x202f
        || u == 0x205f || u == 0x3000
}

/// Whether `s` is empty after trimming white space from both ends.
pub fn is_blank(s: &str) -> (r: bool)
    ensures
        r == blank(s@),
{
    let n = s.unicode_len();
    let mut i: usize = 0;
    while i < n
        invariant
            n == s@.len(),
            i <= n,
            forall|j: int| 0 <= j < i ==> white_space(#[trigger] s@[j]),
        decreases n - i,
    {
        if !is_white_space(s.get_char(i)) {
            return false;
        }
        i = i + 1;
    }
    true
}

impl Asteroid {
    /// Turns a raw record into a validated asteroid, or names the first rule
    /// it breaks.
    pub fn validate(dto: AsteroidDto) -> (r: Result<Asteroid, DomainError>)
        ensures
            r == validation_outcome(dto),
            r matches Ok(a) ==> a.wf(),
    {
        if is_blank(dto.id.as_str()) {
            return Err(DomainError::InvalidId);
        }
        if !dto.diameter_km.is_positive() {
            return Err(DomainError::InvalidDiameter(dto.diameter_km));
        }
        if !dto.velocity_kps.is_nonnegative() {
            return Err(DomainError::InvalidVelocity(dto.velocity_kps));
        }
        match dto.distance_km {
            Some(d) => {
                if d.is_nonnegative() {
                    Ok(
                        Asteroid {
                            id: dto.id,
                            name: dto.name,
                            diameter_km: dto.diameter_km,
                            velocity_kps: dto.velocity_kps,
                            hazardous: dto.hazardous,
                            distance_km: d,
                        },
                    )
                } else {
                    Err(DomainError::MissingCloseApproachData)
                }
            },
            None => Err(DomainError::MissingCloseApproachData),
        }
    }
}

} // verus!
