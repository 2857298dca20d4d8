//! The VTL2 relocation-policy grammar: one token selecting how the VTL2
//! memory region is placed.

use vstd::prelude::*;
use crate::config::Vtl2BaseAddressType;
use crate::numeric::spec_parse_memory;
use crate::numeric::spec_parse_number;
use crate::numeric::parse_memory;
use crate::numeric::parse_number;
use crate::strutil::spec_starts_with;
use crate::strutil::str_eq_str;
use crate::strutil::str_starts_with;

verus! {

/// A relocation-policy token that is not recognized, or whose size or
/// address does not parse; holds the substring at fault.
#[derive(Debug, Clone, PartialEq, Eq)]
pub struct UnknownVtl2RelocationType(pub String);

/// The relocation grammar: `disable`, `auto=<size|filesize>`,
/// `absolute=<addr>`, or `vtl2=<size|filesize>`; `filesize` leaves the size
/// open to be taken from the file image.
pub open spec fn spec_parse_vtl2_relocation(s: Seq<char>) -> Result<Vtl2BaseAddressType, Seq<char>> {
    if s == "disable"@ {
        Ok(Vtl2BaseAddressType::File)
    } else if spec_starts_with(s, "auto="@) {
        let rest = s.subrange("auto="@.len() as int, s.len() as int);
        if rest == "filesize"@ {
            Ok(Vtl2BaseAddressType::MemoryLayout { size: None })
        } else {
            match spec_parse_memory(rest) {
                Some(n) => Ok(Vtl2BaseAddressType::MemoryLayout { size: Some(n) }),
                None => Err(rest),
            }
        }
    } else if spec_starts_with(s, "absolute="@) {
        let rest = s.subrange("absolute="@.len() as int, s.len() as int);
        match spec_parse_number(rest) {
            Some(n) => Ok(Vtl2BaseAddressType::Absolute(n)),
            None => Err(rest),
        }
    } else if spec_starts_with(s, "vtl2="@) {
        let rest = s.subrange("vtl2="@.len() as int, s.len() as int);
        if rest == "filesize"@ {
            Ok(Vtl2BaseAddressType::Vtl2Allocate { size: None })
        } else {
            match spec_parse_memory(rest) {
                Some(n) => Ok(Vtl2BaseAddressType::Vtl2Allocate { size: Some(n) }),
                None => Err(rest),
            }
        }
    } else {
        Err(s)
    }
}

/// Parse a VTL2 relocation policy.
pub fn parse_vtl2_relocation(s: &str) -> (r: Result<Vtl2BaseAddressType, UnknownVtl2RelocationType>)
    ensures
        match r {
            Ok(t) => spec_parse_vtl2_relocation(s@) == Ok::<_, Seq<char>>(t),
            Err(e) => spec_parse_vtl2_relocation(s@) == Err::<Vtl2BaseAddressType, _>(e.0@),
        },
{
    if str_eq_str(s, "disable") {
        Ok(Vtl2BaseAddressType::File)
    } else if str_starts_with(s, "auto=") {
        let plen = "auto=".unicode_len();
        let rest = s.substring_char(plen, s.unicode_len());
        proof {
            assert(rest@ == s@.subrange("auto="@.len() as int, s@.len() as int));
        }
        if str_eq_str(rest, "filesize") {
            Ok(Vtl2BaseAddressType::MemoryLayout { size: None })
        } else {
            match parse_memory(rest) {
                Ok(n) => Ok(Vtl2BaseAddressType::MemoryLayout { size: Some(n) }),
                Err(_) => Err(UnknownVtl2RelocationType(rest.to_owned())),
            }
        }
    } else if str_starts_with(s, "absolute=") {
        let plen = "absolute=".unicode_len();
        let rest = s.substring_char(plen, s.unicode_len());
        proof {
            assert(rest@ == s@.subrange("absolute="@.len() as int, s@.len() as int));
        }
        match parse_number(rest) {
            Ok(n) => Ok(Vtl2BaseAddressType::Absolute(n)),
            Err(_) => Err(UnknownVtl2RelocationType(rest.to_owned())),
        }
    } else if str_starts_with(s, "vtl2=") {
        let plen = "vtl2=".unicode_len();
        let rest = s.substring_char(plen, s.unicode_len());
        proof {
            assert(rest@ == s@.subrange("vtl2="@.len() as int, s@.len() as int));
        }
        if str_eq_str(rest, "filesize") {
            Ok(Vtl2BaseAddressType::Vtl2Allocate { size: None })
        } else {
            match parse_memory(rest) {
                Ok(n) => Ok(Vtl2BaseAddressType::Vtl2Allocate { size: Some(n) }),
                Err(_) => Err(UnknownVtl2RelocationType(rest.to_owned())),
            }
        }
    } else {
        Err(UnknownVtl2RelocationType(s.to_owned()))
    }
}

} // verus!
