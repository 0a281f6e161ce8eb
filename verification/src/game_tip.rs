//! Game tips sent in by players, and the bounds their fields must meet.

use vstd::prelude::*;
use vstd::string::StrSliceExecFns;
use vstd::string::StringExecFns;

verus! {

/// One stored tip.
#[derive(Debug)]
pub struct GameTip {
    pub id: u128,
    pub header: String,
    pub mobile_phone: String,
    pub description: String,
    pub created_at: i64,
}

/// Body of a request to send a tip in.
#[derive(Debug, Clone)]
pub struct CreateGameTipRequest {
    pub header: String,
    pub mobile_phone: String,
    pub description: String,
}

/// Query parameters of the tip-listing endpoint.
#[derive(Debug, Clone, Copy)]
pub struct GameTipPageQuery {
    pub page_num: u16,
}

impl CreateGameTipRequest {
    /// Whether every field fits its bounds: the header up to 100
    /// characters, the phone number up to 20, the description up to
    /// 300, none empty.
    pub open spec fn spec_valid(self) -> bool {
        &&& 1 <= self.header@.len() <= 100
        &&& 1 <= self.mobile_phone@.len() <= 20
        &&& 1 <= self.description@.len() <= 300
    }

    /// Checks the field bounds; the message names the first field out
    /// of bounds, in field order.
    pub fn validate(&self) -> (r: Result<(), String>)
        ensures
            r is Ok <==> self.spec_valid(),
            r matches Err(m) ==> m@ == (if !(1 <= self.header@.len() <= 100) {
                "Header must be 1 to 100 characters"@
            } else if !(1 <= self.mobile_phone@.len() <= 20) {
                "Mobile phone must be 1 to 20 characters"@
            } else {
                "Description must be 1 to 300 characters"@
            }),
    {
        let header_len = self.header.as_str().unicode_len();
        if header_len < 1 || header_len > 100 {
            return Err(String::from_str("Header must be 1 to 100 characters"));
        }
        let phone_len = self.mobile_phone.as_str().unicode_len();
        if phone_len < 1 || phone_len > 20 {
            return Err(String::from_str("Mobile phone must be 1 to 20 characters"));
        }
        let description_len = self.description.as_str().unicode_len();
        if description_len < 1 || description_len > 300 {
            return Err(String::from_str("Description must be 1 to 300 characters"));
        }
        Ok(())
    }
}

} // verus!
