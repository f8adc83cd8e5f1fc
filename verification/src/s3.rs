//! Object-store locator formatting.
//!
//! Different regions use different URL shapes; the special shape is the
//! default region, which carries no region component in the host name.

use vstd::prelude::*;
use vstd::string::*;

use crate::text::str_eq;

verus! {

/// The locator under which a bucket/key pair is served in a region.
pub open spec fn spec_s3_url(bucket: Seq<char>, key: Seq<char>, region: Seq<char>) -> Seq<char> {
    if region == "us-east-1"@ {
        "https://"@ + bucket + ".s3.amazonaws.com/"@ + key
    } else {
        "https://"@ + bucket + ".s3."@ + region + ".amazonaws.com/"@ + key
    }
}

/// Format the region-specific locator for an object: the default region
/// omits the region component, every other region carries it.
pub fn get_s3_url(bucket: &str, key: &str, region: &str) -> (r: String)
    ensures
        r@ == spec_s3_url(bucket@, key@, region@),
        r@.len() > 0,
{
    if str_eq(region, "us-east-1") {
        let mut r = String::from_str("https://");
        r.append(bucket);
        r.append(".s3.amazonaws.com/");
        r.append(key);
        proof {
            reveal_strlit("https://");
        }
        r
    } else {
        let mut r = String::from_str("https://");
        r.append(bucket);
        r.append(".s3.");
        r.append(region);
        r.append(".amazonaws.com/");
        r.append(key);
        proof {
            reveal_strlit("https://");
        }
        r
    }
}

} // verus!
