//! The `.deployment` template shown to users who have none yet.
use vstd::prelude::*;

verus! {

/// The template: one line for each setting a release needs.
pub open spec fn deployment_template() -> Seq<char> {
    "APP_NAME=MyApp\nAPPLE_ID=email@example.com\nTEAM_ID=XXXXXXXXXX\nACCOUNT_TOKEN=xxxx-xxxx-xxxx-xxxx\nSCHEME=MyApp\nEXPORT_METHOD=developer-id"@
}

/// The text the `template` command prints.
pub fn handle_template() -> (t: String)
    ensures
        t@ == deployment_template(),
{
    String::from_str(
        "APP_NAME=MyApp\nAPPLE_ID=email@example.com\nTEAM_ID=XXXXXXXXXX\nACCOUNT_TOKEN=xxxx-xxxx-xxxx-xxxx\nSCHEME=MyApp\nEXPORT_METHOD=developer-id",
    )
}

} // verus!
