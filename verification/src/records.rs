//! Plain record types shared with the surrounding CRUD handlers.

use vstd::prelude::*;

verus! {

/// A campaign's display name.
pub struct CampaignName(pub String);

/// The payload of the background welcome-mail job.
pub struct WelcomeEmail {
    pub user_id: i32,
    pub email: String,
    pub name: String,
}

} // verus!
