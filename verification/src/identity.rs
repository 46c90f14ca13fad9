//! Who a connection belongs to.

use vstd::prelude::*;

verus! {

/// The participant behind a connection and the room that it joined. The
/// caller has verified all of it before the connection starts.
#[derive(Clone, Debug, PartialEq, Eq)]
pub struct Identity {
    /// Identifier of the user.
    pub user_id: String,
    /// Name under which the user is shown to the room.
    pub display_name: String,
    /// Identifier of the room, the shared document that is edited.
    pub room_id: String,
    /// Role that the user's claim grants in the room.
    pub role: String,
}

/// What an [`Identity`] holds.
pub struct IdentityView {
    pub user_id: Seq<char>,
    pub display_name: Seq<char>,
    pub room_id: Seq<char>,
    pub role: Seq<char>,
}

impl View for Identity {
    type V = IdentityView;

    open spec fn view(&self) -> IdentityView {
        IdentityView {
            user_id: self.user_id@,
            display_name: self.display_name@,
            room_id: self.room_id@,
            role: self.role@,
        }
    }
}

} // verus!
