//! The persisted copy of the session record.
//!
//! The record is mirrored to one named entry of a key/value store that lives
//! as long as the browser tab. Reading and writing that entry is the caller's
//! work; this module names the entry and the writes a transition can ask for.

use crate::token::{AuthToken, TokenModel};
use vstd::prelude::*;

verus! {

/// Name of the entry that holds the serialized session record.
pub const STATE_STORAGE_KEY: &'static str = "webadmin_state";

/// Name of the entry that holds the login name last used.
pub const STATE_LOGIN_NAME_KEY: &'static str = "webadmin_login_name";

/// What to do with the persisted copy of the record.
#[derive(Debug)]
pub enum StoreAction {
    /// Leave the persisted entry as it is.
    Keep,
    /// Overwrite the persisted entry with this record.
    Save(AuthToken),
    /// Remove the persisted entry.
    Clear,
}

/// Mathematical content of a [`StoreAction`].
pub enum StoreModel {
    Keep,
    Save(TokenModel),
    Clear,
}

impl View for StoreAction {
    type V = StoreModel;

    open spec fn view(&self) -> StoreModel {
        match self {
            StoreAction::Keep => StoreModel::Keep,
            StoreAction::Save(record) => StoreModel::Save(record@),
            StoreAction::Clear => StoreModel::Clear,
        }
    }
}

} // verus!
