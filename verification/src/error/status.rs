//! Common status-code constants surfaced by the safe bridge.

use vstd::prelude::*;

use super::OsStatus;

verus! {

/// The call succeeded.
pub const SUCCESS: OsStatus = 0;

/// `errSecDuplicateItem`.
pub const DUPLICATE_ITEM: OsStatus = -25_299;

/// `errSecItemNotFound`.
pub const ITEM_NOT_FOUND: OsStatus = -25_300;

/// `errSecInteractionNotAllowed`.
pub const INTERACTION_NOT_ALLOWED: OsStatus = -25_308;

/// `errSecMissingEntitlement`: the process lacks the entitlement that the
/// operation needs, such as a keychain access group.
pub const MISSING_ENTITLEMENT: OsStatus = -34_018;

} // verus!
